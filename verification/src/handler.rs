//! What the chat side of the library decides: which command a message or a
//! button asks for, and what is said in return.

pub mod answer;
pub mod callback_query;
pub mod new_message;
pub mod render;
pub mod tg_client;
pub mod updates;
