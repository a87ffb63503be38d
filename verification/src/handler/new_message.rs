//! A new submission in the chat: which message shows it while it runs, and
//! what is shown when the run has ended.

use super::render::{
    escape_text, escaped_text, render_page_data, rendered_buttons, rendered_text, row_view,
    Keyboard,
};
use crate::controller::EvalResultResponse;
use vstd::prelude::*;

verus! {

/// What a message says while its submission runs.
pub const PROCESSING_MESSAGE_TEXT: &'static str = "<i>Processing...</i>";

/// What a user is told when a submission could not be taken.
pub open spec fn fatal_error_text(error: Seq<char>) -> Seq<char> {
    "<i>Fatal error: "@ + escaped_text(error) + "</i>"@
}

/// What a message says when its result could not be stored.
pub open spec fn error_text(error: Seq<char>) -> Seq<char> {
    "<i>Error: "@ + escaped_text(error) + "</i>"@
}

/// Writes what a user is told when a submission could not be taken.
pub fn render_fatal_error(error: &str) -> (text: String)
    ensures
        text@ == fatal_error_text(error@),
{
    let mut text = String::from_str("<i>Fatal error: ");
    text.append(escape_text(error).as_str());
    text.append("</i>");
    text
}

/// Writes what a message says when its result could not be stored.
pub fn render_error(error: &str) -> (text: String)
    ensures
        text@ == error_text(error@),
{
    let mut text = String::from_str("<i>Error: ");
    text.append(escape_text(error).as_str());
    text.append("</i>");
    text
}

/// How a submission gets the message that shows it.
#[derive(Debug, Clone, Copy, PartialEq, Eq, Structural)]
pub enum PlaceholderPlan {
    /// The record is shown by a message already: that message is edited.
    Edit(i64),
    /// A new message is sent, and the record is told of it.
    Send,
}

/// Decides how a submission gets the message that shows it, from the chat
/// message that showed the record before. When the message to edit turns
/// out to be gone, the caller asks again with nothing.
pub fn plan_placeholder(eval_msg_id: Option<i64>) -> (plan: PlaceholderPlan)
    ensures
        plan == match eval_msg_id {
            Some(eval_msg_id) => PlaceholderPlan::Edit(eval_msg_id),
            None => PlaceholderPlan::Send,
        },
{
    match eval_msg_id {
        Some(eval_msg_id) => PlaceholderPlan::Edit(eval_msg_id),
        None => PlaceholderPlan::Send,
    }
}

/// What becomes of the message of a submission when the wait has ended.
#[derive(Debug, Clone, PartialEq, Eq)]
pub enum MessageEdit {
    /// The message stays as it is.
    Nothing,
    /// The message gets a text and loses its buttons.
    Text(String),
    /// The message gets a text and buttons.
    Page(String, Keyboard),
}

/// Whether `edit` is what the answer to a wait asks for: a cancelled or
/// outdated result changes nothing, a failure is told, a page is shown.
pub open spec fn edit_shows(res: EvalResultResponse, edit: MessageEdit) -> bool {
    match res {
        EvalResultResponse::Cancelled => edit is Nothing,
        EvalResultResponse::RequestOutdated => edit is Nothing,
        EvalResultResponse::Failed(error) => edit matches MessageEdit::Text(text) && text@
            == error_text(error@),
        EvalResultResponse::Shown(data) => {
            &&& edit matches MessageEdit::Page(text, keyboard)
            &&& text@ == rendered_text(data@)
            &&& keyboard.inline_keyboard@.len() == 1
            &&& row_view(keyboard.inline_keyboard@[0]) == rendered_buttons(data@)
        },
    }
}

/// Decides what becomes of the message of a submission when the wait has
/// ended.
pub fn result_edit(res: EvalResultResponse) -> (edit: MessageEdit)
    ensures
        edit_shows(res, edit),
{
    match res {
        EvalResultResponse::Cancelled => MessageEdit::Nothing,
        EvalResultResponse::RequestOutdated => MessageEdit::Nothing,
        EvalResultResponse::Failed(error) => MessageEdit::Text(render_error(error.as_str())),
        EvalResultResponse::Shown(data) => {
            let (text, keyboard) = render_page_data(data);
            MessageEdit::Page(text, keyboard)
        },
    }
}

} // verus!
