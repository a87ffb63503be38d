//! What the library knows of the services it is used with.

pub mod playground;
