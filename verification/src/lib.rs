//! Revision tracking for chat-driven code evaluations.
//!
//! The crate keeps, for every chat message that asked for an evaluation, the
//! record of which revision of the code is current, and decides what becomes
//! of a finished run: committed and shown, or dropped because a newer
//! submission has taken its place.

pub mod controller;
pub mod decimal;
pub mod handler;
pub mod repository;
pub mod service;
pub mod text;
