//! Bot commands, errors and handler logic.

pub mod commands;
pub mod error;
pub mod handlers;
pub mod retry;
pub mod telegram;
