//! Verified core of a Telegram sticker "kang" bot.

pub mod bot;
mod clock;
pub mod config;
pub mod db;
pub mod emoji;
pub mod service;
pub mod text;
