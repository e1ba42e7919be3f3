//! Decisions and messages of the command handlers.

pub mod callback_query;
pub mod create_pack;
pub mod kang;
pub mod set_sticker_pack;
pub mod start;
pub mod stats;
pub mod sticker;
pub mod utils;
