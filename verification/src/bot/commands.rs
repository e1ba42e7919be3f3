//! The bot's commands.

use vstd::prelude::*;

verus! {

/// Bot commands supported by the Telegram Sticker Kang Bot.
#[derive(Debug)]
pub enum Command {
    /// Start the bot and see welcome message
    Start,
    /// Add a replied-to sticker to your pack
    Kang,
    /// Create a new sticker pack with a custom name
    CreatePack(String),
    /// Select your default sticker pack
    SetStickerPack,
    /// Show resource usage statistics
    Stats,
}

} // verus!
