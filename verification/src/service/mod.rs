//! Business logic of the bot: sticker packs and users.

pub mod capacity;
pub mod custom_pack;
pub mod effects;
pub mod kang;
pub mod naming;
pub mod sticker;
pub mod sync;
pub mod user;
