//! The outside work the service's operations ask for, and what comes back.
//!
//! An operation is a value that is advanced one step at a time: each step
//! takes the [`Event`] that reports the outcome of the previous [`Action`] and
//! either names the next action or finishes with a result. The caller performs
//! the actions against the database, the Telegram API and the clock.

use vstd::prelude::*;
use crate::bot::error::{BotError, RepositoryError};
use crate::bot::telegram::InputSticker;
use crate::db::schema::{NewStickerPack, StickerPack};

verus! {

/// Outside work an operation asks for.
#[derive(Debug)]
pub enum Action {
    /// Look up a pack by its id (`StickerPackRepository::get_by_id`); answered by [`Event::Pack`].
    GetPackById(i64),
    /// Look up a user's active pack (`get_active_pack`); answered by [`Event::Pack`].
    GetActivePack(i64),
    /// Insert a new pack and make it the user's active one (`create`); answered by [`Event::Created`].
    CreatePack(NewStickerPack),
    /// Insert a pack found on Telegram (`insert_recovered_pack`); answered by [`Event::Created`].
    InsertRecoveredPack(StickerPack),
    /// Add one to a pack's sticker count (`increment_sticker_count`); answered by [`Event::Stored`].
    IncrementStickerCount(i64),
    /// Set a pack's sticker count (`update_sticker_count`); answered by [`Event::Stored`].
    UpdateStickerCount(i64, i32),
    /// Record that a pack was synchronized now (`update_last_synced`); answered by [`Event::Stored`].
    UpdateLastSynced(i64),
    /// Delete a pack (`delete`); answered by [`Event::Stored`].
    DeletePack(i64),
    /// Set a user's default pack (`set_default_pack`); answered by [`Event::Stored`].
    SetDefaultPack(i64, Option<i64>),
    /// Fetch a sticker set from Telegram by name; answered by [`Event::StickerSet`].
    GetStickerSet(String),
    /// Create a sticker set on Telegram with its first sticker; answered by [`Event::Telegram`].
    CreateStickerSet { user_id: i64, name: String, title: String, sticker: InputSticker },
    /// Add a sticker to a set on Telegram; answered by [`Event::Telegram`].
    AddStickerToSet { user_id: i64, name: String, sticker: InputSticker },
    /// Read the clock; answered by [`Event::Clock`].
    ReadClock,
    /// Run a synchronization of this pack ([`crate::service::sync::SyncOp::internal`]);
    /// answered by [`Event::Synced`].
    SyncPack(StickerPack),
    /// Run a recovery of a pack that exists on Telegram
    /// ([`crate::service::sync::RecoverOp::start`]); answered by [`Event::Recovered`].
    RecoverPack { pack_link: String, pack_name: String, version: String },
}

/// The outcome of an [`Action`].
#[derive(Debug)]
pub enum Event {
    Pack(Result<Option<StickerPack>, RepositoryError>),
    Created(Result<StickerPack, RepositoryError>),
    Stored(Result<(), RepositoryError>),
    /// The number of stickers in the fetched set, or the error.
    StickerSet(Result<usize, BotError>),
    Telegram(Result<(), BotError>),
    /// Seconds since the Unix epoch.
    Clock(i64),
    Synced(Result<StickerPack, BotError>),
    Recovered(Result<StickerPack, BotError>),
}

/// What a step of an operation gives.
#[derive(Debug)]
pub enum Step<M, T> {
    /// The operation goes on in the new state once the action is performed.
    Continue(M, Action),
    /// The operation is over.
    Finished(Result<T, BotError>),
}

} // verus!
