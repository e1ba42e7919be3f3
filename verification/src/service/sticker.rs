//! Sticker pack business logic: the service's settings, pack naming for new
//! packs, staleness, and the results of its operations.
//!
//! The operations themselves (adding a sticker, creating a custom pack,
//! synchronizing and recovering packs) are step functions in
//! [`crate::service::kang`], [`crate::service::custom_pack`] and
//! [`crate::service::sync`]: each step takes the result of the previous outside
//! call and names the next one.

use vstd::prelude::*;
use crate::db::schema::{NewStickerPack, StickerPack, User};
use crate::service::naming::{
    has_prefix_vol, next_version_overflows, next_version_spec, pack_link_spec, pack_name_spec, vol,
};
pub use crate::service::naming::{generate_custom_pack_link, generate_pack_link, generate_pack_name, next_version};
use crate::text::{owned, starts_with};

verus! {

/// Maximum number of stickers per pack before creating a new version (Telegram limit).
pub const MAX_STICKERS_PER_PACK: i32 = 120;

/// Maximum pack name length in bytes (Telegram limit).
pub const MAX_PACK_NAME_LENGTH: usize = 64;

/// Duration in seconds after which a pack is considered stale (7 days).
pub const STALE_THRESHOLD_SECONDS: i64 = 604_800;

/// Result of a kang operation.
#[derive(Debug)]
pub struct KangResult {
    /// The sticker pack that was modified or created.
    pub pack: StickerPack,
    /// Whether a new pack was created.
    pub created_new_pack: bool,
}

/// Result of a create pack operation.
#[derive(Debug)]
pub struct CreatePackResult {
    /// The newly created sticker pack.
    pub pack: StickerPack,
}

/// Settings of the sticker service.
pub struct StickerService {
    bot_username: String,
}

/// The username used in pack names for a user without one.
pub open spec fn display_username(user: User) -> Seq<char> {
    match user.username {
        Some(u) => u@,
        None => "user"@,
    }
}

/// `r` is the request for a user's first pack: `@{username}'s Kang Pack Vol1`,
/// linked as version `1`.
pub open spec fn is_default_pack_request(user: User, bot_username: Seq<char>, r: NewStickerPack) -> bool {
    &&& r.user_id == user.id
    &&& r.version@ == "Vol1"@
    &&& r.pack_name@ == pack_name_spec(display_username(user), "Vol1"@)
    &&& r.pack_link@ == pack_link_spec(user.telegram_id, "1"@, bot_username)
}

/// The number part of a version for pack links (`1` when it lacks the `Vol` prefix).
pub open spec fn link_version(v: Seq<char>) -> Seq<char> {
    if has_prefix_vol(v) { v.skip(3) } else { "1"@ }
}

/// `r` is the request for the pack that follows `current`.
pub open spec fn is_next_version_request(user: User, current: StickerPack, bot_username: Seq<char>, r: NewStickerPack) -> bool {
    let v = next_version_spec(current.version@);
    &&& r.user_id == user.id
    &&& r.version@ == v
    &&& r.pack_name@ == pack_name_spec(display_username(user), v)
    &&& r.pack_link@ == pack_link_spec(user.telegram_id, link_version(v), bot_username)
}

/// A pack is stale when it was never synchronized or its last synchronization
/// is at least seven days before `now`.
pub open spec fn is_stale_at(pack: StickerPack, now: int) -> bool {
    match pack.last_synced_at {
        Some(last) => now - last >= STALE_THRESHOLD_SECONDS,
        None => true,
    }
}

impl StickerService {
    /// Create a new StickerService for the bot with the given username
    /// (used for pack link generation).
    pub fn new(bot_username: String) -> (r: Self)
        ensures
            r.bot_username_view() == bot_username@,
    {
        StickerService { bot_username }
    }

    /// The bot's username.
    pub closed spec fn bot_username_view(&self) -> Seq<char> {
        self.bot_username@
    }

    /// The bot's username.
    pub fn bot_username(&self) -> (r: &str)
        ensures
            r@ == self.bot_username_view(),
    {
        self.bot_username.as_str()
    }

    /// Check if a sticker pack is stale at time `now` (seconds since the epoch).
    pub fn is_pack_stale_at(pack: &StickerPack, now: i64) -> (r: bool)
        ensures
            r == is_stale_at(*pack, now as int),
    {
        match pack.last_synced_at {
            Some(last) => (now as i128) - (last as i128) >= STALE_THRESHOLD_SECONDS as i128,
            None => true,
        }
    }

    /// Check if a sticker pack is stale now: never synchronized, or last
    /// synchronized at least seven days before the system clock's current
    /// Unix timestamp (negative before 1970).
    pub fn is_pack_stale(pack: &StickerPack) -> (r: bool)
        ensures
            exists|now: i64| r == is_stale_at(*pack, now as int),
            pack.last_synced_at is None ==> r,
    {
        let clock: (i64, u32) = crate::clock::now();
        Self::is_pack_stale_at(pack, clock.0)
    }

    /// The request for a user's first pack.
    pub fn default_pack_request(&self, user: &User) -> (r: NewStickerPack)
        ensures
            is_default_pack_request(*user, self.bot_username_view(), r),
    {
        let username = match &user.username {
            Some(u) => u.as_str(),
            None => "user",
        };
        let version = owned("Vol1");
        let pack_name = generate_pack_name(username, version.as_str());
        let pack_link = generate_pack_link(user.telegram_id, "1", self.bot_username.as_str());
        NewStickerPack { user_id: user.id, pack_name, pack_link, version }
    }

    /// The request for the pack that follows `current` once it is full.
    pub fn next_version_pack_request(&self, user: &User, current: &StickerPack) -> (r: NewStickerPack)
        requires
            !next_version_overflows(current.version@),
        ensures
            is_next_version_request(*user, *current, self.bot_username_view(), r),
    {
        let username = match &user.username {
            Some(u) => u.as_str(),
            None => "user",
        };
        let version = next_version(current.version.as_str());
        let pack_name = generate_pack_name(username, version.as_str());
        let link_version = crate::service::naming::strip_vol_or(version.as_str(), "1");
        let pack_link = generate_pack_link(user.telegram_id, link_version.as_str(), self.bot_username.as_str());
        NewStickerPack { user_id: user.id, pack_name, pack_link, version }
    }

    /// The version a user's next custom pack would get: the one after the
    /// active pack's, or `Vol1` when there is no active pack.
    pub fn next_version_for(active_pack: Option<&StickerPack>) -> (r: String)
        requires
            active_pack matches Some(p) ==> !next_version_overflows(p.version@),
        ensures
            r@ == match active_pack {
                Some(p) => next_version_spec(p.version@),
                None => "Vol1"@,
            },
    {
        match active_pack {
            Some(p) => next_version(p.version.as_str()),
            None => owned("Vol1"),
        }
    }
}

} // verus!
