//! Synchronizing a pack's sticker count with Telegram, and recovering a pack
//! that exists on Telegram but not in the database.

use vstd::prelude::*;
use crate::bot::error::{is_pack_invalid_error_spec, BotError};
use crate::db::schema::{StickerPack, User};
use crate::service::effects::{Action, Event, Step};
use crate::service::sticker::StickerService;
use crate::text::{ends_with, has_suffix, push_str};

verus! {

/// A step of a synchronization.
pub type SyncStep = Step<SyncOp, StickerPack>;

/// Where a synchronization stands.
#[derive(Debug)]
pub enum SyncState {
    /// Waiting for the pack looked up by id.
    AwaitPack,
    /// Waiting for the pack's sticker set from Telegram.
    AwaitSet(StickerPack),
    /// Waiting for the deletion of a pack whose set is invalid; the error is reported after.
    AwaitDeleteInvalid(StickerPack, BotError),
    /// Waiting for the deletion of a pack whose set has no stickers.
    AwaitDeleteEmpty(StickerPack),
    /// Waiting for the new sticker count to be stored.
    AwaitCount(StickerPack),
    /// Waiting for the synchronization time to be stored.
    AwaitSynced(StickerPack),
    /// Waiting for the updated pack.
    AwaitReload,
}

/// A synchronization of one pack with Telegram.
#[derive(Debug)]
pub struct SyncOp {
    /// The pack being synchronized.
    pub pack_id: i64,
    /// For a user's request, the user whose pack it must be; `None` for a
    /// synchronization the service starts itself.
    pub owner: Option<i64>,
    pub state: SyncState,
}

/// The events each state of a synchronization expects.
pub open spec fn sync_accepts(op: SyncOp, ev: Event) -> bool {
    match op.state {
        SyncState::AwaitPack => ev is Pack,
        SyncState::AwaitSet(_) => ev is StickerSet,
        SyncState::AwaitDeleteInvalid(_, _) => ev is Stored,
        SyncState::AwaitDeleteEmpty(_) => ev is Stored,
        SyncState::AwaitCount(_) => ev is Stored,
        SyncState::AwaitSynced(_) => ev is Stored,
        SyncState::AwaitReload => ev is Pack,
    }
}

/// One step of a synchronization: the pack must exist (and, for a user's
/// request, be that user's); a set Telegram reports invalid, or one without
/// stickers, deletes the pack (a failed deletion is reported only for a user's
/// request); otherwise the count from Telegram and the synchronization time
/// are stored and the updated pack is the result.
pub open spec fn sync_next(op: SyncOp, ev: Event, r: Step<SyncOp, StickerPack>) -> bool {
    match (op.state, ev) {
        (SyncState::AwaitPack, Event::Pack(res)) => match res {
            Err(d) => r == SyncStep::Finished(Err(BotError::DatabaseError(d))),
            Ok(None) => r == SyncStep::Finished(Err(BotError::PackNotFound)),
            Ok(Some(p)) => if Some(p.user_id) != op.owner {
                r == SyncStep::Finished(Err(BotError::PackOwnershipViolation))
            } else {
                r == SyncStep::Continue(
                    SyncOp { state: SyncState::AwaitSet(p), ..op },
                    Action::GetStickerSet(p.pack_link),
                )
            },
        },
        (SyncState::AwaitSet(p), Event::StickerSet(res)) => match res {
            Err(e) => if is_pack_invalid_error_spec(e) {
                r == SyncStep::Continue(
                    SyncOp { state: SyncState::AwaitDeleteInvalid(p, e), ..op },
                    Action::DeletePack(p.id),
                )
            } else {
                r == SyncStep::Finished(Err(e))
            },
            Ok(n) => if n as i32 == 0 {
                r == SyncStep::Continue(SyncOp { state: SyncState::AwaitDeleteEmpty(p), ..op }, Action::DeletePack(p.id))
            } else {
                r == SyncStep::Continue(
                    SyncOp { state: SyncState::AwaitCount(p), ..op },
                    Action::UpdateStickerCount(p.id, n as i32),
                )
            },
        },
        (SyncState::AwaitDeleteInvalid(_, e), Event::Stored(res)) => match res {
            Err(d) if op.owner is Some => r == SyncStep::Finished(Err(BotError::DatabaseError(d))),
            _ => r == SyncStep::Finished(Err(e)),
        },
        (SyncState::AwaitDeleteEmpty(_), Event::Stored(res)) => match res {
            Err(d) if op.owner is Some => r == SyncStep::Finished(Err(BotError::DatabaseError(d))),
            _ => r == SyncStep::Finished(Err(BotError::PackNotFound)),
        },
        (SyncState::AwaitCount(p), Event::Stored(res)) => match res {
            Err(d) => r == SyncStep::Finished(Err(BotError::DatabaseError(d))),
            Ok(()) => r == SyncStep::Continue(SyncOp { state: SyncState::AwaitSynced(p), ..op }, Action::UpdateLastSynced(p.id)),
        },
        (SyncState::AwaitSynced(_), Event::Stored(res)) => match res {
            Err(d) => r == SyncStep::Finished(Err(BotError::DatabaseError(d))),
            Ok(()) => r == SyncStep::Continue(SyncOp { state: SyncState::AwaitReload, ..op }, Action::GetPackById(op.pack_id)),
        },
        (SyncState::AwaitReload, Event::Pack(res)) => match res {
            Err(d) => r == SyncStep::Finished(Err(BotError::DatabaseError(d))),
            Ok(None) => r == SyncStep::Finished(Err(BotError::PackNotFound)),
            Ok(Some(p)) => r == SyncStep::Finished(Ok(p)),
        },
        _ => false,
    }
}

/// A synchronization a user asked for acts only on that user's pack, stores
/// the count Telegram reports, and deletes (never updates) a pack whose set is
/// empty.
pub proof fn law_sync_user_pack(op: SyncOp, ev: Event, r: SyncStep)
    requires
        sync_next(op, ev, r),
    ensures
        op.state is AwaitPack && op.owner is Some ==> (r matches Step::Continue(op2, _) ==> (op2.state matches SyncState::AwaitSet(p) && Some(p.user_id) == op.owner)),
        op.state matches SyncState::AwaitSet(p) ==> (ev matches Event::StickerSet(Ok(n))
            ==> (r matches Step::Continue(_, a) && (a == Action::DeletePack(p.id)
                || a == Action::UpdateStickerCount(p.id, n as i32)))),
{
    if let SyncState::AwaitSet(p) = op.state {
        if let Event::StickerSet(Ok(n)) = ev {
            assert(r is Continue);
            if let Step::Continue(o, a) = r {
                assert(a == Action::DeletePack(p.id) || a == Action::UpdateStickerCount(p.id, n as i32));
            }
        }
    }
}

impl SyncOp {
    /// Synchronize a user's pack with Telegram (`sync_pack`): the pack is
    /// looked up by id first and must belong to `user`.
    pub fn for_user(user: &User, pack_id: i64) -> (r: (SyncOp, Action))
        ensures
            r.0 == (SyncOp { pack_id, owner: Some(user.id), state: SyncState::AwaitPack }),
            r.1 == Action::GetPackById(pack_id),
    {
        (SyncOp { pack_id, owner: Some(user.id), state: SyncState::AwaitPack }, Action::GetPackById(pack_id))
    }

    /// Synchronize a pack the service holds (`sync_pack_internal`).
    pub fn internal(pack: StickerPack) -> (r: (SyncOp, Action))
        ensures
            r.1 == Action::GetStickerSet(pack.pack_link),
            r.0 == (SyncOp { pack_id: pack.id, owner: None, state: SyncState::AwaitSet(pack) }),
    {
        let link = pack.pack_link.clone();
        (SyncOp { pack_id: pack.id, owner: None, state: SyncState::AwaitSet(pack) }, Action::GetStickerSet(link))
    }

    /// Whether this step expects `ev`.
    pub fn accepts(&self, ev: &Event) -> (r: bool)
        ensures
            r == sync_accepts(*self, *ev),
    {
        match (&self.state, ev) {
            (SyncState::AwaitPack, Event::Pack(_)) => true,
            (SyncState::AwaitSet(_), Event::StickerSet(_)) => true,
            (SyncState::AwaitDeleteInvalid(_, _), Event::Stored(_)) => true,
            (SyncState::AwaitDeleteEmpty(_), Event::Stored(_)) => true,
            (SyncState::AwaitCount(_), Event::Stored(_)) => true,
            (SyncState::AwaitSynced(_), Event::Stored(_)) => true,
            (SyncState::AwaitReload, Event::Pack(_)) => true,
            _ => false,
        }
    }

    /// Advances the synchronization with the outcome of its last action.
    pub fn step(self, ev: Event) -> (r: Step<SyncOp, StickerPack>)
        requires
            sync_accepts(self, ev),
        ensures
            sync_next(self, ev, r),
    {
        let SyncOp { pack_id, owner, state } = self;
        match state {
            SyncState::AwaitPack => match ev {
                Event::Pack(Err(d)) => Step::Finished(Err(BotError::DatabaseError(d))),
                Event::Pack(Ok(None)) => Step::Finished(Err(BotError::PackNotFound)),
                Event::Pack(Ok(Some(p))) => {
                    if owner != Some(p.user_id) {
                        Step::Finished(Err(BotError::PackOwnershipViolation))
                    } else {
                        let link = p.pack_link.clone();
                        Step::Continue(SyncOp { pack_id, owner, state: SyncState::AwaitSet(p) }, Action::GetStickerSet(link))
                    }
                },
                _ => Step::Finished(Err(BotError::PackNotFound)),
            },
            SyncState::AwaitSet(p) => match ev {
                Event::StickerSet(Err(e)) => {
                    if e.is_pack_invalid_error() {
                        let id: i64 = p.id;
                        Step::Continue(SyncOp { pack_id, owner, state: SyncState::AwaitDeleteInvalid(p, e) }, Action::DeletePack(id))
                    } else {
                        Step::Finished(Err(e))
                    }
                },
                Event::StickerSet(Ok(n)) => {
                    let count: i32 = #[verifier::truncate] (n as i32);
                    let id: i64 = p.id;
                    if count == 0 {
                        Step::Continue(SyncOp { pack_id, owner, state: SyncState::AwaitDeleteEmpty(p) }, Action::DeletePack(id))
                    } else {
                        Step::Continue(SyncOp { pack_id, owner, state: SyncState::AwaitCount(p) }, Action::UpdateStickerCount(id, count))
                    }
                },
                _ => Step::Finished(Err(BotError::PackNotFound)),
            },
            SyncState::AwaitDeleteInvalid(_, e) => match ev {
                Event::Stored(Err(d)) => {
                    if owner.is_some() {
                        Step::Finished(Err(BotError::DatabaseError(d)))
                    } else {
                        Step::Finished(Err(e))
                    }
                },
                _ => Step::Finished(Err(e)),
            },
            SyncState::AwaitDeleteEmpty(_) => match ev {
                Event::Stored(Err(d)) => {
                    if owner.is_some() {
                        Step::Finished(Err(BotError::DatabaseError(d)))
                    } else {
                        Step::Finished(Err(BotError::PackNotFound))
                    }
                },
                _ => Step::Finished(Err(BotError::PackNotFound)),
            },
            SyncState::AwaitCount(p) => match ev {
                Event::Stored(Err(d)) => Step::Finished(Err(BotError::DatabaseError(d))),
                _ => {
                    let id: i64 = p.id;
                    Step::Continue(SyncOp { pack_id, owner, state: SyncState::AwaitSynced(p) }, Action::UpdateLastSynced(id))
                },
            },
            SyncState::AwaitSynced(_) => match ev {
                Event::Stored(Err(d)) => Step::Finished(Err(BotError::DatabaseError(d))),
                _ => Step::Continue(SyncOp { pack_id, owner, state: SyncState::AwaitReload }, Action::GetPackById(pack_id)),
            },
            SyncState::AwaitReload => match ev {
                Event::Pack(Err(d)) => Step::Finished(Err(BotError::DatabaseError(d))),
                Event::Pack(Ok(Some(p))) => Step::Finished(Ok(p)),
                _ => Step::Finished(Err(BotError::PackNotFound)),
            },
        }
    }
}

/// A step of a recovery.
pub type RecoverStep = Step<RecoverOp, StickerPack>;

/// Where a recovery stands.
#[derive(Debug)]
pub enum RecoverState {
    /// Waiting for the sticker set from Telegram.
    AwaitSet,
    /// Waiting for the clock; the set holds this many stickers.
    AwaitClock(i32),
    /// Waiting for the recovered pack to be stored.
    AwaitInsert,
}

/// Recovery of a pack that exists on Telegram but is missing from the database:
/// it is fetched, checked to belong to this bot, and stored as the user's
/// active pack.
#[derive(Debug)]
pub struct RecoverOp {
    pub user_id: i64,
    pub pack_link: String,
    pub pack_name: String,
    pub version: String,
    /// The link suffix of this bot's packs, `_by_{bot_username}`.
    pub bot_suffix: String,
    pub state: RecoverState,
}

/// The events each state of a recovery expects.
pub open spec fn recover_accepts(op: RecoverOp, ev: Event) -> bool {
    match op.state {
        RecoverState::AwaitSet => ev is StickerSet,
        RecoverState::AwaitClock(_) => ev is Clock,
        RecoverState::AwaitInsert => ev is Created,
    }
}

/// The record stored for a recovered pack.
pub open spec fn recovered_record(op: RecoverOp, count: i32, now: i64) -> StickerPack {
    StickerPack {
        id: 0,
        user_id: op.user_id,
        pack_name: op.pack_name,
        pack_link: op.pack_link,
        version: op.version,
        sticker_count: count,
        is_active: true,
        created_at: now,
        updated_at: now,
        last_synced_at: Some(now),
    }
}

/// One step of a recovery.
pub open spec fn recover_next(op: RecoverOp, ev: Event, r: Step<RecoverOp, StickerPack>) -> bool {
    match (op.state, ev) {
        (RecoverState::AwaitSet, Event::StickerSet(res)) => match res {
            Err(e) => r == RecoverStep::Finished(Err(e)),
            Ok(n) => if !has_suffix(op.pack_link@, op.bot_suffix@) {
                r == RecoverStep::Finished(Err(BotError::PackOwnershipViolation))
            } else {
                r == RecoverStep::Continue(RecoverOp { state: RecoverState::AwaitClock(n as i32), ..op }, Action::ReadClock)
            },
        },
        (RecoverState::AwaitClock(count), Event::Clock(now)) => r == RecoverStep::Continue(
            RecoverOp { state: RecoverState::AwaitInsert, ..op },
            Action::InsertRecoveredPack(recovered_record(op, count, now)),
        ),
        (RecoverState::AwaitInsert, Event::Created(res)) => match res {
            Err(d) => r == RecoverStep::Finished(Err(BotError::DatabaseError(d))),
            Ok(p) => r == RecoverStep::Finished(Ok(p)),
        },
        _ => false,
    }
}

/// Only a set whose name ends with this bot's suffix is stored as a recovered pack.
pub proof fn law_recover_own_packs(op: RecoverOp, ev: Event, r: RecoverStep)
    requires
        recover_next(op, ev, r),
    ensures
        r matches Step::Continue(op2, _) && op2.state is AwaitClock ==> has_suffix(op.pack_link@, op.bot_suffix@),
{
}

impl RecoverOp {
    /// Start recovering the pack `pack_link` for `user`, to be stored under
    /// `pack_name` and `version`.
    pub fn start(service: &StickerService, user: &User, pack_link: &str, pack_name: &str, version: &str) -> (r: (RecoverOp, Action))
        ensures
            r.0.user_id == user.id,
            r.0.pack_link@ == pack_link@,
            r.0.pack_name@ == pack_name@,
            r.0.version@ == version@,
            r.0.bot_suffix@ == "_by_"@ + service.bot_username_view(),
            r.0.state == RecoverState::AwaitSet,
            r.1 == Action::GetStickerSet(r.0.pack_link),
    {
        let mut bot_suffix = String::new();
        push_str(&mut bot_suffix, "_by_");
        push_str(&mut bot_suffix, service.bot_username());
        let link = pack_link.to_owned();
        let action = Action::GetStickerSet(link.clone());
        (RecoverOp {
            user_id: user.id,
            pack_link: link,
            pack_name: pack_name.to_owned(),
            version: version.to_owned(),
            bot_suffix,
            state: RecoverState::AwaitSet,
        }, action)
    }

    /// Whether this step expects `ev`.
    pub fn accepts(&self, ev: &Event) -> (r: bool)
        ensures
            r == recover_accepts(*self, *ev),
    {
        match (&self.state, ev) {
            (RecoverState::AwaitSet, Event::StickerSet(_)) => true,
            (RecoverState::AwaitClock(_), Event::Clock(_)) => true,
            (RecoverState::AwaitInsert, Event::Created(_)) => true,
            _ => false,
        }
    }

    /// Advances the recovery with the outcome of its last action.
    pub fn step(self, ev: Event) -> (r: Step<RecoverOp, StickerPack>)
        requires
            recover_accepts(self, ev),
        ensures
            recover_next(self, ev, r),
    {
        let RecoverOp { user_id, pack_link, pack_name, version, bot_suffix, state } = self;
        match state {
            RecoverState::AwaitSet => match ev {
                Event::StickerSet(Err(e)) => Step::Finished(Err(e)),
                Event::StickerSet(Ok(n)) => {
                    if !ends_with(pack_link.as_str(), bot_suffix.as_str()) {
                        Step::Finished(Err(BotError::PackOwnershipViolation))
                    } else {
                        let count: i32 = #[verifier::truncate] (n as i32);
                        Step::Continue(
                            RecoverOp { user_id, pack_link, pack_name, version, bot_suffix, state: RecoverState::AwaitClock(count) },
                            Action::ReadClock,
                        )
                    }
                },
                _ => Step::Finished(Err(BotError::PackNotFound)),
            },
            RecoverState::AwaitClock(count) => match ev {
                Event::Clock(now) => {
                    let record = StickerPack {
                        id: 0,
                        user_id,
                        pack_name: pack_name.clone(),
                        pack_link: pack_link.clone(),
                        version: version.clone(),
                        sticker_count: count,
                        is_active: true,
                        created_at: now,
                        updated_at: now,
                        last_synced_at: Some(now),
                    };
                    Step::Continue(
                        RecoverOp { user_id, pack_link, pack_name, version, bot_suffix, state: RecoverState::AwaitInsert },
                        Action::InsertRecoveredPack(record),
                    )
                },
                _ => Step::Finished(Err(BotError::PackNotFound)),
            },
            RecoverState::AwaitInsert => match ev {
                Event::Created(Err(d)) => Step::Finished(Err(BotError::DatabaseError(d))),
                Event::Created(Ok(p)) => Step::Finished(Ok(p)),
                _ => Step::Finished(Err(BotError::PackNotFound)),
            },
        }
    }
}


/// When Telegram reports a positive number of stickers (that fits an `i32`)
/// for the pack being synchronized, that number is stored as the pack's count;
/// the pack is deleted only when Telegram reports its set invalid or holding
/// no sticker.
pub proof fn law_sync_stores_reported_count(op: SyncOp, ev: Event, r: SyncStep)
    requires
        sync_next(op, ev, r),
    ensures
        op.state matches SyncState::AwaitSet(p) ==> (ev matches Event::StickerSet(Ok(n))
            ==> (1 <= n <= i32::MAX ==> r == SyncStep::Continue(
                SyncOp { state: SyncState::AwaitCount(p), ..op },
                Action::UpdateStickerCount(p.id, n as i32),
            ))),
        r matches Step::Continue(_, Action::DeletePack(_)) ==> (op.state matches SyncState::AwaitSet(_) && ({
            ||| ev matches Event::StickerSet(Ok(n)) && n as i32 == 0
            ||| ev matches Event::StickerSet(Err(BotError::TelegramApi(a))) && ({
                ||| crate::text::contains_seq(a.debug_text@, "InvalidStickersSet"@)
                ||| crate::text::contains_seq(a.debug_text@, "STICKERSET_INVALID"@)
            })
        })),
{
    if let SyncState::AwaitSet(p) = op.state {
        if let Event::StickerSet(Ok(n)) = ev {
            if 1 <= n <= i32::MAX {
                assert(n as i32 == n);
            }
        }
    }
}

/// A recovery whose sticker set was fetched goes on to store the pack exactly
/// when the pack's link ends with this bot's suffix `_by_{bot_username}`;
/// otherwise it ends with `PackOwnershipViolation`.
pub proof fn law_recover_exactly_own_links(op: RecoverOp, ev: Event, r: RecoverStep)
    requires
        recover_next(op, ev, r),
        op.state is AwaitSet,
        ev matches Event::StickerSet(Ok(_)),
    ensures
        ({
            let link = op.pack_link@;
            let suffix = op.bot_suffix@;
            let own = suffix.len() <= link.len() && link.subrange(link.len() - suffix.len(), link.len() as int) == suffix;
            &&& own ==> (ev matches Event::StickerSet(Ok(n)) && r == RecoverStep::Continue(
                RecoverOp { state: RecoverState::AwaitClock(n as i32), ..op },
                Action::ReadClock,
            ))
            &&& !own ==> r == RecoverStep::Finished(Err(BotError::PackOwnershipViolation))
        }),
{
}

} // verus!
