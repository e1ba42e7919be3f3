//! Adding a sticker to a user's pack (the `/kang` operation).
//!
//! 1. If the user has a default pack configured (and it still exists), that
//!    pack is used; it must belong to the user. Otherwise the user's active
//!    pack is used.
//! 2. A stale pack is synchronized with Telegram first; a pack Telegram reports
//!    invalid is treated as full.
//! 3. Without any pack, the user's first pack is created.
//! 4. A full pack gets a new version.
//! 5. The sticker is added on Telegram, and the pack's count is incremented.

use vstd::prelude::*;
use crate::bot::error::{
    is_pack_full_error_spec, is_pack_invalid_error_spec, is_pack_occupied_error_spec, BotError,
};
use crate::bot::telegram::InputSticker;
use crate::db::schema::{StickerPack, User};
use crate::service::effects::{Action, Event, Step};
use crate::service::naming::next_version_overflows;
use crate::service::sticker::{
    is_default_pack_request, is_next_version_request, is_stale_at, KangResult, StickerService,
    MAX_STICKERS_PER_PACK,
};

verus! {

/// Where a kang operation stands.
#[derive(Debug)]
pub enum KangState {
    /// Waiting for the user's default pack, looked up by id.
    AwaitDefaultPack,
    /// Waiting for the user's active pack.
    AwaitActivePack,
    /// Waiting for the clock, to tell whether the pack is stale.
    AwaitClock(StickerPack),
    /// Waiting for the synchronization of a stale pack.
    AwaitStaleSync(StickerPack),
    /// Waiting for the next version of a full pack to be stored.
    AwaitNextVersionPack,
    /// Waiting for the user's first pack to be stored.
    AwaitFirstPack,
    /// Waiting for Telegram to create the set of a new pack with the sticker.
    AwaitNewSet(StickerPack),
    /// Waiting for the recovery of a set whose name was taken.
    AwaitRecovery,
    /// Waiting for Telegram to add the sticker to a recovered pack.
    AwaitRecoveredAdd(StickerPack),
    /// Waiting for Telegram to add the sticker to the user's pack.
    AwaitAdd(StickerPack),
    /// Waiting for the synchronization of a pack Telegram refused as full or invalid.
    AwaitRetrySync(StickerPack),
    /// Waiting for the next version of that pack to be stored.
    AwaitRetryPack,
    /// Waiting for Telegram to add the sticker to that next version.
    AwaitRetryAdd(StickerPack),
    /// Waiting for the pack's sticker count to be incremented; the flag tells
    /// whether a new pack was created.
    AwaitIncrement(StickerPack, bool),
}

/// A kang operation: adds `sticker` to a pack of `user`.
#[derive(Debug)]
pub struct KangOp {
    pub user: User,
    pub sticker: InputSticker,
    pub state: KangState,
}

/// A step of a kang operation.
pub type KangStep = Step<KangOp, KangResult>;

/// `a` adds `sticker` to the set `name` of the user `user_id`.
pub open spec fn is_add_sticker(a: Action, user_id: i64, name: String, sticker: InputSticker) -> bool {
    a matches Action::AddStickerToSet { user_id: u, name: n, sticker: s } && u == user_id && n == name && s@ == sticker@
}

/// `a` creates the set of `pack` for the user `user_id`, with `sticker` as its first sticker.
pub open spec fn is_create_set(a: Action, user_id: i64, pack: StickerPack, sticker: InputSticker) -> bool {
    a matches Action::CreateStickerSet { user_id: u, name: n, title: t, sticker: s }
        && u == user_id && n == pack.pack_link && t == pack.pack_name && s@ == sticker@
}

/// The pack a stale pack is used as after its synchronization.
pub open spec fn after_stale_sync(p: StickerPack, res: Result<StickerPack, BotError>) -> StickerPack {
    match res {
        Ok(s) => s,
        Err(e) => if is_pack_invalid_error_spec(e) {
            StickerPack { sticker_count: MAX_STICKERS_PER_PACK, ..p }
        } else {
            p
        },
    }
}

/// The pack whose next version is created after Telegram refused a sticker.
pub open spec fn after_retry_sync(p: StickerPack, res: Result<StickerPack, BotError>) -> StickerPack {
    match res {
        Ok(s) => s,
        Err(_) => p,
    }
}

/// Using pack `q`: a full pack gets a new version, otherwise the sticker is added to it.
pub open spec fn kang_use_pack(op: KangOp, bot: Seq<char>, q: StickerPack, r: KangStep) -> bool {
    if q.sticker_count >= MAX_STICKERS_PER_PACK {
        r matches Step::Continue(op2, Action::CreatePack(req))
            && op2 == (KangOp { state: KangState::AwaitNextVersionPack, ..op })
            && is_next_version_request(op.user, q, bot, req)
    } else {
        r matches Step::Continue(op2, a)
            && op2 == (KangOp { state: KangState::AwaitAdd(q), ..op })
            && is_add_sticker(a, op.user.telegram_id, q.pack_link, op.sticker)
    }
}

/// Creating the set of a freshly stored pack `n`.
pub open spec fn kang_create_set(op: KangOp, n: StickerPack, r: KangStep) -> bool {
    r matches Step::Continue(op2, a)
        && op2 == (KangOp { state: KangState::AwaitNewSet(n), ..op })
        && is_create_set(a, op.user.telegram_id, n, op.sticker)
}

/// Versions used by a step would not overflow.
pub open spec fn no_version_overflow(q: StickerPack) -> bool {
    q.sticker_count >= MAX_STICKERS_PER_PACK ==> !next_version_overflows(q.version@)
}

/// The events each state of a kang operation expects; a next version is never
/// asked of a version whose major number is at its maximum.
pub open spec fn kang_accepts(op: KangOp, ev: Event) -> bool {
    match op.state {
        KangState::AwaitDefaultPack => ev is Pack,
        KangState::AwaitActivePack => ev is Pack,
        KangState::AwaitClock(p) => ev matches Event::Clock(now) && (!is_stale_at(p, now as int) ==> no_version_overflow(p)),
        KangState::AwaitStaleSync(p) => ev matches Event::Synced(res) && no_version_overflow(after_stale_sync(p, res)),
        KangState::AwaitNextVersionPack => ev is Created,
        KangState::AwaitFirstPack => ev is Created,
        KangState::AwaitNewSet(_) => ev is Telegram,
        KangState::AwaitRecovery => ev is Recovered,
        KangState::AwaitRecoveredAdd(_) => ev is Telegram,
        KangState::AwaitAdd(_) => ev is Telegram,
        KangState::AwaitRetrySync(p) => ev matches Event::Synced(res) && !next_version_overflows(after_retry_sync(p, res).version@),
        KangState::AwaitRetryPack => ev is Created,
        KangState::AwaitRetryAdd(_) => ev is Telegram,
        KangState::AwaitIncrement(_, _) => ev is Stored,
    }
}

/// One step of a kang operation.
pub open spec fn kang_next(op: KangOp, bot: Seq<char>, ev: Event, r: KangStep) -> bool {
    match (op.state, ev) {
        (KangState::AwaitDefaultPack, Event::Pack(res)) => match res {
            Err(d) => r == KangStep::Finished(Err(BotError::DatabaseError(d))),
            Ok(Some(p)) => if p.user_id != op.user.id {
                r == KangStep::Finished(Err(BotError::PackOwnershipViolation))
            } else {
                r == KangStep::Continue(KangOp { state: KangState::AwaitClock(p), ..op }, Action::ReadClock)
            },
            Ok(None) => r == KangStep::Continue(
                KangOp { state: KangState::AwaitActivePack, ..op },
                Action::GetActivePack(op.user.id),
            ),
        },
        (KangState::AwaitActivePack, Event::Pack(res)) => match res {
            Err(d) => r == KangStep::Finished(Err(BotError::DatabaseError(d))),
            Ok(Some(p)) => r == KangStep::Continue(KangOp { state: KangState::AwaitClock(p), ..op }, Action::ReadClock),
            Ok(None) => r matches Step::Continue(op2, Action::CreatePack(req))
                && op2 == (KangOp { state: KangState::AwaitFirstPack, ..op })
                && is_default_pack_request(op.user, bot, req),
        },
        (KangState::AwaitClock(p), Event::Clock(now)) => if is_stale_at(p, now as int) {
            r == KangStep::Continue(KangOp { state: KangState::AwaitStaleSync(p), ..op }, Action::SyncPack(p))
        } else {
            kang_use_pack(op, bot, p, r)
        },
        (KangState::AwaitStaleSync(p), Event::Synced(res)) => kang_use_pack(op, bot, after_stale_sync(p, res), r),
        (KangState::AwaitNextVersionPack, Event::Created(res)) => match res {
            Err(d) => r == KangStep::Finished(Err(BotError::DatabaseError(d))),
            Ok(n) => kang_create_set(op, n, r),
        },
        (KangState::AwaitFirstPack, Event::Created(res)) => match res {
            Err(d) => r == KangStep::Finished(Err(BotError::DatabaseError(d))),
            Ok(n) => kang_create_set(op, n, r),
        },
        (KangState::AwaitNewSet(n), Event::Telegram(res)) => match res {
            Ok(()) => r == KangStep::Continue(
                KangOp { state: KangState::AwaitIncrement(n, true), ..op },
                Action::IncrementStickerCount(n.id),
            ),
            Err(e) => if is_pack_occupied_error_spec(e) {
                r == KangStep::Continue(
                    KangOp { state: KangState::AwaitRecovery, ..op },
                    Action::RecoverPack { pack_link: n.pack_link, pack_name: n.pack_name, version: n.version },
                )
            } else {
                r == KangStep::Finished(Err(e))
            },
        },
        (KangState::AwaitRecovery, Event::Recovered(res)) => match res {
            Err(e) => r == KangStep::Finished(Err(e)),
            Ok(rec) => r matches Step::Continue(op2, a)
                && op2 == (KangOp { state: KangState::AwaitRecoveredAdd(rec), ..op })
                && is_add_sticker(a, op.user.telegram_id, rec.pack_link, op.sticker),
        },
        (KangState::AwaitRecoveredAdd(rec), Event::Telegram(res)) => match res {
            Err(e) => r == KangStep::Finished(Err(e)),
            Ok(()) => r == KangStep::Continue(
                KangOp { state: KangState::AwaitIncrement(rec, true), ..op },
                Action::IncrementStickerCount(rec.id),
            ),
        },
        (KangState::AwaitAdd(q), Event::Telegram(res)) => match res {
            Ok(()) => r == KangStep::Continue(
                KangOp { state: KangState::AwaitIncrement(q, false), ..op },
                Action::IncrementStickerCount(q.id),
            ),
            Err(e) => if is_pack_full_error_spec(e) || is_pack_invalid_error_spec(e) {
                r == KangStep::Continue(KangOp { state: KangState::AwaitRetrySync(q), ..op }, Action::SyncPack(q))
            } else {
                r == KangStep::Finished(Err(e))
            },
        },
        (KangState::AwaitRetrySync(q), Event::Synced(res)) => r matches Step::Continue(op2, Action::CreatePack(req))
            && op2 == (KangOp { state: KangState::AwaitRetryPack, ..op })
            && is_next_version_request(op.user, after_retry_sync(q, res), bot, req),
        (KangState::AwaitRetryPack, Event::Created(res)) => match res {
            Err(d) => r == KangStep::Finished(Err(BotError::DatabaseError(d))),
            Ok(n) => r matches Step::Continue(op2, a)
                && op2 == (KangOp { state: KangState::AwaitRetryAdd(n), ..op })
                && is_add_sticker(a, op.user.telegram_id, n.pack_link, op.sticker),
        },
        (KangState::AwaitRetryAdd(n), Event::Telegram(res)) => match res {
            Err(e) => r == KangStep::Finished(Err(e)),
            Ok(()) => r == KangStep::Continue(
                KangOp { state: KangState::AwaitIncrement(n, true), ..op },
                Action::IncrementStickerCount(n.id),
            ),
        },
        (KangState::AwaitIncrement(q, created), Event::Stored(res)) => match res {
            Err(d) => r == KangStep::Finished(Err(BotError::DatabaseError(d))),
            Ok(()) => r == KangStep::Finished(Ok(KangResult { pack: q, created_new_pack: created })),
        },
        _ => false,
    }
}

impl KangOp {
    /// Start adding `sticker` to a pack of `user`: the default pack is looked
    /// up when the user has one configured, the active pack otherwise.
    pub fn start(user: User, sticker: InputSticker) -> (r: (KangOp, Action))
        ensures
            r.0.user == user,
            r.0.sticker == sticker,
            match user.default_pack_id {
                Some(d) => r.0.state == KangState::AwaitDefaultPack && r.1 == Action::GetPackById(d),
                None => r.0.state == KangState::AwaitActivePack && r.1 == Action::GetActivePack(user.id),
            },
    {
        match user.default_pack_id {
            Some(d) => (KangOp { user, sticker, state: KangState::AwaitDefaultPack }, Action::GetPackById(d)),
            None => {
                let id: i64 = user.id;
                (KangOp { user, sticker, state: KangState::AwaitActivePack }, Action::GetActivePack(id))
            },
        }
    }

    /// Whether this step expects `ev`.
    pub fn accepts(&self, ev: &Event) -> (r: bool)
        ensures
            r == kang_accepts(*self, *ev),
    {
        match (&self.state, ev) {
            (KangState::AwaitDefaultPack, Event::Pack(_)) => true,
            (KangState::AwaitActivePack, Event::Pack(_)) => true,
            (KangState::AwaitClock(p), Event::Clock(now)) => {
                StickerService::is_pack_stale_at(p, *now) || no_version_overflow_exec(p)
            },
            (KangState::AwaitStaleSync(p), Event::Synced(res)) => match res {
                Ok(s) => no_version_overflow_exec(s),
                Err(e) => {
                    if e.is_pack_invalid_error() {
                        !crate::service::naming::version_overflows(p.version.as_str())
                    } else {
                        no_version_overflow_exec(p)
                    }
                },
            },
            (KangState::AwaitNextVersionPack, Event::Created(_)) => true,
            (KangState::AwaitFirstPack, Event::Created(_)) => true,
            (KangState::AwaitNewSet(_), Event::Telegram(_)) => true,
            (KangState::AwaitRecovery, Event::Recovered(_)) => true,
            (KangState::AwaitRecoveredAdd(_), Event::Telegram(_)) => true,
            (KangState::AwaitAdd(_), Event::Telegram(_)) => true,
            (KangState::AwaitRetrySync(p), Event::Synced(res)) => match res {
                Ok(s) => !crate::service::naming::version_overflows(s.version.as_str()),
                Err(_) => !crate::service::naming::version_overflows(p.version.as_str()),
            },
            (KangState::AwaitRetryPack, Event::Created(_)) => true,
            (KangState::AwaitRetryAdd(_), Event::Telegram(_)) => true,
            (KangState::AwaitIncrement(_, _), Event::Stored(_)) => true,
            _ => false,
        }
    }

    /// Using pack `q`: a full pack gets a new version, otherwise the sticker
    /// is added to it.
    fn use_pack(self, service: &StickerService, q: StickerPack) -> (r: KangStep)
        requires
            no_version_overflow(q),
        ensures
            kang_use_pack(self, service.bot_username_view(), q, r),
    {
        if q.sticker_count >= MAX_STICKERS_PER_PACK {
            let req = service.next_version_pack_request(&self.user, &q);
            Step::Continue(KangOp { state: KangState::AwaitNextVersionPack, ..self }, Action::CreatePack(req))
        } else {
            let a = Action::AddStickerToSet {
                user_id: self.user.telegram_id,
                name: q.pack_link.clone(),
                sticker: self.sticker.copy(),
            };
            Step::Continue(KangOp { state: KangState::AwaitAdd(q), ..self }, a)
        }
    }

    /// Creating the set of a freshly stored pack `n`.
    fn create_set(self, n: StickerPack) -> (r: KangStep)
        ensures
            kang_create_set(self, n, r),
    {
        let a = Action::CreateStickerSet {
            user_id: self.user.telegram_id,
            name: n.pack_link.clone(),
            title: n.pack_name.clone(),
            sticker: self.sticker.copy(),
        };
        Step::Continue(KangOp { state: KangState::AwaitNewSet(n), ..self }, a)
    }

    /// Adding the sticker to the set of `n`, then waiting in `state`.
    fn add_to(self, link: &String, state: KangState) -> (r: KangStep)
        ensures
            r matches Step::Continue(op2, a)
                && op2 == (KangOp { state, ..self })
                && is_add_sticker(a, self.user.telegram_id, *link, self.sticker),
    {
        let a = Action::AddStickerToSet {
            user_id: self.user.telegram_id,
            name: link.clone(),
            sticker: self.sticker.copy(),
        };
        Step::Continue(KangOp { state, ..self }, a)
    }

    /// Advances the operation with the outcome of its last action.
    pub fn step(self, service: &StickerService, ev: Event) -> (r: KangStep)
        requires
            kang_accepts(self, ev),
        ensures
            kang_next(self, service.bot_username_view(), ev, r),
    {
        let KangOp { user, sticker, state } = self;
        match state {
            KangState::AwaitDefaultPack => match ev {
                Event::Pack(Err(d)) => Step::Finished(Err(BotError::DatabaseError(d))),
                Event::Pack(Ok(Some(p))) => {
                    if p.user_id != user.id {
                        Step::Finished(Err(BotError::PackOwnershipViolation))
                    } else {
                        Step::Continue(KangOp { user, sticker, state: KangState::AwaitClock(p) }, Action::ReadClock)
                    }
                },
                _ => {
                    let id: i64 = user.id;
                    Step::Continue(KangOp { user, sticker, state: KangState::AwaitActivePack }, Action::GetActivePack(id))
                },
            },
            KangState::AwaitActivePack => match ev {
                Event::Pack(Err(d)) => Step::Finished(Err(BotError::DatabaseError(d))),
                Event::Pack(Ok(Some(p))) => {
                    Step::Continue(KangOp { user, sticker, state: KangState::AwaitClock(p) }, Action::ReadClock)
                },
                _ => {
                    let req = service.default_pack_request(&user);
                    Step::Continue(KangOp { user, sticker, state: KangState::AwaitFirstPack }, Action::CreatePack(req))
                },
            },
            KangState::AwaitClock(p) => match ev {
                Event::Clock(now) => {
                    if StickerService::is_pack_stale_at(&p, now) {
                        let copy = p.clone();
                        Step::Continue(KangOp { user, sticker, state: KangState::AwaitStaleSync(p) }, Action::SyncPack(copy))
                    } else {
                        KangOp { user, sticker, state: KangState::AwaitClock(p.clone()) }.use_pack(service, p)
                    }
                },
                _ => Step::Finished(Err(BotError::PackNotFound)),
            },
            KangState::AwaitStaleSync(p) => match ev {
                Event::Synced(Ok(s)) => KangOp { user, sticker, state: KangState::AwaitStaleSync(p) }.use_pack(service, s),
                Event::Synced(Err(e)) => {
                    let op = KangOp { user, sticker, state: KangState::AwaitStaleSync(p.clone()) };
                    if e.is_pack_invalid_error() {
                        let mut m = p;
                        m.sticker_count = MAX_STICKERS_PER_PACK;
                        op.use_pack(service, m)
                    } else {
                        op.use_pack(service, p)
                    }
                },
                _ => Step::Finished(Err(BotError::PackNotFound)),
            },
            KangState::AwaitNextVersionPack => match ev {
                Event::Created(Err(d)) => Step::Finished(Err(BotError::DatabaseError(d))),
                Event::Created(Ok(n)) => KangOp { user, sticker, state: KangState::AwaitNextVersionPack }.create_set(n),
                _ => Step::Finished(Err(BotError::PackNotFound)),
            },
            KangState::AwaitFirstPack => match ev {
                Event::Created(Err(d)) => Step::Finished(Err(BotError::DatabaseError(d))),
                Event::Created(Ok(n)) => KangOp { user, sticker, state: KangState::AwaitFirstPack }.create_set(n),
                _ => Step::Finished(Err(BotError::PackNotFound)),
            },
            KangState::AwaitNewSet(n) => match ev {
                Event::Telegram(Ok(())) => {
                    let id: i64 = n.id;
                    Step::Continue(KangOp { user, sticker, state: KangState::AwaitIncrement(n, true) }, Action::IncrementStickerCount(id))
                },
                Event::Telegram(Err(e)) => {
                    if e.is_pack_occupied_error() {
                        let a = Action::RecoverPack { pack_link: n.pack_link, pack_name: n.pack_name, version: n.version };
                        Step::Continue(KangOp { user, sticker, state: KangState::AwaitRecovery }, a)
                    } else {
                        Step::Finished(Err(e))
                    }
                },
                _ => Step::Finished(Err(BotError::PackNotFound)),
            },
            KangState::AwaitRecovery => match ev {
                Event::Recovered(Err(e)) => Step::Finished(Err(e)),
                Event::Recovered(Ok(rec)) => {
                    let link = rec.pack_link.clone();
                    KangOp { user, sticker, state: KangState::AwaitRecovery }.add_to(&link, KangState::AwaitRecoveredAdd(rec))
                },
                _ => Step::Finished(Err(BotError::PackNotFound)),
            },
            KangState::AwaitRecoveredAdd(rec) => match ev {
                Event::Telegram(Ok(())) => {
                    let id: i64 = rec.id;
                    Step::Continue(KangOp { user, sticker, state: KangState::AwaitIncrement(rec, true) }, Action::IncrementStickerCount(id))
                },
                Event::Telegram(Err(e)) => Step::Finished(Err(e)),
                _ => Step::Finished(Err(BotError::PackNotFound)),
            },
            KangState::AwaitAdd(q) => match ev {
                Event::Telegram(Ok(())) => {
                    let id: i64 = q.id;
                    Step::Continue(KangOp { user, sticker, state: KangState::AwaitIncrement(q, false) }, Action::IncrementStickerCount(id))
                },
                Event::Telegram(Err(e)) => {
                    if e.is_pack_full_error() || e.is_pack_invalid_error() {
                        let copy = q.clone();
                        Step::Continue(KangOp { user, sticker, state: KangState::AwaitRetrySync(q) }, Action::SyncPack(copy))
                    } else {
                        Step::Finished(Err(e))
                    }
                },
                _ => Step::Finished(Err(BotError::PackNotFound)),
            },
            KangState::AwaitRetrySync(q) => match ev {
                Event::Synced(res) => {
                    let base = match res {
                        Ok(s) => s,
                        Err(_) => q,
                    };
                    let req = service.next_version_pack_request(&user, &base);
                    Step::Continue(KangOp { user, sticker, state: KangState::AwaitRetryPack }, Action::CreatePack(req))
                },
                _ => Step::Finished(Err(BotError::PackNotFound)),
            },
            KangState::AwaitRetryPack => match ev {
                Event::Created(Err(d)) => Step::Finished(Err(BotError::DatabaseError(d))),
                Event::Created(Ok(n)) => {
                    let link = n.pack_link.clone();
                    KangOp { user, sticker, state: KangState::AwaitRetryPack }.add_to(&link, KangState::AwaitRetryAdd(n))
                },
                _ => Step::Finished(Err(BotError::PackNotFound)),
            },
            KangState::AwaitRetryAdd(n) => match ev {
                Event::Telegram(Ok(())) => {
                    let id: i64 = n.id;
                    Step::Continue(KangOp { user, sticker, state: KangState::AwaitIncrement(n, true) }, Action::IncrementStickerCount(id))
                },
                Event::Telegram(Err(e)) => Step::Finished(Err(e)),
                _ => Step::Finished(Err(BotError::PackNotFound)),
            },
            KangState::AwaitIncrement(q, created) => match ev {
                Event::Stored(Err(d)) => Step::Finished(Err(BotError::DatabaseError(d))),
                Event::Stored(Ok(())) => Step::Finished(Ok(KangResult { pack: q, created_new_pack: created })),
                _ => Step::Finished(Err(BotError::PackNotFound)),
            },
        }
    }
}

/// Distance to the end of a kang operation: every step lowers it.
pub open spec fn kang_rank(s: KangState) -> nat {
    match s {
        KangState::AwaitDefaultPack => 8,
        KangState::AwaitActivePack => 7,
        KangState::AwaitClock(_) => 6,
        KangState::AwaitStaleSync(_) => 5,
        KangState::AwaitNextVersionPack => 4,
        KangState::AwaitFirstPack => 4,
        KangState::AwaitAdd(_) => 4,
        KangState::AwaitNewSet(_) => 3,
        KangState::AwaitRetrySync(_) => 3,
        KangState::AwaitRecovery => 2,
        KangState::AwaitRetryPack => 2,
        KangState::AwaitRecoveredAdd(_) => 1,
        KangState::AwaitRetryAdd(_) => 1,
        KangState::AwaitIncrement(_, _) => 0,
    }
}

/// Every kang operation ends: each step that goes on lowers the rank, which
/// starts at most at 8, so an operation takes at most nine steps; and a step
/// never changes the user or the sticker of the operation.
pub proof fn law_kang_progress(op: KangOp, bot: Seq<char>, ev: Event, r: KangStep)
    requires
        kang_next(op, bot, ev, r),
    ensures
        kang_rank(op.state) <= 8,
        r matches Step::Continue(op2, _) ==> kang_rank(op2.state) < kang_rank(op.state)
            && op2.user == op.user && op2.sticker == op.sticker,
{
}

/// A sticker is added to a pack the operation found only while that pack is
/// below capacity, and the addition names that pack's set and the operation's
/// user and sticker.
pub proof fn law_kang_adds_only_below_capacity(op: KangOp, bot: Seq<char>, ev: Event, r: KangStep)
    requires
        kang_next(op, bot, ev, r),
    ensures
        r matches Step::Continue(op2, a) ==> (op2.state matches KangState::AwaitAdd(q) ==> {
            &&& q.sticker_count < MAX_STICKERS_PER_PACK
            &&& is_add_sticker(a, op.user.telegram_id, q.pack_link, op.sticker)
        }),
{
}

/// A default pack that belongs to another user is refused: the operation
/// ends with `PackOwnershipViolation`, and a default pack is only ever used
/// when it is the user's.
pub proof fn law_kang_default_pack_ownership(op: KangOp, bot: Seq<char>, ev: Event, r: KangStep)
    requires
        kang_next(op, bot, ev, r),
        op.state == KangState::AwaitDefaultPack,
    ensures
        ev matches Event::Pack(Ok(Some(p))) && p.user_id != op.user.id
            ==> r == KangStep::Finished(Err(BotError::PackOwnershipViolation)),
        r matches Step::Continue(op2, _) ==> (op2.state matches KangState::AwaitClock(p) ==> p.user_id == op.user.id),
{
}

/// Telegram is asked to take the sticker for pack `q` exactly when the
/// operation starts waiting on that request: creating `q`'s set for a new
/// pack, and adding to `q`'s set otherwise.
pub proof fn law_kang_telegram_request_names_pack(op: KangOp, bot: Seq<char>, ev: Event, r: KangStep)
    requires
        kang_next(op, bot, ev, r),
    ensures
        r matches Step::Continue(op2, a) ==> {
            &&& op2.state matches KangState::AwaitNewSet(q) ==> is_create_set(a, op.user.telegram_id, q, op.sticker)
            &&& op2.state matches KangState::AwaitRecoveredAdd(q) ==> is_add_sticker(a, op.user.telegram_id, q.pack_link, op.sticker)
            &&& op2.state matches KangState::AwaitAdd(q) ==> is_add_sticker(a, op.user.telegram_id, q.pack_link, op.sticker)
            &&& op2.state matches KangState::AwaitRetryAdd(q) ==> is_add_sticker(a, op.user.telegram_id, q.pack_link, op.sticker)
        },
{
}

/// A pack's count is incremented only after Telegram accepted the sticker
/// for that pack, and the increment names that pack; no new pack was created
/// exactly when the sticker went to the pack the operation found.
pub proof fn law_kang_increment_after_telegram(op: KangOp, bot: Seq<char>, ev: Event, r: KangStep)
    requires
        kang_next(op, bot, ev, r),
    ensures
        r matches Step::Continue(op2, a) ==> (op2.state matches KangState::AwaitIncrement(q, created) ==> {
            &&& a == Action::IncrementStickerCount(q.id)
            &&& ev == Event::Telegram(Ok(()))
            &&& (op.state == KangState::AwaitNewSet(q) || op.state == KangState::AwaitRecoveredAdd(q)
                || op.state == KangState::AwaitAdd(q) || op.state == KangState::AwaitRetryAdd(q))
            &&& !created <==> op.state == KangState::AwaitAdd(q)
        }),
{
    if let Event::Telegram(Ok(u)) = ev {
        assert(u == ());
    }
}

/// A kang operation succeeds only once the count of the pack it returns was
/// incremented.
pub proof fn law_kang_success_after_increment(op: KangOp, bot: Seq<char>, ev: Event, r: KangStep)
    requires
        kang_next(op, bot, ev, r),
    ensures
        r matches Step::Finished(Ok(res)) ==> {
            &&& op.state == KangState::AwaitIncrement(res.pack, res.created_new_pack)
            &&& ev == Event::Stored(Ok(()))
        },
{
    if let Step::Finished(Ok(res)) = r {
        if let KangState::AwaitIncrement(q, c) = op.state {
            if let Event::Stored(Ok(u)) = ev {
                assert(u == ());
            }
        }
    }
}

fn no_version_overflow_exec(q: &StickerPack) -> (r: bool)
    ensures
        r == no_version_overflow(*q),
{
    q.sticker_count < MAX_STICKERS_PER_PACK || !crate::service::naming::version_overflows(q.version.as_str())
}


/// When Telegram refuses to add the sticker to the pack that was found because
/// its set is full or invalid (the API error's text names `STICKERSET_FULL`,
/// `stickerset_full`, `too many stickers`, `STICKERS_TOO_MUCH`,
/// `InvalidStickersSet` or `STICKERSET_INVALID`), the operation does not fail:
/// it synchronizes that pack, to move on to its next version.
pub proof fn law_kang_refused_add_resyncs(op: KangOp, bot: Seq<char>, ev: Event, r: KangStep)
    requires
        kang_next(op, bot, ev, r),
        op.state matches KangState::AwaitAdd(_),
        ev matches Event::Telegram(Err(BotError::TelegramApi(a))) && ({
            ||| crate::text::contains_seq(a.debug_text@, "STICKERSET_FULL"@)
            ||| crate::text::contains_seq(a.debug_text@, "stickerset_full"@)
            ||| crate::text::contains_seq(a.debug_text@, "too many stickers"@)
            ||| crate::text::contains_seq(a.debug_text@, "STICKERS_TOO_MUCH"@)
            ||| crate::text::contains_seq(a.debug_text@, "InvalidStickersSet"@)
            ||| crate::text::contains_seq(a.debug_text@, "STICKERSET_INVALID"@)
        }),
    ensures
        op.state matches KangState::AwaitAdd(q) && r == KangStep::Continue(
            KangOp { state: KangState::AwaitRetrySync(q), ..op },
            Action::SyncPack(q),
        ),
{
}

} // verus!
