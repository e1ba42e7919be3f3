//! Automatic pack rotation: a full pack is replaced by its next version,
//! which becomes the user's default pack.

use vstd::prelude::*;
use crate::bot::error::BotError;
use crate::db::schema::{StickerPack, User};
use crate::service::effects::{Action, Event, Step};
use crate::service::naming::next_version_overflows;
use crate::service::sticker::{is_next_version_request, StickerService, MAX_STICKERS_PER_PACK};

verus! {

/// Where a capacity check stands.
#[derive(Debug)]
pub enum CapacityState {
    /// Waiting for the next version to be stored.
    AwaitNewPack,
    /// Waiting for the new pack to become the user's default.
    AwaitDefault(StickerPack),
}

/// A capacity check of a pack of `user`.
#[derive(Debug)]
pub struct CapacityOp {
    pub user_id: i64,
    pub state: CapacityState,
}

/// A step of a capacity check.
pub type CapacityStep = Step<CapacityOp, StickerPack>;

/// The first step of a capacity check of `pack`: a pack that is not full is
/// the result; a full one gets its next version.
pub open spec fn capacity_start(user: User, bot: Seq<char>, pack: StickerPack, r: CapacityStep) -> bool {
    if pack.sticker_count >= MAX_STICKERS_PER_PACK {
        r matches Step::Continue(op, Action::CreatePack(req))
            && op == (CapacityOp { user_id: user.id, state: CapacityState::AwaitNewPack })
            && is_next_version_request(user, pack, bot, req)
    } else {
        r == CapacityStep::Finished(Ok(pack))
    }
}

/// The events each state expects.
pub open spec fn capacity_accepts(op: CapacityOp, ev: Event) -> bool {
    match op.state {
        CapacityState::AwaitNewPack => ev is Created,
        CapacityState::AwaitDefault(_) => ev is Stored,
    }
}

/// One step of a capacity check: the new pack becomes the user's default and
/// is the result.
pub open spec fn capacity_next(op: CapacityOp, ev: Event, r: CapacityStep) -> bool {
    match (op.state, ev) {
        (CapacityState::AwaitNewPack, Event::Created(res)) => match res {
            Err(d) => r == CapacityStep::Finished(Err(BotError::DatabaseError(d))),
            Ok(n) => r == CapacityStep::Continue(
                CapacityOp { state: CapacityState::AwaitDefault(n), ..op },
                Action::SetDefaultPack(op.user_id, Some(n.id)),
            ),
        },
        (CapacityState::AwaitDefault(n), Event::Stored(res)) => match res {
            Err(d) => r == CapacityStep::Finished(Err(BotError::DatabaseError(d))),
            Ok(()) => r == CapacityStep::Finished(Ok(n)),
        },
        _ => false,
    }
}

impl CapacityOp {
    /// Check if `pack` has reached capacity and handle it by creating a new version
    /// (`check_and_handle_capacity`).
    pub fn start(service: &StickerService, user: &User, pack: &StickerPack) -> (r: CapacityStep)
        requires
            pack.sticker_count >= MAX_STICKERS_PER_PACK ==> !next_version_overflows(pack.version@),
        ensures
            capacity_start(*user, service.bot_username_view(), *pack, r),
    {
        if pack.sticker_count >= MAX_STICKERS_PER_PACK {
            let req = service.next_version_pack_request(user, pack);
            Step::Continue(CapacityOp { user_id: user.id, state: CapacityState::AwaitNewPack }, Action::CreatePack(req))
        } else {
            Step::Finished(Ok(pack.clone()))
        }
    }

    /// Whether this step expects `ev`.
    pub fn accepts(&self, ev: &Event) -> (r: bool)
        ensures
            r == capacity_accepts(*self, *ev),
    {
        match (&self.state, ev) {
            (CapacityState::AwaitNewPack, Event::Created(_)) => true,
            (CapacityState::AwaitDefault(_), Event::Stored(_)) => true,
            _ => false,
        }
    }

    /// Advances the check with the outcome of its last action.
    pub fn step(self, ev: Event) -> (r: CapacityStep)
        requires
            capacity_accepts(self, ev),
        ensures
            capacity_next(self, ev, r),
    {
        let CapacityOp { user_id, state } = self;
        match state {
            CapacityState::AwaitNewPack => match ev {
                Event::Created(Err(d)) => Step::Finished(Err(BotError::DatabaseError(d))),
                Event::Created(Ok(n)) => {
                    let id: i64 = n.id;
                    Step::Continue(CapacityOp { user_id, state: CapacityState::AwaitDefault(n) }, Action::SetDefaultPack(user_id, Some(id)))
                },
                _ => Step::Finished(Err(BotError::PackNotFound)),
            },
            CapacityState::AwaitDefault(n) => match ev {
                Event::Stored(Err(d)) => Step::Finished(Err(BotError::DatabaseError(d))),
                Event::Stored(Ok(())) => Step::Finished(Ok(n)),
                _ => Step::Finished(Err(BotError::PackNotFound)),
            },
        }
    }
}

} // verus!
