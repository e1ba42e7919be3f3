//! Creating a custom-named sticker pack (the `/createpack` operation).
//!
//! 1. The pack name must fit in 64 bytes.
//! 2. The set is created on Telegram with the first sticker.
//! 3. Only after Telegram succeeds is the pack stored, as the user's active
//!    pack, with its count incremented.
//! 4. A set name that is already taken is recovered from Telegram instead.

use vstd::prelude::*;
use vstd::utf8::encode_utf8;
use crate::bot::error::{is_pack_occupied_error_spec, BotError};
use crate::bot::telegram::{create_input_sticker_from_file_id, InputFile, InputSticker, StickerFormat};
use crate::db::schema::{NewStickerPack, StickerPack, User};
use crate::service::effects::{Action, Event, Step};
use crate::service::kang::{is_add_sticker, is_create_set};
use crate::service::naming::{custom_pack_link_spec, generate_custom_pack_link};
use crate::service::sticker::{CreatePackResult, StickerService, MAX_PACK_NAME_LENGTH};
use crate::text::owned;

verus! {

/// Where a custom pack creation stands.
#[derive(Debug)]
pub enum CustomPackState {
    /// Waiting for Telegram to create the set.
    AwaitSet,
    /// Waiting for the recovery of a set whose name was taken.
    AwaitRecovery,
    /// Waiting for Telegram to add the sticker to the recovered pack.
    AwaitRecoveredAdd(StickerPack),
    /// Waiting for the recovered pack's count to be incremented.
    AwaitRecoveredIncrement(StickerPack),
    /// Waiting for the new pack to be stored.
    AwaitCreated,
    /// Waiting for the new pack's count to be incremented.
    AwaitIncrement(StickerPack),
    /// Waiting for the updated pack.
    AwaitReload(StickerPack),
}

/// Creation of a custom pack named `pack_name` at `pack_link`, whose first
/// sticker is `sticker`.
#[derive(Debug)]
pub struct CustomPackOp {
    pub user: User,
    pub pack_name: String,
    pub pack_link: String,
    pub sticker: InputSticker,
    pub state: CustomPackState,
}

/// A step of a custom pack creation.
pub type CustomPackStep = Step<CustomPackOp, CreatePackResult>;

/// The events each state expects.
pub open spec fn custom_accepts(op: CustomPackOp, ev: Event) -> bool {
    match op.state {
        CustomPackState::AwaitSet => ev is Telegram,
        CustomPackState::AwaitRecovery => ev is Recovered,
        CustomPackState::AwaitRecoveredAdd(_) => ev is Telegram,
        CustomPackState::AwaitRecoveredIncrement(_) => ev is Stored,
        CustomPackState::AwaitCreated => ev is Created,
        CustomPackState::AwaitIncrement(_) => ev is Stored,
        CustomPackState::AwaitReload(_) => ev is Pack,
    }
}

/// The first step of a custom pack creation.
pub open spec fn custom_start(
    user: User,
    bot: Seq<char>,
    pack_name: Seq<char>,
    file_id: Seq<char>,
    format: StickerFormat,
    emojis: Seq<char>,
    r: CustomPackStep,
) -> bool {
    if encode_utf8(pack_name).len() as usize > MAX_PACK_NAME_LENGTH {
        r == CustomPackStep::Finished(Err(BotError::PackNameTooLong))
    } else {
        r matches Step::Continue(op, a) && {
            &&& op.user == user
            &&& op.pack_name@ == pack_name
            &&& op.pack_link@ == custom_pack_link_spec(user.telegram_id, pack_name, bot)
            &&& op.sticker.sticker matches InputFile::FileId(id) && id@ == file_id
            &&& op.sticker.format == format
            &&& op.sticker.emoji_list@.len() == 1 && op.sticker.emoji_list@[0]@ == emojis
            &&& op.state == CustomPackState::AwaitSet
            &&& a matches Action::CreateStickerSet { user_id, name, title, sticker }
            &&& user_id == user.telegram_id && name == op.pack_link && title == op.pack_name && sticker@ == op.sticker@
        }
    }
}

/// One step of a custom pack creation.
pub open spec fn custom_next(op: CustomPackOp, ev: Event, r: CustomPackStep) -> bool {
    match (op.state, ev) {
        (CustomPackState::AwaitSet, Event::Telegram(res)) => match res {
            Ok(()) => r matches Step::Continue(op2, Action::CreatePack(req))
                && op2 == (CustomPackOp { state: CustomPackState::AwaitCreated, ..op })
                && req.user_id == op.user.id && req.pack_name == op.pack_name && req.pack_link == op.pack_link
                && req.version@ == "Custom"@,
            Err(e) => if is_pack_occupied_error_spec(e) {
                r matches Step::Continue(op2, Action::RecoverPack { pack_link, pack_name, version })
                    && op2 == (CustomPackOp { state: CustomPackState::AwaitRecovery, ..op })
                    && pack_link == op.pack_link && pack_name == op.pack_name && version@ == "Custom"@
            } else {
                r == CustomPackStep::Finished(Err(e))
            },
        },
        (CustomPackState::AwaitRecovery, Event::Recovered(res)) => match res {
            Err(e) => r == CustomPackStep::Finished(Err(e)),
            Ok(rec) => r matches Step::Continue(op2, a)
                && op2 == (CustomPackOp { state: CustomPackState::AwaitRecoveredAdd(rec), ..op })
                && is_add_sticker(a, op.user.telegram_id, rec.pack_link, op.sticker),
        },
        (CustomPackState::AwaitRecoveredAdd(rec), Event::Telegram(res)) => match res {
            Err(e) => r == CustomPackStep::Finished(Err(e)),
            Ok(()) => r == CustomPackStep::Continue(
                CustomPackOp { state: CustomPackState::AwaitRecoveredIncrement(rec), ..op },
                Action::IncrementStickerCount(rec.id),
            ),
        },
        (CustomPackState::AwaitRecoveredIncrement(rec), Event::Stored(res)) => match res {
            Err(d) => r == CustomPackStep::Finished(Err(BotError::DatabaseError(d))),
            Ok(()) => r == CustomPackStep::Finished(Ok(CreatePackResult { pack: rec })),
        },
        (CustomPackState::AwaitCreated, Event::Created(res)) => match res {
            Err(d) => r == CustomPackStep::Finished(Err(BotError::DatabaseError(d))),
            Ok(p) => r == CustomPackStep::Continue(
                CustomPackOp { state: CustomPackState::AwaitIncrement(p), ..op },
                Action::IncrementStickerCount(p.id),
            ),
        },
        (CustomPackState::AwaitIncrement(p), Event::Stored(res)) => match res {
            Err(d) => r == CustomPackStep::Finished(Err(BotError::DatabaseError(d))),
            Ok(()) => r == CustomPackStep::Continue(
                CustomPackOp { state: CustomPackState::AwaitReload(p), ..op },
                Action::GetPackById(p.id),
            ),
        },
        (CustomPackState::AwaitReload(p), Event::Pack(res)) => match res {
            Err(d) => r == CustomPackStep::Finished(Err(BotError::DatabaseError(d))),
            Ok(Some(u)) => r == CustomPackStep::Finished(Ok(CreatePackResult { pack: u })),
            Ok(None) => r == CustomPackStep::Finished(Ok(CreatePackResult { pack: p })),
        },
        _ => false,
    }
}

/// A custom pack is stored in the database only after Telegram created its
/// set, and the operation succeeds only after the stored (or recovered)
/// pack's count was incremented.
pub proof fn law_custom_pack_stored_after_telegram(op: CustomPackOp, ev: Event, r: CustomPackStep)
    requires
        custom_next(op, ev, r),
    ensures
        r matches Step::Continue(_, Action::CreatePack(_)) ==> op.state == CustomPackState::AwaitSet && ev == Event::Telegram(Ok(())),
        r matches Step::Finished(Ok(_)) ==> op.state is AwaitReload || op.state is AwaitRecoveredIncrement,
        r matches Step::Continue(op2, a) ==> (op2.state matches CustomPackState::AwaitIncrement(p) ==> a == Action::IncrementStickerCount(p.id)),
{
    if let Event::Telegram(Ok(u)) = ev {
        assert(u == ());
    }
}

impl CustomPackOp {
    /// Start creating a custom pack named `pack_name` for `user`, with the
    /// sticker `file_id` (in `format`, with `emojis`) as its first sticker.
    pub fn start(
        service: &StickerService,
        user: User,
        pack_name: &str,
        file_id: &str,
        format: StickerFormat,
        emojis: &str,
    ) -> (r: CustomPackStep)
        ensures
            custom_start(user, service.bot_username_view(), pack_name@, file_id@, format, emojis@, r),
    {
        if pack_name.len() > MAX_PACK_NAME_LENGTH {
            return Step::Finished(Err(BotError::PackNameTooLong));
        }
        let pack_link = generate_custom_pack_link(user.telegram_id, pack_name, service.bot_username());
        let sticker = create_input_sticker_from_file_id(file_id, &format, emojis);
        let name = owned(pack_name);
        let a = Action::CreateStickerSet {
            user_id: user.telegram_id,
            name: pack_link.clone(),
            title: name.clone(),
            sticker: sticker.copy(),
        };
        let op = CustomPackOp { user, pack_name: name, pack_link, sticker, state: CustomPackState::AwaitSet };
        Step::Continue(op, a)
    }

    /// Whether this step expects `ev`.
    pub fn accepts(&self, ev: &Event) -> (r: bool)
        ensures
            r == custom_accepts(*self, *ev),
    {
        match (&self.state, ev) {
            (CustomPackState::AwaitSet, Event::Telegram(_)) => true,
            (CustomPackState::AwaitRecovery, Event::Recovered(_)) => true,
            (CustomPackState::AwaitRecoveredAdd(_), Event::Telegram(_)) => true,
            (CustomPackState::AwaitRecoveredIncrement(_), Event::Stored(_)) => true,
            (CustomPackState::AwaitCreated, Event::Created(_)) => true,
            (CustomPackState::AwaitIncrement(_), Event::Stored(_)) => true,
            (CustomPackState::AwaitReload(_), Event::Pack(_)) => true,
            _ => false,
        }
    }

    /// Advances the operation with the outcome of its last action.
    pub fn step(self, ev: Event) -> (r: CustomPackStep)
        requires
            custom_accepts(self, ev),
        ensures
            custom_next(self, ev, r),
    {
        let CustomPackOp { user, pack_name, pack_link, sticker, state } = self;
        match state {
            CustomPackState::AwaitSet => match ev {
                Event::Telegram(Ok(())) => {
                    let req = NewStickerPack {
                        user_id: user.id,
                        pack_name: pack_name.clone(),
                        pack_link: pack_link.clone(),
                        version: owned("Custom"),
                    };
                    Step::Continue(
                        CustomPackOp { user, pack_name, pack_link, sticker, state: CustomPackState::AwaitCreated },
                        Action::CreatePack(req),
                    )
                },
                Event::Telegram(Err(e)) => {
                    if e.is_pack_occupied_error() {
                        let a = Action::RecoverPack {
                            pack_link: pack_link.clone(),
                            pack_name: pack_name.clone(),
                            version: owned("Custom"),
                        };
                        Step::Continue(
                            CustomPackOp { user, pack_name, pack_link, sticker, state: CustomPackState::AwaitRecovery },
                            a,
                        )
                    } else {
                        Step::Finished(Err(e))
                    }
                },
                _ => Step::Finished(Err(BotError::PackNotFound)),
            },
            CustomPackState::AwaitRecovery => match ev {
                Event::Recovered(Err(e)) => Step::Finished(Err(e)),
                Event::Recovered(Ok(rec)) => {
                    let a = Action::AddStickerToSet {
                        user_id: user.telegram_id,
                        name: rec.pack_link.clone(),
                        sticker: sticker.copy(),
                    };
                    Step::Continue(
                        CustomPackOp { user, pack_name, pack_link, sticker, state: CustomPackState::AwaitRecoveredAdd(rec) },
                        a,
                    )
                },
                _ => Step::Finished(Err(BotError::PackNotFound)),
            },
            CustomPackState::AwaitRecoveredAdd(rec) => match ev {
                Event::Telegram(Ok(())) => {
                    let id: i64 = rec.id;
                    Step::Continue(
                        CustomPackOp { user, pack_name, pack_link, sticker, state: CustomPackState::AwaitRecoveredIncrement(rec) },
                        Action::IncrementStickerCount(id),
                    )
                },
                Event::Telegram(Err(e)) => Step::Finished(Err(e)),
                _ => Step::Finished(Err(BotError::PackNotFound)),
            },
            CustomPackState::AwaitRecoveredIncrement(rec) => match ev {
                Event::Stored(Err(d)) => Step::Finished(Err(BotError::DatabaseError(d))),
                Event::Stored(Ok(())) => Step::Finished(Ok(CreatePackResult { pack: rec })),
                _ => Step::Finished(Err(BotError::PackNotFound)),
            },
            CustomPackState::AwaitCreated => match ev {
                Event::Created(Err(d)) => Step::Finished(Err(BotError::DatabaseError(d))),
                Event::Created(Ok(p)) => {
                    let id: i64 = p.id;
                    Step::Continue(
                        CustomPackOp { user, pack_name, pack_link, sticker, state: CustomPackState::AwaitIncrement(p) },
                        Action::IncrementStickerCount(id),
                    )
                },
                _ => Step::Finished(Err(BotError::PackNotFound)),
            },
            CustomPackState::AwaitIncrement(p) => match ev {
                Event::Stored(Err(d)) => Step::Finished(Err(BotError::DatabaseError(d))),
                Event::Stored(Ok(())) => {
                    let id: i64 = p.id;
                    Step::Continue(
                        CustomPackOp { user, pack_name, pack_link, sticker, state: CustomPackState::AwaitReload(p) },
                        Action::GetPackById(id),
                    )
                },
                _ => Step::Finished(Err(BotError::PackNotFound)),
            },
            CustomPackState::AwaitReload(p) => match ev {
                Event::Pack(Err(d)) => Step::Finished(Err(BotError::DatabaseError(d))),
                Event::Pack(Ok(Some(u))) => Step::Finished(Ok(CreatePackResult { pack: u })),
                Event::Pack(Ok(None)) => Step::Finished(Ok(CreatePackResult { pack: p })),
                _ => Step::Finished(Err(BotError::PackNotFound)),
            },
        }
    }
}

} // verus!
