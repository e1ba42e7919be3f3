//! User management logic: getting a user by Telegram id, creating the user
//! on first contact.

use vstd::prelude::*;
use crate::bot::error::RepositoryError;
use crate::db::schema::{NewUser, User};

verus! {

/// Outside work of a user lookup.
#[derive(Debug)]
pub enum UserAction {
    /// Look up a user by Telegram id (`UserRepository::get_by_telegram_id`).
    GetByTelegramId(i64),
    /// Insert a user (`UserRepository::create`).
    Create(NewUser),
}

/// The outcome of a [`UserAction`].
#[derive(Debug)]
pub enum UserEvent {
    Found(Result<Option<User>, RepositoryError>),
    Created(Result<User, RepositoryError>),
}

/// Where a get-or-create stands.
#[derive(Debug)]
pub enum GetOrCreateState {
    AwaitLookup,
    AwaitCreate,
}

/// Getting a user by Telegram id, creating the user when there is none
/// (`UserService::get_or_create`).
#[derive(Debug)]
pub struct GetOrCreateUser {
    pub telegram_id: i64,
    pub username: Option<String>,
    pub state: GetOrCreateState,
}

/// What a step of a get-or-create gives.
#[derive(Debug)]
pub enum UserStep {
    Continue(GetOrCreateUser, UserAction),
    Finished(Result<User, RepositoryError>),
}

/// The events each state expects.
pub open spec fn user_accepts(op: GetOrCreateUser, ev: UserEvent) -> bool {
    match op.state {
        GetOrCreateState::AwaitLookup => ev is Found,
        GetOrCreateState::AwaitCreate => ev is Created,
    }
}

/// One step of a get-or-create: an existing user is the result; otherwise a
/// user with the Telegram id and username is created.
pub open spec fn user_next(op: GetOrCreateUser, ev: UserEvent, r: UserStep) -> bool {
    match (op.state, ev) {
        (GetOrCreateState::AwaitLookup, UserEvent::Found(res)) => match res {
            Err(e) => r == UserStep::Finished(Err(e)),
            Ok(Some(u)) => r == UserStep::Finished(Ok(u)),
            Ok(None) => r == UserStep::Continue(
                GetOrCreateUser { state: GetOrCreateState::AwaitCreate, ..op },
                UserAction::Create(NewUser { telegram_id: op.telegram_id, username: op.username }),
            ),
        },
        (GetOrCreateState::AwaitCreate, UserEvent::Created(res)) => r == UserStep::Finished(res),
        _ => false,
    }
}

impl GetOrCreateUser {
    /// Start getting (or creating) the user with this Telegram id.
    pub fn start(telegram_id: i64, username: Option<String>) -> (r: (GetOrCreateUser, UserAction))
        ensures
            r.0 == (GetOrCreateUser { telegram_id, username, state: GetOrCreateState::AwaitLookup }),
            r.1 == UserAction::GetByTelegramId(telegram_id),
    {
        (GetOrCreateUser { telegram_id, username, state: GetOrCreateState::AwaitLookup }, UserAction::GetByTelegramId(telegram_id))
    }

    /// Whether this step expects `ev`.
    pub fn accepts(&self, ev: &UserEvent) -> (r: bool)
        ensures
            r == user_accepts(*self, *ev),
    {
        match (&self.state, ev) {
            (GetOrCreateState::AwaitLookup, UserEvent::Found(_)) => true,
            (GetOrCreateState::AwaitCreate, UserEvent::Created(_)) => true,
            _ => false,
        }
    }

    /// Advances the lookup with the outcome of its last action.
    pub fn step(self, ev: UserEvent) -> (r: UserStep)
        requires
            user_accepts(self, ev),
        ensures
            user_next(self, ev, r),
    {
        let GetOrCreateUser { telegram_id, username, state } = self;
        match state {
            GetOrCreateState::AwaitLookup => match ev {
                UserEvent::Found(Err(e)) => UserStep::Finished(Err(e)),
                UserEvent::Found(Ok(Some(u))) => UserStep::Finished(Ok(u)),
                _ => {
                    let name = crate::db::schema::clone_opt_string(&username);
                    UserStep::Continue(
                        GetOrCreateUser { telegram_id, username, state: GetOrCreateState::AwaitCreate },
                        UserAction::Create(NewUser { telegram_id, username: name }),
                    )
                },
            },
            GetOrCreateState::AwaitCreate => match ev {
                UserEvent::Created(res) => UserStep::Finished(res),
                _ => UserStep::Finished(Err(RepositoryError::NotFound)),
            },
        }
    }
}

} // verus!
