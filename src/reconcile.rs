use vstd::prelude::*;

use crate::account::{
    display_update_of, is_stale, new_user_of, AccountStatus, DisplayUpdate, LocalUser, NewUser,
    ProviderProfile,
};

verus! {

/// Why a login callback failed.
#[derive(Clone, Debug, PartialEq, Eq)]
pub enum CallbackError {
    /// The provider's code exchange, profile or email call failed.
    Upstream(String),
    /// The account exists but is not active; it is handed back for the audit log.
    Unauthorized(LocalUser),
    /// The store failed for a reason other than a lost creation race.
    Persistence(String),
    /// An insert reported a uniqueness conflict, yet the row was not there
    /// when read back: a store failure too.
    ConflictUnresolved,
    /// The redirect payload could not be built.
    Serialization(String),
}

/// How an insert of a new account ended badly.
#[derive(Clone, Debug, PartialEq, Eq)]
pub enum InsertError {
    /// Another login created the same handle first.
    Conflict,
    /// Any other store failure.
    Failed(String),
}

/// The outcome of the outside work that the last action asked for.
#[derive(Debug)]
pub enum Event {
    TokenIssued(Result<String, String>),
    ProfileFetched(Result<ProviderProfile, String>),
    UserFound(Result<Option<LocalUser>, String>),
    EmailFetched(Result<String, String>),
    UserInserted(Result<LocalUser, InsertError>),
    UserUpdated(Result<LocalUser, String>),
}

/// What the caller has to do next.
#[derive(Clone, Debug, PartialEq, Eq)]
pub enum Action {
    /// Exchange the authorization code for an access token.
    ExchangeCode(String),
    /// Fetch the provider profile with the access token.
    FetchProfile(String),
    /// Look the account up by handle.
    FindUser(String),
    /// Fetch the verified email with the access token.
    FetchEmail(String),
    /// Insert a new account; a uniqueness conflict is reported as such.
    InsertUser(NewUser),
    /// Write both display fields of the account with the given handle.
    UpdateUser(DisplayUpdate),
    /// The login succeeded: the canonical account and the access token.
    Finish(LocalUser, String),
    /// The login failed.
    Fail(CallbackError),
    /// The event did not answer the pending step and was dropped.
    Ignore,
}

/// Where one login callback stands.
#[derive(Debug)]
pub enum Login {
    AwaitToken,
    AwaitProfile { token: String },
    AwaitLookup { token: String, profile: ProviderProfile, after_conflict: bool },
    AwaitEmail { token: String, profile: ProviderProfile },
    AwaitInsert { token: String, profile: ProviderProfile },
    AwaitUpdate { token: String },
    Done,
    Failed,
}

/// The decision on a looked-up account that exists.
pub open spec fn on_found(token: String, profile: ProviderProfile, user: LocalUser) -> (Login, Action) {
    if user.status != AccountStatus::Active {
        (Login::Failed, Action::Fail(CallbackError::Unauthorized(user)))
    } else if is_stale(user, profile) {
        (Login::AwaitUpdate { token }, Action::UpdateUser(display_update_of(profile)))
    } else {
        (Login::Done, Action::Finish(user, token))
    }
}

/// One step of a login: the state after the event, and the next action.
pub open spec fn transition(s: Login, e: Event) -> (Login, Action) {
    match (s, e) {
        (Login::AwaitToken, Event::TokenIssued(r)) => match r {
            Ok(token) => (Login::AwaitProfile { token }, Action::FetchProfile(token)),
            Err(m) => (Login::Failed, Action::Fail(CallbackError::Upstream(m))),
        },
        (Login::AwaitProfile { token }, Event::ProfileFetched(r)) => match r {
            Ok(profile) => (
                Login::AwaitLookup { token, profile, after_conflict: false },
                Action::FindUser(profile.user_name),
            ),
            Err(m) => (Login::Failed, Action::Fail(CallbackError::Upstream(m))),
        },
        (Login::AwaitLookup { token, profile, after_conflict }, Event::UserFound(r)) => match r {
            Ok(Some(user)) => on_found(token, profile, user),
            Ok(None) => if after_conflict {
                (Login::Failed, Action::Fail(CallbackError::ConflictUnresolved))
            } else {
                (Login::AwaitEmail { token, profile }, Action::FetchEmail(token))
            },
            Err(m) => (Login::Failed, Action::Fail(CallbackError::Persistence(m))),
        },
        (Login::AwaitEmail { token, profile }, Event::EmailFetched(r)) => match r {
            Ok(email) => (
                Login::AwaitInsert { token, profile },
                Action::InsertUser(new_user_of(profile, email)),
            ),
            Err(m) => (Login::Failed, Action::Fail(CallbackError::Upstream(m))),
        },
        (Login::AwaitInsert { token, profile }, Event::UserInserted(r)) => match r {
            Ok(user) => (Login::Done, Action::Finish(user, token)),
            // the creation race was lost: read the row that won it
            Err(InsertError::Conflict) => (
                Login::AwaitLookup { token, profile, after_conflict: true },
                Action::FindUser(profile.user_name),
            ),
            Err(InsertError::Failed(m)) => (Login::Failed, Action::Fail(CallbackError::Persistence(m))),
        },
        (Login::AwaitUpdate { token }, Event::UserUpdated(r)) => match r {
            Ok(user) => (Login::Done, Action::Finish(user, token)),
            Err(m) => (Login::Failed, Action::Fail(CallbackError::Persistence(m))),
        },
        (s, _) => (s, Action::Ignore),
    }
}

impl Login {
    /// The first step of a login callback: exchange the code.
    pub fn begin(code: String) -> (r: (Login, Action))
        ensures
            r == (Login::AwaitToken, Action::ExchangeCode(code)),
    {
        (Login::AwaitToken, Action::ExchangeCode(code))
    }

    /// Whether the callback has ended, in success or failure.
    pub fn is_finished(&self) -> (r: bool)
        ensures
            r == (*self is Done || *self is Failed),
    {
        match self {
            Login::Done | Login::Failed => true,
            _ => false,
        }
    }

    /// Feeds the outcome of the pending action and decides the next one.
    pub fn step(self, e: Event) -> (r: (Login, Action))
        ensures
            r == transition(self, e),
    {
        match (self, e) {
            (Login::AwaitToken, Event::TokenIssued(r)) => match r {
                Ok(token) => {
                    let t = token.clone();
                    (Login::AwaitProfile { token }, Action::FetchProfile(t))
                },
                Err(m) => (Login::Failed, Action::Fail(CallbackError::Upstream(m))),
            },
            (Login::AwaitProfile { token }, Event::ProfileFetched(r)) => match r {
                Ok(profile) => {
                    let handle = profile.user_name.clone();
                    (
                        Login::AwaitLookup { token, profile, after_conflict: false },
                        Action::FindUser(handle),
                    )
                },
                Err(m) => (Login::Failed, Action::Fail(CallbackError::Upstream(m))),
            },
            (Login::AwaitLookup { token, profile, after_conflict }, Event::UserFound(r)) => match r {
                Ok(Some(user)) => decide_found(token, profile, user),
                Ok(None) => if after_conflict {
                    (Login::Failed, Action::Fail(CallbackError::ConflictUnresolved))
                } else {
                    let t = token.clone();
                    (Login::AwaitEmail { token, profile }, Action::FetchEmail(t))
                },
                Err(m) => (Login::Failed, Action::Fail(CallbackError::Persistence(m))),
            },
            (Login::AwaitEmail { token, profile }, Event::EmailFetched(r)) => match r {
                Ok(email) => {
                    let row = profile.duplicate().new_user(email);
                    (Login::AwaitInsert { token, profile }, Action::InsertUser(row))
                },
                Err(m) => (Login::Failed, Action::Fail(CallbackError::Upstream(m))),
            },
            (Login::AwaitInsert { token, profile }, Event::UserInserted(r)) => match r {
                Ok(user) => (Login::Done, Action::Finish(user, token)),
                Err(InsertError::Conflict) => {
                    let handle = profile.user_name.clone();
                    (
                        Login::AwaitLookup { token, profile, after_conflict: true },
                        Action::FindUser(handle),
                    )
                },
                Err(InsertError::Failed(m)) => (
                    Login::Failed,
                    Action::Fail(CallbackError::Persistence(m)),
                ),
            },
            (Login::AwaitUpdate { token }, Event::UserUpdated(r)) => match r {
                Ok(user) => (Login::Done, Action::Finish(user, token)),
                Err(m) => (Login::Failed, Action::Fail(CallbackError::Persistence(m))),
            },
            (s, _) => (s, Action::Ignore),
        }
    }
}

/// The authorization gate and the staleness check on an existing account.
fn decide_found(token: String, profile: ProviderProfile, user: LocalUser) -> (r: (Login, Action))
    ensures
        r == on_found(token, profile, user),
{
    if !user.status.is_active() {
        (Login::Failed, Action::Fail(CallbackError::Unauthorized(user)))
    } else if user.is_stale_for(&profile) {
        (Login::AwaitUpdate { token }, Action::UpdateUser(profile.display_update()))
    } else {
        (Login::Done, Action::Finish(user, token))
    }
}

} // verus!
