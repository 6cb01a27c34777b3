use vstd::prelude::*;
use vstd::string::*;

verus! {

/// Whether a stored account may log in.
#[derive(Clone, Copy, Debug, PartialEq, Eq, Structural)]
pub enum AccountStatus {
    Active,
    Disabled,
}

impl AccountStatus {
    /// Reads the status column: exactly the text `active` is an active account,
    /// anything else keeps the account out.
    pub fn from_column(s: &str) -> (r: AccountStatus)
        ensures
            (r == AccountStatus::Active) == (s@ == "active"@),
    {
        let text = s.to_owned();
        let active = String::from_str("active");
        if text == active {
            AccountStatus::Active
        } else {
            AccountStatus::Disabled
        }
    }

    /// The text stored in the status column.
    pub fn column_text(&self) -> (r: String)
        ensures
            *self == AccountStatus::Active ==> r@ == "active"@,
            *self == AccountStatus::Disabled ==> r@ == "disabled"@,
    {
        match self {
            AccountStatus::Active => String::from_str("active"),
            AccountStatus::Disabled => String::from_str("disabled"),
        }
    }

    /// True exactly for an active account.
    pub fn is_active(&self) -> (r: bool)
        ensures
            r == (*self == AccountStatus::Active),
    {
        match self {
            AccountStatus::Active => true,
            AccountStatus::Disabled => false,
        }
    }
}

/// What the provider reports of the user at this login.
#[derive(Clone, Debug, PartialEq, Eq)]
pub struct ProviderProfile {
    /// The provider's stable handle, the key of the local account.
    pub user_name: String,
    pub name: String,
    pub avatar_url: String,
}

/// A locally stored account.
#[derive(Clone, Debug, PartialEq, Eq)]
pub struct LocalUser {
    pub id: i32,
    pub name: String,
    pub user_name: String,
    pub avatar_url: String,
    pub email: String,
    pub status: AccountStatus,
}

/// The row to insert for a first login.
#[derive(Clone, Debug, PartialEq, Eq)]
pub struct NewUser {
    pub user_name: String,
    pub name: String,
    pub avatar_url: String,
    pub email: String,
    pub status: AccountStatus,
}

/// The display fields to write, filtered by handle.
#[derive(Clone, Debug, PartialEq, Eq)]
pub struct DisplayUpdate {
    pub user_name: String,
    pub name: String,
    pub avatar_url: String,
}

/// The part of an account that leaves the service in the redirect.
#[derive(Clone, Debug, PartialEq, Eq)]
pub struct PublicUser {
    pub id: i32,
    pub name: String,
    pub user_name: String,
    pub avatar_url: String,
}

/// The stored display fields differ from the provider's on name or avatar.
pub open spec fn is_stale(stored: LocalUser, profile: ProviderProfile) -> bool {
    stored.name@ != profile.name@ || stored.avatar_url@ != profile.avatar_url@
}

/// The row a first login inserts: an active account with the provider's fields.
pub open spec fn new_user_of(profile: ProviderProfile, email: String) -> NewUser {
    NewUser {
        user_name: profile.user_name,
        name: profile.name,
        avatar_url: profile.avatar_url,
        email,
        status: AccountStatus::Active,
    }
}

/// The write that brings a stale account up to date: both fields, always together.
pub open spec fn display_update_of(profile: ProviderProfile) -> DisplayUpdate {
    DisplayUpdate { user_name: profile.user_name, name: profile.name, avatar_url: profile.avatar_url }
}

impl LocalUser {
    /// Whether this login has to refresh the stored display fields.
    pub fn is_stale_for(&self, profile: &ProviderProfile) -> (r: bool)
        ensures
            r == is_stale(*self, *profile),
    {
        !(self.name == profile.name) || !(self.avatar_url == profile.avatar_url)
    }

    /// The identifying and display fields, without email or status.
    pub fn public(&self) -> (r: PublicUser)
        ensures
            r.id == self.id,
            r.name@ == self.name@,
            r.user_name@ == self.user_name@,
            r.avatar_url@ == self.avatar_url@,
    {
        PublicUser {
            id: self.id,
            name: self.name.clone(),
            user_name: self.user_name.clone(),
            avatar_url: self.avatar_url.clone(),
        }
    }
}

impl ProviderProfile {
    /// A field-by-field copy.
    pub fn duplicate(&self) -> (r: ProviderProfile)
        ensures
            r == *self,
    {
        ProviderProfile {
            user_name: self.user_name.clone(),
            name: self.name.clone(),
            avatar_url: self.avatar_url.clone(),
        }
    }

    /// The row that a first login inserts.
    pub fn new_user(self, email: String) -> (r: NewUser)
        ensures
            r == new_user_of(self, email),
    {
        NewUser {
            user_name: self.user_name,
            name: self.name,
            avatar_url: self.avatar_url,
            email,
            status: AccountStatus::Active,
        }
    }

    /// The write that refreshes a stale account.
    pub fn display_update(self) -> (r: DisplayUpdate)
        ensures
            r == display_update_of(self),
    {
        DisplayUpdate { user_name: self.user_name, name: self.name, avatar_url: self.avatar_url }
    }
}

} // verus!
