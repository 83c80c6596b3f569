//! The authenticated user and the token that the backend issued.

use vstd::prelude::*;

verus! {

/// What a user may do.
#[derive(Debug, Clone, Copy, PartialEq, Eq, Hash, Structural)]
pub enum Role {
    User,
    Admin,
}

/// The claims that a token carries.
#[derive(Debug, PartialEq, Eq)]
pub struct User {
    pub id: i32,
    pub name: String,
    pub email: Option<String>,
    pub phone: Option<String>,
    pub role: Role,
    /// When the token expires, in seconds since the epoch.
    pub exp: i64,
}

/// A `User` with its texts as sequences of characters.
pub struct UserView {
    pub id: i32,
    pub name: Seq<char>,
    pub email: Option<Seq<char>>,
    pub phone: Option<Seq<char>>,
    pub role: Role,
    pub exp: i64,
}

impl View for User {
    type V = UserView;

    open spec fn view(&self) -> UserView {
        UserView {
            id: self.id,
            name: self.name@,
            email: self.email.deep_view(),
            phone: self.phone.deep_view(),
            role: self.role,
            exp: self.exp,
        }
    }
}

impl DeepView for User {
    type V = UserView;

    open spec fn deep_view(&self) -> UserView {
        self@
    }
}

impl Clone for User {
    fn clone(&self) -> (copy: Self)
        ensures
            copy == *self,
    {
        User {
            id: self.id,
            name: self.name.clone(),
            email: self.email.clone(),
            phone: self.phone.clone(),
            role: self.role,
            exp: self.exp,
        }
    }
}

impl Default for User {
    fn default() -> (user: Self)
        ensures
            user@ == (UserView {
                id: 0,
                name: Seq::empty(),
                email: None,
                phone: None,
                role: Role::User,
                exp: 0,
            }),
    {
        User { id: 0, name: String::new(), email: None, phone: None, role: Role::User, exp: 0 }
    }
}

/// Who is logged in, if anybody, and with which token.
#[derive(Debug, PartialEq, Eq)]
pub struct CurrentUser {
    pub user: Option<User>,
    pub token: Option<String>,
}

/// A `CurrentUser` with its texts as sequences of characters.
pub struct CurrentUserView {
    pub user: Option<UserView>,
    pub token: Option<Seq<char>>,
}

impl View for CurrentUser {
    type V = CurrentUserView;

    open spec fn view(&self) -> CurrentUserView {
        CurrentUserView { user: self.user.deep_view(), token: self.token.deep_view() }
    }
}

impl Clone for CurrentUser {
    fn clone(&self) -> (copy: Self)
        ensures
            copy == *self,
    {
        CurrentUser { user: self.user.clone(), token: self.token.clone() }
    }
}

impl CurrentUser {
    /// Nobody is logged in.
    pub fn new() -> (current: Self)
        ensures
            current.user is None,
            current.token is None,
    {
        CurrentUser { user: None, token: None }
    }

    /// The id of the user who is logged in.
    pub fn id(&self) -> (id: Option<i32>)
        ensures
            id == self.spec_id(),
    {
        match &self.user {
            Some(user) => Some(user.id),
            None => None,
        }
    }

    /// The id of the user who is logged in.
    pub open spec fn spec_id(&self) -> Option<i32> {
        match self.user {
            Some(user) => Some(user.id),
            None => None,
        }
    }
}

/// How many seconds pass between two renewals of the token.
pub const RENEWAL_PERIOD_SECONDS: u64 = 60;

/// What the renewal of the token does next.
#[derive(Debug, Clone, PartialEq, Eq)]
pub enum Renewal {
    /// It ends.
    Stop,
    /// It asks the backend for a successor of this token.
    Renew(String),
}

/// A `Renewal` with its token as a sequence of characters.
pub enum RenewalView {
    Stop,
    Renew(Seq<char>),
}

impl View for Renewal {
    type V = RenewalView;

    open spec fn view(&self) -> RenewalView {
        match self {
            Renewal::Stop => RenewalView::Stop,
            Renewal::Renew(token) => RenewalView::Renew(token@),
        }
    }
}

/// Holds the current user.
#[derive(Debug, PartialEq, Eq)]
pub struct CurrentUserHolder {
    pub user: CurrentUser,
}

/// Exclusive handle on the current user. Whoever holds `&mut CurrentUserLock`
/// holds the lock.
#[derive(Debug, PartialEq, Eq)]
pub struct CurrentUserLock(pub CurrentUserHolder);

impl CurrentUserLock {
    /// The user and token held.
    pub open spec fn current(&self) -> CurrentUser {
        self.0.user
    }

    /// A handle with nobody logged in.
    pub fn new() -> (lock: Self)
        ensures
            lock.current().user is None,
            lock.current().token is None,
    {
        CurrentUserLock(CurrentUserHolder { user: CurrentUser::new() })
    }

    /// A copy of the user and token held.
    pub fn get_user(&self) -> (current: CurrentUser)
        ensures
            current == self.current(),
    {
        self.0.user.clone()
    }

    /// Replaces the user and the token.
    pub fn set_user(&mut self, user: Option<User>, token: Option<String>)
        ensures
            final(self).current() == (CurrentUser { user, token }),
    {
        self.0.user = CurrentUser { user, token };
    }

    /// What the renewal does when its period has passed: it renews the
    /// token held, and ends where none is held.
    pub fn renewal_due(&self) -> (next: Renewal)
        ensures
            next@ == match self.current()@.token {
                Some(token) => RenewalView::Renew(token),
                None => RenewalView::Stop,
            },
    {
        match &self.0.user.token {
            Some(token) => Renewal::Renew(token.clone()),
            None => Renewal::Stop,
        }
    }

    /// Takes what a renewal gave: the claims of the new token and the token
    /// itself replace those held, and the renewal goes on. A renewal that
    /// gave no valid token changes nothing and ends the renewal.
    pub fn renewed(&mut self, outcome: Option<(User, String)>) -> (go_on: bool)
        ensures
            go_on == outcome is Some,
            final(self).current()@ == match outcome {
                Some(pair) => CurrentUserView { user: Some(pair.0@), token: Some(pair.1@) },
                None => old(self).current()@,
            },
    {
        match outcome {
            Some((claims, token)) => {
                self.set_user(Some(claims), Some(token));
                true
            },
            None => false,
        }
    }
}

} // verus!
