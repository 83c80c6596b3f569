//! Users as the backend describes them.

use vstd::prelude::*;

verus! {

/// A user's record.
#[derive(Debug, Clone, PartialEq, Eq)]
pub struct UserDetail {
    pub id: i32,
    pub name: String,
    pub email: Option<String>,
    pub phone: Option<String>,
    /// When the user was created, in seconds since the epoch.
    pub create_time: i64,
    /// When the record was last changed, in seconds since the epoch.
    pub update_time: Option<i64>,
    pub status: String,
    /// Whether the user is a friend of the current user.
    pub is_friend: bool,
}

/// A `UserDetail` with its texts as sequences of characters.
pub struct UserDetailView {
    pub id: i32,
    pub name: Seq<char>,
    pub email: Option<Seq<char>>,
    pub phone: Option<Seq<char>>,
    pub create_time: i64,
    pub update_time: Option<i64>,
    pub status: Seq<char>,
    pub is_friend: bool,
}

impl View for UserDetail {
    type V = UserDetailView;

    open spec fn view(&self) -> UserDetailView {
        UserDetailView {
            id: self.id,
            name: self.name@,
            email: self.email.deep_view(),
            phone: self.phone.deep_view(),
            create_time: self.create_time,
            update_time: self.update_time,
            status: self.status@,
            is_friend: self.is_friend,
        }
    }
}

impl DeepView for UserDetail {
    type V = UserDetailView;

    open spec fn deep_view(&self) -> UserDetailView {
        self@
    }
}

} // verus!
