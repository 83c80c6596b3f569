//! Groups and their members.

use vstd::prelude::*;

verus! {

/// A member of a group.
#[derive(Debug, PartialEq, Eq)]
pub struct GroupUser {
    pub id: i32,
    pub name: String,
    pub admin: bool,
    pub forbid: bool,
}

/// A `GroupUser` with its name as a sequence of characters.
pub struct GroupUserView {
    pub id: i32,
    pub name: Seq<char>,
    pub admin: bool,
    pub forbid: bool,
}

impl View for GroupUser {
    type V = GroupUserView;

    open spec fn view(&self) -> GroupUserView {
        GroupUserView { id: self.id, name: self.name@, admin: self.admin, forbid: self.forbid }
    }
}

impl DeepView for GroupUser {
    type V = GroupUserView;

    open spec fn deep_view(&self) -> GroupUserView {
        self@
    }
}

impl Clone for GroupUser {
    fn clone(&self) -> (copy: Self)
        ensures
            copy == *self,
    {
        GroupUser { id: self.id, name: self.name.clone(), admin: self.admin, forbid: self.forbid }
    }
}

/// A group with its roster.
#[derive(Debug, Clone, PartialEq, Eq)]
pub struct DetailRes {
    pub group_id: i32,
    pub name: String,
    pub users: Vec<GroupUser>,
}

/// A `DetailRes` with its texts as sequences of characters.
pub struct DetailResView {
    pub group_id: i32,
    pub name: Seq<char>,
    pub users: Seq<GroupUserView>,
}

impl View for DetailRes {
    type V = DetailResView;

    open spec fn view(&self) -> DetailResView {
        DetailResView { group_id: self.group_id, name: self.name@, users: self.users.deep_view() }
    }
}

impl DetailRes {
    /// The group that nothing is known of yet: id 0, no name, no members.
    pub fn empty() -> (detail: Self)
        ensures
            detail@ == (DetailResView { group_id: 0, name: Seq::empty(), users: Seq::empty() }),
    {
        let detail = DetailRes { group_id: 0, name: String::new(), users: Vec::new() };
        assert(detail.users.deep_view() =~= Seq::<GroupUserView>::empty());
        detail
    }
}

} // verus!
