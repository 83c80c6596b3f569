//! The events that flow through the dispatch queue.

use crate::components::contact::ToChat;
use crate::components::contact::ToChatView;
use crate::components::group_manager::ManageAction;
use vstd::prelude::*;

verus! {

/// What happens if the user confirms an alert.
#[derive(Debug, Clone, Copy, PartialEq, Eq)]
pub enum ConfirmEvent {
    /// Invite the selected friend into the group.
    InviteFriend,
    /// Manage a group member; `None` until the user has picked the action.
    GroupManage(Option<ManageAction>),
    /// Ask the user with this id to become a friend.
    AddFriend(i32),
    /// Decide a friend request: accept, reject, or undecided.
    ConfirmFriendReq(Option<bool>),
}

/// A typed event. Screens receive every action and may answer with one more.
#[derive(Debug, PartialEq, Eq)]
pub enum Action {
    Tick,
    Render,
    Resize(u16, u16),
    Suspend,
    Resume,
    Quit,
    ClearScreen,
    Error(String),
    Help,
    Alert(String, Option<ConfirmEvent>),
    Submit,
    LoginSuccess,
    Confirm(ConfirmEvent),
    NextTab,
    Register,
    Group(i32),
    ToChat(ToChat),
}

/// An `Action` with its texts as sequences of characters.
pub enum ActionView {
    Tick,
    Render,
    Resize(u16, u16),
    Suspend,
    Resume,
    Quit,
    ClearScreen,
    Error(Seq<char>),
    Help,
    Alert(Seq<char>, Option<ConfirmEvent>),
    Submit,
    LoginSuccess,
    Confirm(ConfirmEvent),
    NextTab,
    Register,
    Group(i32),
    ToChat(ToChatView),
}

impl View for Action {
    type V = ActionView;

    open spec fn view(&self) -> ActionView {
        match self {
            Action::Tick => ActionView::Tick,
            Action::Render => ActionView::Render,
            Action::Resize(w, h) => ActionView::Resize(*w, *h),
            Action::Suspend => ActionView::Suspend,
            Action::Resume => ActionView::Resume,
            Action::Quit => ActionView::Quit,
            Action::ClearScreen => ActionView::ClearScreen,
            Action::Error(msg) => ActionView::Error(msg@),
            Action::Help => ActionView::Help,
            Action::Alert(msg, confirm) => ActionView::Alert(msg@, *confirm),
            Action::Submit => ActionView::Submit,
            Action::LoginSuccess => ActionView::LoginSuccess,
            Action::Confirm(event) => ActionView::Confirm(*event),
            Action::NextTab => ActionView::NextTab,
            Action::Register => ActionView::Register,
            Action::Group(gid) => ActionView::Group(*gid),
            Action::ToChat(to_chat) => ActionView::ToChat(to_chat@),
        }
    }
}

impl DeepView for Action {
    type V = ActionView;

    open spec fn deep_view(&self) -> ActionView {
        self@
    }
}

impl Clone for Action {
    fn clone(&self) -> (copy: Self)
        ensures
            copy == *self,
    {
        match self {
            Action::Tick => Action::Tick,
            Action::Render => Action::Render,
            Action::Resize(w, h) => Action::Resize(*w, *h),
            Action::Suspend => Action::Suspend,
            Action::Resume => Action::Resume,
            Action::Quit => Action::Quit,
            Action::ClearScreen => Action::ClearScreen,
            Action::Error(msg) => Action::Error(msg.clone()),
            Action::Help => Action::Help,
            Action::Alert(msg, confirm) => Action::Alert(msg.clone(), *confirm),
            Action::Submit => Action::Submit,
            Action::LoginSuccess => Action::LoginSuccess,
            Action::Confirm(event) => Action::Confirm(*event),
            Action::NextTab => Action::NextTab,
            Action::Register => Action::Register,
            Action::Group(gid) => Action::Group(*gid),
            Action::ToChat(to_chat) => Action::ToChat(to_chat.clone()),
        }
    }
}

} // verus!
