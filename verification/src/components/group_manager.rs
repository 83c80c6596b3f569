//! Group roster management: viewing members, inviting friends, and the
//! management actions that an admin may take on a member.

use crate::action::Action;
use crate::action::ActionView;
use crate::action::ConfirmEvent;
use crate::app::Mode;
use crate::app::ModeHolderLock;
use crate::components::area_util::Rect;
use crate::components::contact::selected_in;
use crate::components::list_state::new_list_state;
use crate::components::list_state::next_index;
use crate::components::list_state::previous_index;
use crate::components::list_state::select;
use crate::components::list_state::select_next;
use crate::components::list_state::select_previous;
use crate::components::list_state::selected;
use crate::components::list_state::selected_of;
use crate::components::user_input::InputData;
use crate::components::user_input::InputDataView;
use crate::components::user_input::UserInput;
use crate::components::user_input::UserInputView;
use crate::key::KeyCode;
use crate::key::KeyEvent;
use crate::proxy::friend::Friend;
use crate::proxy::friend::FriendView;
use crate::proxy::group::DetailRes;
use crate::proxy::group::DetailResView;
use crate::proxy::group::GroupUserView;
use crate::proxy::Request;
use crate::proxy::RequestView;
use crate::proxy::Response;
use crate::proxy::ResponseView;
use crate::proxy::Turn;
use crate::proxy::TurnView;
use crate::text::contains;
use crate::text::spec_contains;
use crate::token::CurrentUser;
use ratatui::widgets::ListState;
use vstd::prelude::*;
use vstd::string::StringExecFns;

verus! {

/// What an admin may do to a member of a group.
#[derive(Debug, Clone, Copy, PartialEq, Eq, Hash, Structural)]
pub enum ManageAction {
    Evict,
    Forbid,
    UnForbid,
    SetManager,
}

/// How many management actions there are.
pub const MANAGE_ACTION_COUNT: usize = 4;

impl ManageAction {
    /// The position of the action in the management menu.
    pub open spec fn index(self) -> nat {
        match self {
            ManageAction::Evict => 0,
            ManageAction::Forbid => 1,
            ManageAction::UnForbid => 2,
            ManageAction::SetManager => 3,
        }
    }

    /// The action at position `repr` of the management menu, if there is one.
    pub open spec fn spec_from_repr(repr: nat) -> Option<ManageAction> {
        if repr == 0 {
            Some(ManageAction::Evict)
        } else if repr == 1 {
            Some(ManageAction::Forbid)
        } else if repr == 2 {
            Some(ManageAction::UnForbid)
        } else if repr == 3 {
            Some(ManageAction::SetManager)
        } else {
            None
        }
    }

    /// The text of the action's menu entry.
    pub open spec fn spec_label(self) -> Seq<char> {
        match self {
            ManageAction::Evict => "移出群聊"@,
            ManageAction::Forbid => "禁言🤐"@,
            ManageAction::UnForbid => "解除禁言😄"@,
            ManageAction::SetManager => "设为管理员"@,
        }
    }

    /// The action at position `repr` of the management menu: `None` from 4 on.
    pub fn from_repr(repr: usize) -> (action: Option<ManageAction>)
        ensures
            action == Self::spec_from_repr(repr as nat),
    {
        if repr == 0 {
            Some(ManageAction::Evict)
        } else if repr == 1 {
            Some(ManageAction::Forbid)
        } else if repr == 2 {
            Some(ManageAction::UnForbid)
        } else if repr == 3 {
            Some(ManageAction::SetManager)
        } else {
            None
        }
    }

    /// The position of the action in the management menu.
    pub fn repr(self) -> (repr: usize)
        ensures
            repr == self.index(),
            Self::spec_from_repr(repr as nat) == Some(self),
    {
        match self {
            ManageAction::Evict => 0,
            ManageAction::Forbid => 1,
            ManageAction::UnForbid => 2,
            ManageAction::SetManager => 3,
        }
    }

    /// All actions, in menu order.
    pub fn all() -> (actions: Vec<ManageAction>)
        ensures
            actions@.len() == MANAGE_ACTION_COUNT,
            forall|i: int| 0 <= i < 4 ==> Self::spec_from_repr(i as nat) == Some(#[trigger] actions@[i]),
    {
        let mut actions: Vec<ManageAction> = Vec::new();
        actions.push(ManageAction::Evict);
        actions.push(ManageAction::Forbid);
        actions.push(ManageAction::UnForbid);
        actions.push(ManageAction::SetManager);
        actions
    }

    /// The text of the action's menu entry.
    pub fn label(self) -> (text: String)
        ensures
            text@ == self.spec_label(),
    {
        match self {
            ManageAction::Evict => String::from_str("移出群聊"),
            ManageAction::Forbid => String::from_str("禁言🤐"),
            ManageAction::UnForbid => String::from_str("解除禁言😄"),
            ManageAction::SetManager => String::from_str("设为管理员"),
        }
    }
}


/// Which part of the screen has the keys.
#[derive(Debug, Clone, Copy, PartialEq, Eq, Hash, Structural)]
pub enum State {
    /// The roster of the group.
    GroupDetail,
    /// The friends that may be invited, and the field that filters them.
    InviteFriend,
}

/// What the screen waits for.
#[derive(Debug, Clone, Copy, PartialEq, Eq, Hash, Structural)]
pub enum Pending {
    /// Nothing.
    Idle,
    /// The friends.
    Friends,
    /// The invitation to be sent.
    Invite,
    /// The management action to be carried out.
    Manage,
    /// The group with its roster.
    Detail,
}

/// The group manager.
#[derive(Debug, PartialEq, Eq)]
pub struct GroupManager {
    /// The field that filters the friends.
    pub user_input: UserInput,
    /// The group that is managed, once one was opened.
    pub gid: Option<i32>,
    pub detail: DetailRes,
    pub friends: Vec<Friend>,
    pub state: State,
    pub group_members_list_state: ListState,
    pub friends_list_state: ListState,
    pub pending: Pending,
}

/// A `GroupManager` with its lists as sequences and its selections as
/// indices.
pub struct GroupManagerView {
    pub user_input: UserInputView,
    pub gid: Option<i32>,
    pub detail: DetailResView,
    pub friends: Seq<FriendView>,
    pub state: State,
    pub member_selected: Option<usize>,
    pub friend_selected: Option<usize>,
    pub pending: Pending,
}

impl View for GroupManager {
    type V = GroupManagerView;

    open spec fn view(&self) -> GroupManagerView {
        GroupManagerView {
            user_input: self.user_input@,
            gid: self.gid,
            detail: self.detail@,
            friends: self.friends.deep_view(),
            state: self.state,
            member_selected: selected_of(self.group_members_list_state),
            friend_selected: selected_of(self.friends_list_state),
            pending: self.pending,
        }
    }
}

/// What a key press or an action leaves behind: the manager, the mode, and
/// how the turn ended.
pub struct GroupManagerStep {
    pub manager: GroupManagerView,
    pub mode: Mode,
    pub turn: TurnView,
}

/// The label of the field that filters the friends.
pub open spec fn invite_label() -> Seq<char> {
    "Press e To Invite Friend To Join Group"@
}

/// What the alert says to a user who is no admin of the group.
pub open spec fn not_admin_msg() -> Seq<char> {
    "您不是管理员，无法操作"@
}

/// What the alert asks before the menu of management actions for `name`.
pub open spec fn manage_question(name: Seq<char>) -> Seq<char> {
    "你希望将"@ + name + ":"@
}

/// What the alert asks before `name` is invited.
pub open spec fn invite_question(name: Seq<char>) -> Seq<char> {
    "确定邀请"@ + name + "入群么？"@
}

/// Whether the user of id `uid` is an admin among `users`.
pub open spec fn is_admin(users: Seq<GroupUserView>, uid: i32) -> bool {
    exists|i: int| 0 <= i < users.len() && (#[trigger] users[i]).admin && users[i].id == uid
}

/// Whether a friend passes the filter: every friend passes where nothing
/// was typed, and else those whose name holds what was typed.
pub open spec fn passes(friend: FriendView, query: Option<Seq<char>>) -> bool {
    match query {
        Some(typed) => spec_contains(friend.name, typed),
        None => true,
    }
}

/// The friends that pass the filter, in their order.
pub open spec fn filtered(friends: Seq<FriendView>, query: Option<Seq<char>>) -> Seq<FriendView> {
    friends.filter(|friend: FriendView| passes(friend, query))
}

impl GroupManagerView {
    /// The manager before a group was opened.
    pub open spec fn fresh() -> GroupManagerView {
        GroupManagerView {
            user_input: UserInputView::fresh(
                InputDataView::Search { label: Some(invite_label()), data: None },
            ),
            gid: None,
            detail: DetailResView { group_id: 0, name: Seq::empty(), users: Seq::empty() },
            friends: Seq::empty(),
            state: State::GroupDetail,
            member_selected: None,
            friend_selected: None,
            pending: Pending::Idle,
        }
    }

    /// The manager switched from the roster to the friends, or back. The
    /// field edits while the friends have the keys.
    pub open spec fn next_state(self) -> GroupManagerView {
        match self.state {
            State::GroupDetail => GroupManagerView {
                state: State::InviteFriend,
                user_input: UserInputView { is_editing: true, ..self.user_input },
                ..self
            },
            State::InviteFriend => GroupManagerView {
                state: State::GroupDetail,
                user_input: UserInputView { is_editing: false, ..self.user_input },
                ..self
            },
        }
    }

    /// The manager with `user_input` as its field.
    pub open spec fn with_input(self, user_input: UserInputView) -> GroupManagerView {
        GroupManagerView { user_input, ..self }
    }

    /// The manager with `pending` as what it waits for.
    pub open spec fn waiting_for(self, pending: Pending) -> GroupManagerView {
        GroupManagerView { pending, ..self }
    }

    /// The friends shown: those that pass the filter typed so far.
    pub open spec fn shown_friends(self) -> Seq<FriendView> {
        filtered(self.friends, self.user_input.input)
    }

    /// The friend that the selection points at among the friends shown.
    pub open spec fn selected_friend(self) -> Option<FriendView> {
        selected_in(self.shown_friends(), self.friend_selected)
    }

    /// The member that the selection points at in the roster.
    pub open spec fn selected_member(self) -> Option<GroupUserView> {
        selected_in(self.detail.users, self.member_selected)
    }

    /// What a key press does. Outside of mode `GroupManager` the manager
    /// ignores every key.
    ///
    /// Over the roster: Esc leads back to the chat; `e` hands the keys to
    /// the friends and asks the backend for them; Up and Down move the
    /// selection; Enter raises, for an admin of the group, the alert with
    /// the menu of management actions for the member selected, and for
    /// everybody else the alert that says that only an admin may manage.
    ///
    /// Over the friends: Esc leads back to the roster and clears the
    /// field; Up and Down move the selection; Enter raises the alert that
    /// asks whether to invite the friend selected among those shown; the
    /// other keys edit the field.
    pub open spec fn handle_key_event(self, mode: Mode, me: Option<i32>, key: KeyEvent)
        -> GroupManagerStep {
        let stay = GroupManagerStep { manager: self, mode, turn: TurnView::nothing() };
        if mode != Mode::GroupManager {
            stay
        } else {
            match self.state {
                State::GroupDetail => match key.code {
                    KeyCode::Esc => GroupManagerStep {
                        manager: GroupManagerView { member_selected: None, ..self },
                        mode: Mode::Chat,
                        turn: TurnView::nothing(),
                    },
                    KeyCode::Char(c) => if c == 'e' {
                        GroupManagerStep {
                            manager: GroupManagerView {
                                member_selected: None,
                                ..self.next_state()
                            }.waiting_for(Pending::Friends),
                            mode,
                            turn: TurnView::Call(RequestView::Friends),
                        }
                    } else {
                        stay
                    },
                    KeyCode::Up => GroupManagerStep {
                        manager: GroupManagerView {
                            member_selected: Some(previous_index(self.member_selected)),
                            ..self
                        },
                        ..stay
                    },
                    KeyCode::Down => GroupManagerStep {
                        manager: GroupManagerView {
                            member_selected: Some(next_index(self.member_selected)),
                            ..self
                        },
                        ..stay
                    },
                    KeyCode::Enter => if me is Some && is_admin(self.detail.users, me->0) {
                        match self.selected_member() {
                            Some(member) => GroupManagerStep {
                                turn: TurnView::Done(
                                    Some(
                                        ActionView::Alert(
                                            manage_question(member.name),
                                            Some(ConfirmEvent::GroupManage(None)),
                                        ),
                                    ),
                                ),
                                ..stay
                            },
                            None => stay,
                        }
                    } else {
                        GroupManagerStep { turn: TurnView::alert(not_admin_msg()), ..stay }
                    },
                    _ => stay,
                },
                State::InviteFriend => match key.code {
                    KeyCode::Esc => GroupManagerStep {
                        manager: GroupManagerView {
                            friend_selected: None,
                            ..self.next_state()
                        }.with_input(self.next_state().user_input.reset()),
                        ..stay
                    },
                    KeyCode::Char(to_insert) => GroupManagerStep {
                        manager: self.with_input(self.user_input.enter_char(to_insert)),
                        ..stay
                    },
                    KeyCode::Backspace => GroupManagerStep {
                        manager: self.with_input(self.user_input.delete_char()),
                        ..stay
                    },
                    KeyCode::Left => GroupManagerStep {
                        manager: self.with_input(self.user_input.move_cursor_left()),
                        ..stay
                    },
                    KeyCode::Right => GroupManagerStep {
                        manager: self.with_input(self.user_input.move_cursor_right()),
                        ..stay
                    },
                    KeyCode::Up => GroupManagerStep {
                        manager: GroupManagerView {
                            friend_selected: Some(previous_index(self.friend_selected)),
                            ..self
                        },
                        ..stay
                    },
                    KeyCode::Down => GroupManagerStep {
                        manager: GroupManagerView {
                            friend_selected: Some(next_index(self.friend_selected)),
                            ..self
                        },
                        ..stay
                    },
                    KeyCode::Enter => match self.selected_friend() {
                        Some(friend) => GroupManagerStep {
                            turn: TurnView::Done(
                                Some(
                                    ActionView::Alert(
                                        invite_question(friend.name),
                                        Some(ConfirmEvent::InviteFriend),
                                    ),
                                ),
                            ),
                            ..stay
                        },
                        None => stay,
                    },
                    _ => stay,
                },
            }
        }
    }

    /// The roster of the group is asked for afresh; with no group opened
    /// the turn is over.
    pub open spec fn refetch(self) -> (GroupManagerView, TurnView) {
        match self.gid {
            Some(gid) => (
                self.waiting_for(Pending::Detail),
                TurnView::Call(RequestView::GroupDetail { gid }),
            ),
            None => (self.waiting_for(Pending::Idle), TurnView::nothing()),
        }
    }

    /// The confirmed invitation: the friend selected among those shown is
    /// invited into the group. With no friend selected or no group opened,
    /// the keys go back to the roster and the roster is asked for afresh.
    pub open spec fn invite(self) -> (GroupManagerView, TurnView) {
        match (self.selected_friend(), self.gid) {
            (Some(friend), Some(gid)) => (
                self.waiting_for(Pending::Invite),
                TurnView::Call(RequestView::Invite { uid: friend.id, gid }),
            ),
            _ => self.next_state().refetch(),
        }
    }

    /// The confirmed management action: it is taken on the member selected.
    /// With no member selected or no group opened, the roster is asked for
    /// afresh.
    pub open spec fn manage(self, action: ManageAction) -> (GroupManagerView, TurnView) {
        match (self.selected_member(), self.gid) {
            (Some(member), Some(gid)) => (
                self.waiting_for(Pending::Manage),
                TurnView::Call(RequestView::Manage { action, gid, uid: member.id }),
            ),
            _ => self.refetch(),
        }
    }

    /// What an action does. A confirmed invitation makes `GroupManager` the
    /// mode and invites. A confirmed management action is carried out.
    /// `Group` opens a group: `GroupManager` becomes the mode and the roster
    /// is asked for. Nothing else changes anything.
    pub open spec fn update(self, mode: Mode, action: ActionView) -> GroupManagerStep {
        match action {
            ActionView::Confirm(ConfirmEvent::InviteFriend) => GroupManagerStep {
                manager: self.invite().0,
                mode: Mode::GroupManager,
                turn: self.invite().1,
            },
            ActionView::Confirm(ConfirmEvent::GroupManage(Some(manage))) => GroupManagerStep {
                manager: self.manage(manage).0,
                mode,
                turn: self.manage(manage).1,
            },
            ActionView::Group(gid) => GroupManagerStep {
                manager: GroupManagerView { gid: Some(gid), ..self }.waiting_for(Pending::Detail),
                mode: Mode::GroupManager,
                turn: TurnView::Call(RequestView::GroupDetail { gid }),
            },
            _ => GroupManagerStep { manager: self, mode, turn: TurnView::nothing() },
        }
    }

    /// What the backend's answer does. The friends and the roster that were
    /// asked for replace those held. After an invitation the keys go back
    /// to the roster, and after an invitation or a management action the
    /// roster is asked for afresh. A failure raises an alert with the
    /// reason; the manager then waits for nothing and is otherwise as it
    /// was. An answer that was not waited for is ignored.
    pub open spec fn resume(self, response: ResponseView) -> (GroupManagerView, TurnView) {
        let idle = self.waiting_for(Pending::Idle);
        match (self.pending, response) {
            (Pending::Idle, _) => (self, TurnView::nothing()),
            (_, ResponseView::Failed(reason)) => (idle, TurnView::alert(reason)),
            (Pending::Friends, ResponseView::Friends(friends)) => (
                GroupManagerView { friends, ..idle },
                TurnView::nothing(),
            ),
            (Pending::Invite, ResponseView::Done) => self.next_state().refetch(),
            (Pending::Manage, ResponseView::Done) => self.refetch(),
            (Pending::Detail, ResponseView::GroupDetail(detail)) => (
                GroupManagerView { detail, ..idle },
                TurnView::nothing(),
            ),
            _ => (idle, TurnView::nothing()),
        }
    }
}

impl GroupManager {
    /// The manager before a group was opened.
    pub fn new() -> (manager: Self)
        ensures
            manager@ == GroupManagerView::fresh(),
    {
        let manager = GroupManager {
            user_input: UserInput::new(
                InputData::Search {
                    label: Some(String::from_str("Press e To Invite Friend To Join Group")),
                    data: None,
                },
            ),
            gid: None,
            detail: DetailRes::empty(),
            friends: Vec::new(),
            state: State::GroupDetail,
            group_members_list_state: new_list_state(),
            friends_list_state: new_list_state(),
            pending: Pending::Idle,
        };
        assert(manager@.friends =~= Seq::<FriendView>::empty());
        manager
    }

    /// Switches from the roster to the friends, or back.
    pub fn next_state(&mut self)
        ensures
            final(self)@ == old(self)@.next_state(),
    {
        match self.state {
            State::GroupDetail => {
                self.state = State::InviteFriend;
                self.user_input.is_editing = true;
            },
            State::InviteFriend => {
                self.state = State::GroupDetail;
                self.user_input.is_editing = false;
            },
        }
    }

    /// Whether the user of id `uid` is an admin of the group.
    pub fn is_admin(&self, uid: i32) -> (admin: bool)
        ensures
            admin == is_admin(self@.detail.users, uid),
    {
        let mut i: usize = 0;
        while i < self.detail.users.len()
            invariant
                i <= self.detail.users.len(),
                forall|j: int|
                    0 <= j < i ==> !((#[trigger] self@.detail.users[j]).admin
                        && self@.detail.users[j].id == uid),
            decreases self.detail.users.len() - i,
        {
            if self.detail.users[i].admin && self.detail.users[i].id == uid {
                assert(self@.detail.users[i as int].admin && self@.detail.users[i as int].id == uid);
                return true;
            }
            i = i + 1;
        }
        false
    }

    /// The friends shown: those that pass the filter typed so far.
    pub fn shown_friends(&self) -> (shown: Vec<Friend>)
        ensures
            shown.deep_view() == self@.shown_friends(),
    {
        let ghost query = self@.user_input.input;
        let ghost all = self@.friends;
        let ghost keep = |friend: FriendView| passes(friend, query);
        let mut shown: Vec<Friend> = Vec::new();
        let mut i: usize = 0;
        assert(all.take(0).filter(keep) =~= Seq::<FriendView>::empty()) by {
            reveal(Seq::filter);
        }
        while i < self.friends.len()
            invariant
                i <= self.friends.len(),
                query == self@.user_input.input,
                all == self@.friends,
                keep == |friend: FriendView| passes(friend, query),
                shown.deep_view() =~= all.take(i as int).filter(keep),
            decreases self.friends.len() - i,
        {
            let friend = &self.friends[i];
            let pass = match &self.user_input.input {
                Some(typed) => contains(friend.name.as_str(), typed.as_str()),
                None => true,
            };
            proof {
                reveal(Seq::filter);
                assert(all.take(i + 1).drop_last() =~= all.take(i as int));
                assert(all.take(i + 1).last() == friend@);
                assert(pass == keep(friend@));
            }
            if pass {
                shown.push(friend.clone());
            }
            i = i + 1;
        }
        assert(all.take(self.friends.len() as int) =~= all);
        shown
    }

    /// Reacts to a key press; see `GroupManagerView::handle_key_event`.
    pub fn handle_key_event(
        &mut self,
        mode_holder: &mut ModeHolderLock,
        current_user: &CurrentUser,
        key: KeyEvent,
    ) -> (turn: Turn)
        ensures
            (GroupManagerStep {
                manager: final(self)@,
                mode: final(mode_holder).mode(),
                turn: turn@,
            }) == old(self)@.handle_key_event(
                old(mode_holder).mode(),
                current_user.spec_id(),
                key,
            ),
    {
        match mode_holder.get_mode() {
            Mode::GroupManager => {},
            _ => {
                return Turn::Done(None);
            },
        }
        match self.state {
            State::GroupDetail => match key.code {
                KeyCode::Esc => {
                    mode_holder.set_mode(Mode::Chat);
                    select(&mut self.group_members_list_state, None);
                    Turn::Done(None)
                },
                KeyCode::Char(c) => {
                    if c == 'e' {
                        self.next_state();
                        select(&mut self.group_members_list_state, None);
                        self.pending = Pending::Friends;
                        Turn::Call(Request::Friends)
                    } else {
                        Turn::Done(None)
                    }
                },
                KeyCode::Up => {
                    select_previous(&mut self.group_members_list_state);
                    Turn::Done(None)
                },
                KeyCode::Down => {
                    select_next(&mut self.group_members_list_state);
                    Turn::Done(None)
                },
                KeyCode::Enter => {
                    let admin = match current_user.id() {
                        Some(uid) => self.is_admin(uid),
                        None => false,
                    };
                    if admin {
                        if let Some(idx) = selected(&self.group_members_list_state) {
                            if idx < self.detail.users.len() {
                                let mut question = String::from_str("你希望将");
                                question.append(self.detail.users[idx].name.as_str());
                                question.append(":");
                                return Turn::Done(
                                    Some(
                                        Action::Alert(
                                            question,
                                            Some(ConfirmEvent::GroupManage(None)),
                                        ),
                                    ),
                                );
                            }
                        }
                        Turn::Done(None)
                    } else {
                        Turn::alert(String::from_str("您不是管理员，无法操作"))
                    }
                },
                _ => Turn::Done(None),
            },
            State::InviteFriend => match key.code {
                KeyCode::Esc => {
                    select(&mut self.friends_list_state, None);
                    self.next_state();
                    self.user_input.reset();
                    Turn::Done(None)
                },
                KeyCode::Char(to_insert) => {
                    self.user_input.enter_char(to_insert);
                    Turn::Done(None)
                },
                KeyCode::Backspace => {
                    self.user_input.delete_char();
                    Turn::Done(None)
                },
                KeyCode::Left => {
                    self.user_input.move_cursor_left();
                    Turn::Done(None)
                },
                KeyCode::Right => {
                    self.user_input.move_cursor_right();
                    Turn::Done(None)
                },
                KeyCode::Up => {
                    select_previous(&mut self.friends_list_state);
                    Turn::Done(None)
                },
                KeyCode::Down => {
                    select_next(&mut self.friends_list_state);
                    Turn::Done(None)
                },
                KeyCode::Enter => {
                    if let Some(idx) = selected(&self.friends_list_state) {
                        let shown = self.shown_friends();
                        if idx < shown.len() {
                            let mut question = String::from_str("确定邀请");
                            question.append(shown[idx].name.as_str());
                            question.append("入群么？");
                            return Turn::Done(
                                Some(Action::Alert(question, Some(ConfirmEvent::InviteFriend))),
                            );
                        }
                    }
                    Turn::Done(None)
                },
                _ => Turn::Done(None),
            },
        }
    }

    fn refetch(&mut self) -> (turn: Turn)
        ensures
            (final(self)@, turn@) == old(self)@.refetch(),
    {
        match self.gid {
            Some(gid) => {
                self.pending = Pending::Detail;
                Turn::Call(Request::GroupDetail { gid })
            },
            None => {
                self.pending = Pending::Idle;
                Turn::Done(None)
            },
        }
    }

    fn invite(&mut self) -> (turn: Turn)
        ensures
            (final(self)@, turn@) == old(self)@.invite(),
    {
        if let Some(gid) = self.gid {
            if let Some(idx) = selected(&self.friends_list_state) {
                let shown = self.shown_friends();
                if idx < shown.len() {
                    self.pending = Pending::Invite;
                    return Turn::Call(Request::Invite { uid: shown[idx].id, gid });
                }
            }
        }
        self.next_state();
        self.refetch()
    }

    fn manage(&mut self, action: ManageAction) -> (turn: Turn)
        ensures
            (final(self)@, turn@) == old(self)@.manage(action),
    {
        if let Some(gid) = self.gid {
            if let Some(idx) = selected(&self.group_members_list_state) {
                if idx < self.detail.users.len() {
                    self.pending = Pending::Manage;
                    return Turn::Call(
                        Request::Manage { action, gid, uid: self.detail.users[idx].id },
                    );
                }
            }
        }
        self.refetch()
    }

    /// Reacts to an action; see `GroupManagerView::update`.
    pub fn update(&mut self, mode_holder: &mut ModeHolderLock, action: &Action) -> (turn: Turn)
        ensures
            (GroupManagerStep {
                manager: final(self)@,
                mode: final(mode_holder).mode(),
                turn: turn@,
            }) == old(self)@.update(old(mode_holder).mode(), action@),
    {
        match action {
            Action::Confirm(ConfirmEvent::InviteFriend) => {
                mode_holder.set_mode(Mode::GroupManager);
                self.invite()
            },
            Action::Confirm(ConfirmEvent::GroupManage(Some(manage))) => self.manage(*manage),
            Action::Group(gid) => {
                self.gid = Some(*gid);
                mode_holder.set_mode(Mode::GroupManager);
                self.pending = Pending::Detail;
                Turn::Call(Request::GroupDetail { gid: *gid })
            },
            _ => Turn::Done(None),
        }
    }

    /// Takes the backend's answer; see `GroupManagerView::resume`.
    pub fn resume(&mut self, response: Response) -> (turn: Turn)
        ensures
            (final(self)@, turn@) == old(self)@.resume(response@),
    {
        let pending = self.pending;
        match (pending, response) {
            (Pending::Idle, _) => Turn::Done(None),
            (_, Response::Failed(reason)) => {
                self.pending = Pending::Idle;
                Turn::alert(reason)
            },
            (Pending::Friends, Response::Friends(friends)) => {
                self.pending = Pending::Idle;
                self.friends = friends;
                Turn::Done(None)
            },
            (Pending::Invite, Response::Done) => {
                self.next_state();
                self.refetch()
            },
            (Pending::Manage, Response::Done) => self.refetch(),
            (Pending::Detail, Response::GroupDetail(detail)) => {
                self.pending = Pending::Idle;
                self.detail = detail;
                Turn::Done(None)
            },
            _ => {
                self.pending = Pending::Idle;
                Turn::Done(None)
            },
        }
    }

    /// Records where the terminal cursor belongs while the friends have the
    /// keys, for a field drawn in `search_area`.
    pub fn place_cursor(&mut self, search_area: Rect)
        ensures
            final(self)@ == (if old(self).state == State::InviteFriend {
                old(self)@.with_input(old(self)@.user_input.set_cursor_position(search_area))
            } else {
                old(self)@
            }),
    {
        match self.state {
            State::InviteFriend => {
                self.user_input.set_cursor_position(search_area);
            },
            State::GroupDetail => {},
        }
    }

    /// Whether the manager is drawn in `mode`.
    pub fn is_visible(mode: Mode) -> (visible: bool)
        ensures
            visible == (mode == Mode::GroupManager),
    {
        match mode {
            Mode::GroupManager => true,
            _ => false,
        }
    }
}

} // verus!
