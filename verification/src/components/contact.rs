//! The contact list: friends, pending friend requests, and the search for
//! new friends.

use crate::action::Action;
use crate::action::ActionView;
use crate::action::ConfirmEvent;
use crate::app::Mode;
use crate::app::ModeHolderLock;
use crate::components::area_util::Rect;
use crate::components::list_state::new_list_state;
use crate::components::list_state::next_index;
use crate::components::list_state::previous_index;
use crate::components::list_state::select;
use crate::components::list_state::select_next;
use crate::components::list_state::select_previous;
use crate::components::list_state::selected;
use crate::components::list_state::selected_of;
use crate::components::user_input::InputData;
use crate::components::user_input::InputDataView;
use crate::components::user_input::UserInput;
use crate::components::user_input::UserInputView;
use crate::key::KeyCode;
use crate::key::KeyEvent;
use crate::proxy::friend::sort_by_create_time;
use crate::proxy::friend::sorted_by_create_time;
use crate::proxy::friend::Friend;
use crate::proxy::friend::FriendReq;
use crate::proxy::friend::FriendReqView;
use crate::proxy::friend::FriendRequestStatus;
use crate::proxy::friend::FriendView;
use crate::proxy::user::UserDetail;
use crate::proxy::user::UserDetailView;
use crate::proxy::Request;
use crate::proxy::RequestView;
use crate::proxy::Response;
use crate::proxy::ResponseView;
use crate::proxy::Turn;
use crate::proxy::TurnView;
use crate::token::CurrentUser;
use ratatui::widgets::ListState;
use vstd::prelude::*;
use vstd::string::StringExecFns;

verus! {

/// The conversation that the user asked to open.
#[derive(Debug, PartialEq, Eq)]
pub enum ToChat {
    /// A user, by id and name.
    User(i32, String),
    /// A group, by id and name.
    Group(i32, String),
}

/// A `ToChat` with its texts as sequences of characters.
pub enum ToChatView {
    User(i32, Seq<char>),
    Group(i32, Seq<char>),
}

impl View for ToChat {
    type V = ToChatView;

    open spec fn view(&self) -> ToChatView {
        match self {
            ToChat::User(uid, name) => ToChatView::User(*uid, name@),
            ToChat::Group(gid, name) => ToChatView::Group(*gid, name@),
        }
    }
}

impl Clone for ToChat {
    fn clone(&self) -> (copy: Self)
        ensures
            copy == *self,
    {
        match self {
            ToChat::User(uid, name) => ToChat::User(*uid, name.clone()),
            ToChat::Group(gid, name) => ToChat::Group(*gid, name.clone()),
        }
    }
}


/// Which part of the screen has the keys.
#[derive(Debug, Clone, Copy, PartialEq, Eq, Hash, Structural)]
pub enum State {
    /// The list of friends.
    Friends,
    /// The search field.
    Search,
    /// The list of users found.
    AddFriend,
    /// The list of friend requests.
    FriendReq,
}

/// What of an action is left to do once the lists were fetched afresh.
#[derive(Debug, Clone, Copy, PartialEq, Eq, Hash)]
pub enum Rest {
    /// Nothing.
    Nothing,
    /// Ask the user of this id to become a friend.
    AddFriend(i32),
    /// Carry out the decision on the selected friend request.
    Review(Option<bool>),
}

/// What the screen waits for.
#[derive(Debug, Clone, Copy, PartialEq, Eq, Hash)]
pub enum Pending {
    /// Nothing.
    Idle,
    /// The friends; `Rest` is left of the action.
    Friends(Rest),
    /// The friend requests; `Rest` is left of the action.
    FriendReqs(Rest),
    /// The friend request to be sent.
    AddFriend,
    /// The decision on a friend request to be taken down.
    Review,
    /// The users found.
    Search,
}

/// The friends and whether they are to be fetched afresh.
#[derive(Debug, PartialEq, Eq)]
pub struct FriendsHolder {
    pub need_fetch: bool,
    pub friends: Vec<Friend>,
}

/// The friend requests and whether they are to be fetched afresh.
#[derive(Debug, PartialEq, Eq)]
pub struct FriendReqHolder {
    pub need_fetch: bool,
    pub friend_reqs: Vec<FriendReq>,
}

/// Whether one of the requests waits for a decision.
pub open spec fn has_waiting(reqs: Seq<FriendReqView>) -> bool {
    exists|i: int| 0 <= i < reqs.len() && (#[trigger] reqs[i]).status == FriendRequestStatus::WAIT
}

impl FriendReqHolder {
    /// Whether one of the requests waits for a decision.
    pub fn has_new_friend_reqs(&self) -> (waiting: bool)
        ensures
            waiting == has_waiting(self.friend_reqs.deep_view()),
    {
        let mut i: usize = 0;
        while i < self.friend_reqs.len()
            invariant
                i <= self.friend_reqs.len(),
                forall|j: int|
                    0 <= j < i ==> (#[trigger] self.friend_reqs.deep_view()[j]).status
                        != FriendRequestStatus::WAIT,
            decreases self.friend_reqs.len() - i,
        {
            if let FriendRequestStatus::WAIT = self.friend_reqs[i].status {
                assert(self.friend_reqs.deep_view()[i as int].status == FriendRequestStatus::WAIT);
                return true;
            }
            i = i + 1;
        }
        false
    }
}

/// A user that a search found.
#[derive(Debug, Clone, PartialEq, Eq)]
pub struct FriendSearchRes {
    pub id: i32,
    pub name: String,
    pub is_friend: bool,
}

/// A `FriendSearchRes` with its name as a sequence of characters.
pub struct FriendSearchResView {
    pub id: i32,
    pub name: Seq<char>,
    pub is_friend: bool,
}

impl View for FriendSearchRes {
    type V = FriendSearchResView;

    open spec fn view(&self) -> FriendSearchResView {
        FriendSearchResView { id: self.id, name: self.name@, is_friend: self.is_friend }
    }
}

impl DeepView for FriendSearchRes {
    type V = FriendSearchResView;

    open spec fn deep_view(&self) -> FriendSearchResView {
        self@
    }
}

/// What a search shows of the users found.
pub open spec fn search_results(users: Seq<UserDetailView>) -> Seq<FriendSearchResView> {
    Seq::new(
        users.len(),
        |i: int| FriendSearchResView { id: users[i].id, name: users[i].name, is_friend: users[i].is_friend },
    )
}

fn to_search_results(users: Vec<UserDetail>) -> (found: Vec<FriendSearchRes>)
    ensures
        found.deep_view() == search_results(users.deep_view()),
{
    let ghost incoming = users.deep_view();
    let ghost elements = users@;
    let mut found: Vec<FriendSearchRes> = Vec::new();
    for user in it: users.into_iter()
        invariant
            it.seq() == elements,
            incoming.len() == elements.len(),
            forall|i: int| 0 <= i < elements.len() ==> (#[trigger] elements[i])@ == incoming[i],
            found.deep_view() =~= search_results(incoming.take(it.index() as int)),
    {
        let ghost k = it.index() as int;
        let ghost so_far = found.deep_view();
        assert(user@ == incoming[k]);
        found.push(FriendSearchRes { id: user.id, name: user.name, is_friend: user.is_friend });
        assert(found.deep_view() =~= so_far.push(
            FriendSearchResView {
                id: incoming[k].id,
                name: incoming[k].name,
                is_friend: incoming[k].is_friend,
            },
        ));
        assert(incoming.take(k + 1) =~= incoming.take(k).push(incoming[k]));
    }
    assert(incoming.take(incoming.len() as int) =~= incoming);
    found
}

/// The contact screen.
#[derive(Debug, PartialEq, Eq)]
pub struct Contact {
    pub friends_holder: FriendsHolder,
    pub search_result: Vec<FriendSearchRes>,
    pub friend_req_holder: FriendReqHolder,
    pub friend_list_state: ListState,
    pub friend_req_list_state: ListState,
    pub search_list_state: ListState,
    pub user_input: UserInput,
    pub state: State,
    pub pending: Pending,
}

/// A `Contact` with its lists as sequences and its selections as indices.
pub struct ContactView {
    pub friends: Seq<FriendView>,
    pub friends_need_fetch: bool,
    pub search_result: Seq<FriendSearchResView>,
    pub friend_reqs: Seq<FriendReqView>,
    pub reqs_need_fetch: bool,
    pub friend_selected: Option<usize>,
    pub req_selected: Option<usize>,
    pub search_selected: Option<usize>,
    pub user_input: UserInputView,
    pub state: State,
    pub pending: Pending,
}

impl View for Contact {
    type V = ContactView;

    open spec fn view(&self) -> ContactView {
        ContactView {
            friends: self.friends_holder.friends.deep_view(),
            friends_need_fetch: self.friends_holder.need_fetch,
            search_result: self.search_result.deep_view(),
            friend_reqs: self.friend_req_holder.friend_reqs.deep_view(),
            reqs_need_fetch: self.friend_req_holder.need_fetch,
            friend_selected: selected_of(self.friend_list_state),
            req_selected: selected_of(self.friend_req_list_state),
            search_selected: selected_of(self.search_list_state),
            user_input: self.user_input@,
            state: self.state,
            pending: self.pending,
        }
    }
}

/// The label of the search field.
pub open spec fn search_label() -> Seq<char> {
    "Press e To Search New Friend Here."@
}

/// What the alert asks before a friend request goes out to `name`.
pub open spec fn add_friend_question(name: Seq<char>) -> Seq<char> {
    "要添加"@ + name + "为好友么？"@
}

/// What the alert asks before the friend request of `name` is accepted.
pub open spec fn accept_question(name: Seq<char>) -> Seq<char> {
    "接受"@ + name + "的好友请求么？"@
}

/// What of `action` is left to do once the lists were fetched afresh.
pub open spec fn rest_of(action: ActionView) -> Rest {
    match action {
        ActionView::Confirm(ConfirmEvent::AddFriend(friend_uid)) => Rest::AddFriend(friend_uid),
        ActionView::Confirm(ConfirmEvent::ConfirmFriendReq(decision)) => Rest::Review(decision),
        _ => Rest::Nothing,
    }
}

/// The element of `list` that `selected` points at, if it points at one.
pub open spec fn selected_in<T>(list: Seq<T>, selected: Option<usize>) -> Option<T> {
    match selected {
        Some(index) => if index < list.len() {
            Some(list[index as int])
        } else {
            None
        },
        None => None,
    }
}

impl ContactView {
    /// The screen before anything was fetched: both lists are to be
    /// fetched, and the list of friends has the keys.
    pub open spec fn fresh() -> ContactView {
        ContactView {
            friends: Seq::empty(),
            friends_need_fetch: true,
            search_result: Seq::empty(),
            friend_reqs: Seq::empty(),
            reqs_need_fetch: true,
            friend_selected: None,
            req_selected: None,
            search_selected: None,
            user_input: UserInputView::fresh(
                InputDataView::Search { label: Some(search_label()), data: None },
            ),
            state: State::Friends,
            pending: Pending::Idle,
        }
    }

    /// The screen with `state` as the part that has the keys. The search
    /// field edits in state `Search` and in no other.
    pub open spec fn change_state(self, state: State) -> ContactView {
        ContactView {
            state,
            user_input: UserInputView { is_editing: state == State::Search, ..self.user_input },
            ..self
        }
    }

    /// The screen with nothing found and nothing typed.
    pub open spec fn clean_search(self) -> ContactView {
        ContactView { search_result: Seq::empty(), user_input: self.user_input.reset(), ..self }
    }

    /// The screen with `user_input` as its search field.
    pub open spec fn with_input(self, user_input: UserInputView) -> ContactView {
        ContactView { user_input, ..self }
    }

    /// The screen with `pending` as what it waits for.
    pub open spec fn waiting_for(self, pending: Pending) -> ContactView {
        ContactView { pending, ..self }
    }

    /// The screen after a key press in mode `Contact`.
    pub open spec fn key_pressed(self, key: KeyEvent) -> ContactView {
        match self.state {
            State::Friends => match key.code {
                KeyCode::Char(c) => if c == 'e' {
                    ContactView { friend_selected: None, ..self.change_state(State::Search) }
                } else {
                    self
                },
                KeyCode::Up => ContactView {
                    friend_selected: Some(previous_index(self.friend_selected)),
                    ..self
                },
                KeyCode::Down => ContactView {
                    friend_selected: Some(next_index(self.friend_selected)),
                    ..self
                },
                KeyCode::Right => ContactView {
                    friend_selected: None,
                    ..self.change_state(State::FriendReq)
                },
                _ => self,
            },
            State::Search => match key.code {
                KeyCode::Enter => {
                    let committed = self.with_input(self.user_input.submit_message());
                    if self.user_input.input is Some {
                        committed.waiting_for(Pending::Search)
                    } else {
                        committed
                    }
                },
                KeyCode::Char(to_insert) => self.with_input(self.user_input.enter_char(to_insert)),
                KeyCode::Backspace => self.with_input(self.user_input.delete_char()),
                KeyCode::Left => self.with_input(self.user_input.move_cursor_left()),
                KeyCode::Right => self.with_input(self.user_input.move_cursor_right()),
                KeyCode::Esc => self.clean_search().change_state(State::Friends),
                _ => self,
            },
            State::AddFriend => match key.code {
                KeyCode::Up => ContactView {
                    search_selected: Some(previous_index(self.search_selected)),
                    ..self
                },
                KeyCode::Down => ContactView {
                    search_selected: Some(next_index(self.search_selected)),
                    ..self
                },
                KeyCode::Esc => self.clean_search().change_state(State::Friends),
                _ => self,
            },
            State::FriendReq => match key.code {
                KeyCode::Char(c) => if c == 'e' {
                    ContactView { req_selected: None, ..self.change_state(State::Search) }
                } else {
                    self
                },
                KeyCode::Up => ContactView {
                    req_selected: Some(previous_index(self.req_selected)),
                    ..self
                },
                KeyCode::Down => ContactView {
                    req_selected: Some(next_index(self.req_selected)),
                    ..self
                },
                KeyCode::Left => ContactView {
                    req_selected: None,
                    ..self.change_state(State::Friends)
                },
                _ => self,
            },
        }
    }

    /// How the turn of a key press in mode `Contact` ends. Enter on a friend
    /// asks for the conversation with that friend; Enter in the search
    /// field asks the backend for the users of the name typed, where one
    /// was typed; Enter on a user found or on a friend request raises the
    /// alert that asks the user to confirm. No other key answers.
    pub open spec fn key_turn(self, key: KeyEvent) -> TurnView {
        if key.code != KeyCode::Enter {
            TurnView::nothing()
        } else {
            match self.state {
                State::Friends => match selected_in(self.friends, self.friend_selected) {
                    Some(friend) => TurnView::Done(
                        Some(ActionView::ToChat(ToChatView::User(friend.id, friend.name))),
                    ),
                    None => TurnView::nothing(),
                },
                State::Search => match self.user_input.input {
                    Some(name) => TurnView::Call(RequestView::SearchUsers { name }),
                    None => TurnView::nothing(),
                },
                State::AddFriend => match selected_in(self.search_result, self.search_selected) {
                    Some(found) => TurnView::Done(
                        Some(
                            ActionView::Alert(
                                add_friend_question(found.name),
                                Some(ConfirmEvent::AddFriend(found.id)),
                            ),
                        ),
                    ),
                    None => TurnView::nothing(),
                },
                State::FriendReq => match selected_in(self.friend_reqs, self.req_selected) {
                    Some(request) => TurnView::Done(
                        Some(
                            ActionView::Alert(
                                accept_question(request.request_name),
                                Some(ConfirmEvent::ConfirmFriendReq(None)),
                            ),
                        ),
                    ),
                    None => TurnView::nothing(),
                },
            }
        }
    }

    /// The screen once a decision on a friend request was dealt with:
    /// nothing is selected among the requests, both lists are to be fetched
    /// afresh, and the list of friends has the keys.
    pub open spec fn review_done(self) -> ContactView {
        ContactView {
            req_selected: None,
            reqs_need_fetch: true,
            friends_need_fetch: true,
            ..self
        }.change_state(State::Friends).waiting_for(Pending::Idle)
    }

    /// The screen once a friend request went out: the search is cleaned up,
    /// the list of friends has the keys, nothing is selected among the users
    /// found, and both lists are to be fetched afresh.
    pub open spec fn add_friend_done(self) -> ContactView {
        ContactView {
            search_selected: None,
            reqs_need_fetch: true,
            friends_need_fetch: true,
            ..self.clean_search().change_state(State::Friends)
        }.waiting_for(Pending::Idle)
    }

    /// What is left of an action, carried out. A friend request goes out in
    /// the name of the user logged in. A decision on the selected friend
    /// request is taken down where there is a decision and a request is
    /// selected; where not, the review is done at once.
    pub open spec fn act(self, me: Option<i32>, rest: Rest) -> (ContactView, TurnView) {
        match rest {
            Rest::Nothing => (self.waiting_for(Pending::Idle), TurnView::nothing()),
            Rest::AddFriend(friend_uid) => match me {
                Some(uid) => (
                    self.waiting_for(Pending::AddFriend),
                    TurnView::Call(RequestView::AddFriend { uid, friend_uid }),
                ),
                None => (self.waiting_for(Pending::Idle), TurnView::nothing()),
            },
            Rest::Review(decision) => match (
                decision,
                selected_in(self.friend_reqs, self.req_selected),
            ) {
                (Some(accept), Some(request)) => (
                    self.waiting_for(Pending::Review),
                    TurnView::Call(
                        RequestView::ReviewFriendReq {
                            req_id: request.id,
                            status: FriendRequestStatus::spec_from_decision(accept),
                        },
                    ),
                ),
                _ => (self.review_done(), TurnView::nothing()),
            },
        }
    }

    /// The turn from the friend requests on: in mode `Contact`, requests
    /// that are to be fetched are asked for, and are then no longer to be
    /// fetched; else what is left of the action is carried out.
    pub open spec fn from_friend_reqs(self, mode: Mode, me: Option<i32>, rest: Rest) -> (
        ContactView,
        TurnView,
    ) {
        if mode == Mode::Contact && self.reqs_need_fetch {
            (
                ContactView { reqs_need_fetch: false, ..self }.waiting_for(Pending::FriendReqs(rest)),
                TurnView::Call(RequestView::FriendReqs),
            )
        } else {
            self.act(me, rest)
        }
    }

    /// What an action does, whichever it is: in mode `Contact`, friends that
    /// are to be fetched are asked for first, then the friend requests;
    /// then a confirmed friend request goes out, or a decision on a friend
    /// request is taken down.
    pub open spec fn update(self, mode: Mode, me: Option<i32>, action: ActionView) -> (
        ContactView,
        TurnView,
    ) {
        if mode == Mode::Contact && self.friends_need_fetch {
            (
                ContactView { friends_need_fetch: false, ..self }.waiting_for(
                    Pending::Friends(rest_of(action)),
                ),
                TurnView::Call(RequestView::Friends),
            )
        } else {
            self.from_friend_reqs(mode, me, rest_of(action))
        }
    }

    /// What the backend's answer does. Lists that were asked for replace the
    /// lists held, the friend requests in the order in which they were
    /// made, and the turn goes on where it stopped. A failure raises an
    /// alert with the reason; the screen then waits for nothing and is
    /// otherwise as it was. An answer that was not waited for is ignored.
    pub open spec fn resume(self, mode: Mode, me: Option<i32>, response: ResponseView) -> (
        ContactView,
        TurnView,
    ) {
        let idle = self.waiting_for(Pending::Idle);
        match (self.pending, response) {
            (Pending::Idle, _) => (self, TurnView::nothing()),
            (_, ResponseView::Failed(reason)) => (idle, TurnView::alert(reason)),
            (Pending::Friends(rest), ResponseView::Friends(friends)) => ContactView {
                friends,
                ..self
            }.from_friend_reqs(mode, me, rest),
            (Pending::FriendReqs(rest), ResponseView::FriendReqs(reqs)) => ContactView {
                friend_reqs: sorted_by_create_time(reqs),
                ..self
            }.act(me, rest),
            (Pending::AddFriend, ResponseView::Done) => (self.add_friend_done(), TurnView::nothing()),
            (Pending::Review, ResponseView::Done) => (self.review_done(), TurnView::nothing()),
            (Pending::Search, ResponseView::Users(users)) => (
                ContactView { search_result: search_results(users), ..idle }.change_state(
                    State::AddFriend,
                ),
                TurnView::nothing(),
            ),
            _ => (idle, TurnView::nothing()),
        }
    }
}


impl Contact {
    /// The screen before anything was fetched.
    pub fn new() -> (contact: Self)
        ensures
            contact@ == ContactView::fresh(),
    {
        let contact = Contact {
            friends_holder: FriendsHolder { need_fetch: true, friends: Vec::new() },
            search_result: Vec::new(),
            friend_req_holder: FriendReqHolder { need_fetch: true, friend_reqs: Vec::new() },
            friend_list_state: new_list_state(),
            friend_req_list_state: new_list_state(),
            search_list_state: new_list_state(),
            user_input: UserInput::new(
                InputData::Search {
                    label: Some(String::from_str("Press e To Search New Friend Here.")),
                    data: None,
                },
            ),
            state: State::Friends,
            pending: Pending::Idle,
        };
        assert(contact@.friends =~= Seq::<FriendView>::empty());
        assert(contact@.search_result =~= Seq::<FriendSearchResView>::empty());
        assert(contact@.friend_reqs =~= Seq::<FriendReqView>::empty());
        contact
    }

    /// Hands the keys to `state`.
    pub fn change_state(&mut self, state: State)
        ensures
            final(self)@ == old(self)@.change_state(state),
    {
        match state {
            State::Friends => {
                self.state = State::Friends;
                self.user_input.is_editing = false;
            },
            State::Search => {
                self.state = State::Search;
                self.user_input.is_editing = true;
            },
            State::AddFriend => {
                self.state = State::AddFriend;
                self.user_input.is_editing = false;
            },
            State::FriendReq => {
                self.state = State::FriendReq;
                self.user_input.is_editing = false;
            },
        }
    }

    /// Forgets what was found and what was typed.
    pub fn clean_search(&mut self)
        ensures
            final(self)@ == old(self)@.clean_search(),
    {
        self.search_result = Vec::new();
        self.user_input.reset();
        assert(self@.search_result =~= Seq::<FriendSearchResView>::empty());
    }

    /// Reacts to a key press. Outside of mode `Contact` the screen ignores
    /// every key; in it, see `ContactView::key_pressed` and
    /// `ContactView::key_turn`.
    pub fn handle_key_event(&mut self, mode_holder: &ModeHolderLock, key: KeyEvent) -> (turn: Turn)
        ensures
            mode_holder.mode() != Mode::Contact ==> final(self)@ == old(self)@ && turn@
                == TurnView::nothing(),
            mode_holder.mode() == Mode::Contact ==> final(self)@ == old(self)@.key_pressed(key)
                && turn@ == old(self)@.key_turn(key),
    {
        match mode_holder.get_mode() {
            Mode::Contact => {},
            _ => {
                return Turn::Done(None);
            },
        }
        match self.state {
            State::Friends => match key.code {
                KeyCode::Char(c) => {
                    if c == 'e' {
                        self.change_state(State::Search);
                        select(&mut self.friend_list_state, None);
                    }
                    Turn::Done(None)
                },
                KeyCode::Up => {
                    select_previous(&mut self.friend_list_state);
                    Turn::Done(None)
                },
                KeyCode::Down => {
                    select_next(&mut self.friend_list_state);
                    Turn::Done(None)
                },
                KeyCode::Right => {
                    select(&mut self.friend_list_state, None);
                    self.change_state(State::FriendReq);
                    Turn::Done(None)
                },
                KeyCode::Enter => {
                    if let Some(idx) = selected(&self.friend_list_state) {
                        if idx < self.friends_holder.friends.len() {
                            let friend = &self.friends_holder.friends[idx];
                            return Turn::Done(
                                Some(Action::ToChat(ToChat::User(friend.id, friend.name.clone()))),
                            );
                        }
                    }
                    Turn::Done(None)
                },
                _ => Turn::Done(None),
            },
            State::Search => match key.code {
                KeyCode::Enter => {
                    self.user_input.submit_message();
                    match self.user_input.data() {
                        Some(name) => {
                            self.pending = Pending::Search;
                            Turn::Call(Request::SearchUsers { name })
                        },
                        None => Turn::Done(None),
                    }
                },
                KeyCode::Char(to_insert) => {
                    self.user_input.enter_char(to_insert);
                    Turn::Done(None)
                },
                KeyCode::Backspace => {
                    self.user_input.delete_char();
                    Turn::Done(None)
                },
                KeyCode::Left => {
                    self.user_input.move_cursor_left();
                    Turn::Done(None)
                },
                KeyCode::Right => {
                    self.user_input.move_cursor_right();
                    Turn::Done(None)
                },
                KeyCode::Esc => {
                    self.clean_search();
                    self.change_state(State::Friends);
                    Turn::Done(None)
                },
                _ => Turn::Done(None),
            },
            State::AddFriend => match key.code {
                KeyCode::Up => {
                    select_previous(&mut self.search_list_state);
                    Turn::Done(None)
                },
                KeyCode::Down => {
                    select_next(&mut self.search_list_state);
                    Turn::Done(None)
                },
                KeyCode::Enter => {
                    if let Some(idx) = selected(&self.search_list_state) {
                        if idx < self.search_result.len() {
                            let found = &self.search_result[idx];
                            let mut question = String::from_str("要添加");
                            question.append(found.name.as_str());
                            question.append("为好友么？");
                            return Turn::Done(
                                Some(
                                    Action::Alert(question, Some(ConfirmEvent::AddFriend(found.id))),
                                ),
                            );
                        }
                    }
                    Turn::Done(None)
                },
                KeyCode::Esc => {
                    self.clean_search();
                    self.change_state(State::Friends);
                    Turn::Done(None)
                },
                _ => Turn::Done(None),
            },
            State::FriendReq => match key.code {
                KeyCode::Char(c) => {
                    if c == 'e' {
                        self.change_state(State::Search);
                        select(&mut self.friend_req_list_state, None);
                    }
                    Turn::Done(None)
                },
                KeyCode::Up => {
                    select_previous(&mut self.friend_req_list_state);
                    Turn::Done(None)
                },
                KeyCode::Down => {
                    select_next(&mut self.friend_req_list_state);
                    Turn::Done(None)
                },
                KeyCode::Left => {
                    select(&mut self.friend_req_list_state, None);
                    self.change_state(State::Friends);
                    Turn::Done(None)
                },
                KeyCode::Enter => {
                    if let Some(idx) = selected(&self.friend_req_list_state) {
                        if idx < self.friend_req_holder.friend_reqs.len() {
                            let request = &self.friend_req_holder.friend_reqs[idx];
                            let mut question = String::from_str("接受");
                            question.append(request.request_name.as_str());
                            question.append("的好友请求么？");
                            return Turn::Done(
                                Some(
                                    Action::Alert(
                                        question,
                                        Some(ConfirmEvent::ConfirmFriendReq(None)),
                                    ),
                                ),
                            );
                        }
                    }
                    Turn::Done(None)
                },
                _ => Turn::Done(None),
            },
        }
    }

    fn review_done(&mut self)
        ensures
            final(self)@ == old(self)@.review_done(),
    {
        select(&mut self.friend_req_list_state, None);
        self.friend_req_holder.need_fetch = true;
        self.friends_holder.need_fetch = true;
        self.change_state(State::Friends);
        self.pending = Pending::Idle;
    }

    fn add_friend_done(&mut self)
        ensures
            final(self)@ == old(self)@.add_friend_done(),
    {
        self.clean_search();
        self.change_state(State::Friends);
        select(&mut self.search_list_state, None);
        self.friend_req_holder.need_fetch = true;
        self.friends_holder.need_fetch = true;
        self.pending = Pending::Idle;
    }

    fn act(&mut self, me: Option<i32>, rest: Rest) -> (turn: Turn)
        ensures
            (final(self)@, turn@) == old(self)@.act(me, rest),
    {
        match rest {
            Rest::Nothing => {
                self.pending = Pending::Idle;
                Turn::Done(None)
            },
            Rest::AddFriend(friend_uid) => match me {
                Some(uid) => {
                    self.pending = Pending::AddFriend;
                    Turn::Call(Request::AddFriend { uid, friend_uid })
                },
                None => {
                    self.pending = Pending::Idle;
                    Turn::Done(None)
                },
            },
            Rest::Review(decision) => {
                if let Some(accept) = decision {
                    if let Some(idx) = selected(&self.friend_req_list_state) {
                        if idx < self.friend_req_holder.friend_reqs.len() {
                            let req_id = self.friend_req_holder.friend_reqs[idx].id;
                            self.pending = Pending::Review;
                            return Turn::Call(
                                Request::ReviewFriendReq {
                                    req_id,
                                    status: FriendRequestStatus::from_decision(accept),
                                },
                            );
                        }
                    }
                }
                self.review_done();
                Turn::Done(None)
            },
        }
    }

    fn from_friend_reqs(&mut self, mode: Mode, me: Option<i32>, rest: Rest) -> (turn: Turn)
        ensures
            (final(self)@, turn@) == old(self)@.from_friend_reqs(mode, me, rest),
    {
        let in_contact = match mode {
            Mode::Contact => true,
            _ => false,
        };
        if in_contact && self.friend_req_holder.need_fetch {
            self.friend_req_holder.need_fetch = false;
            self.pending = Pending::FriendReqs(rest);
            Turn::Call(Request::FriendReqs)
        } else {
            self.act(me, rest)
        }
    }

    /// Reacts to an action; see `ContactView::update`.
    pub fn update(&mut self, mode_holder: &ModeHolderLock, current_user: &CurrentUser, action: &Action) -> (turn:
        Turn)
        ensures
            (final(self)@, turn@) == old(self)@.update(
                mode_holder.mode(),
                current_user.spec_id(),
                action@,
            ),
    {
        let rest = match action {
            Action::Confirm(ConfirmEvent::AddFriend(friend_uid)) => Rest::AddFriend(*friend_uid),
            Action::Confirm(ConfirmEvent::ConfirmFriendReq(decision)) => Rest::Review(*decision),
            _ => Rest::Nothing,
        };
        let mode = mode_holder.get_mode();
        let in_contact = match mode {
            Mode::Contact => true,
            _ => false,
        };
        if in_contact && self.friends_holder.need_fetch {
            self.friends_holder.need_fetch = false;
            self.pending = Pending::Friends(rest);
            Turn::Call(Request::Friends)
        } else {
            self.from_friend_reqs(mode, current_user.id(), rest)
        }
    }

    /// Takes the backend's answer; see `ContactView::resume`.
    pub fn resume(&mut self, mode_holder: &ModeHolderLock, current_user: &CurrentUser, response: Response) -> (turn:
        Turn)
        ensures
            (final(self)@, turn@) == old(self)@.resume(
                mode_holder.mode(),
                current_user.spec_id(),
                response@,
            ),
    {
        let pending = self.pending;
        match (pending, response) {
            (Pending::Idle, _) => Turn::Done(None),
            (_, Response::Failed(reason)) => {
                self.pending = Pending::Idle;
                Turn::alert(reason)
            },
            (Pending::Friends(rest), Response::Friends(friends)) => {
                self.friends_holder.friends = friends;
                self.from_friend_reqs(mode_holder.get_mode(), current_user.id(), rest)
            },
            (Pending::FriendReqs(rest), Response::FriendReqs(reqs)) => {
                self.friend_req_holder.friend_reqs = sort_by_create_time(reqs);
                self.act(current_user.id(), rest)
            },
            (Pending::AddFriend, Response::Done) => {
                self.add_friend_done();
                Turn::Done(None)
            },
            (Pending::Review, Response::Done) => {
                self.review_done();
                Turn::Done(None)
            },
            (Pending::Search, Response::Users(users)) => {
                self.pending = Pending::Idle;
                self.search_result = to_search_results(users);
                self.change_state(State::AddFriend);
                Turn::Done(None)
            },
            _ => {
                self.pending = Pending::Idle;
                Turn::Done(None)
            },
        }
    }

    /// Records where the terminal cursor belongs while the search field or
    /// the users found have the keys, for a field drawn in `search_area`.
    pub fn place_cursor(&mut self, search_area: Rect)
        ensures
            final(self)@ == (if old(self).state == State::Search || old(self).state
                == State::AddFriend {
                old(self)@.with_input(old(self)@.user_input.set_cursor_position(search_area))
            } else {
                old(self)@
            }),
    {
        match self.state {
            State::Search | State::AddFriend => {
                self.user_input.set_cursor_position(search_area);
            },
            _ => {},
        }
    }

    /// Whether the screen is drawn in `mode`.
    pub fn is_visible(mode: Mode) -> (visible: bool)
        ensures
            visible == (mode == Mode::Contact),
    {
        match mode {
            Mode::Contact => true,
            _ => false,
        }
    }
}

} // verus!
