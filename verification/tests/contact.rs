use chat_tui::action::{Action, ConfirmEvent};
use chat_tui::app::{Mode, ModeHolderLock};
use chat_tui::components::area_util::{Position, Rect};
use chat_tui::components::contact::{
    Contact, FriendReqHolder, FriendSearchRes, Pending, Rest, State, ToChat,
};
use chat_tui::key::{KeyCode, KeyEvent};
use chat_tui::proxy::friend::{sort_by_create_time, Friend, FriendReq, FriendRequestStatus};
use chat_tui::proxy::user::UserDetail;
use chat_tui::proxy::{Request, Response, Turn};
use chat_tui::token::{CurrentUser, Role, User};

fn friend(id: i32, name: &str) -> Friend {
    Friend { id, name: name.to_string() }
}

fn request(id: i32, name: &str, create_time: i64, status: FriendRequestStatus) -> FriendReq {
    FriendReq {
        id,
        request_id: id + 100,
        request_name: name.to_string(),
        create_time,
        reason: None,
        status,
    }
}

fn detail(id: i32, name: &str, is_friend: bool) -> UserDetail {
    UserDetail {
        id,
        name: name.to_string(),
        email: None,
        phone: None,
        create_time: 1,
        update_time: None,
        status: "ok".to_string(),
        is_friend,
    }
}

fn alice() -> CurrentUser {
    CurrentUser {
        user: Some(User {
            id: 1,
            name: "alice".to_string(),
            email: None,
            phone: None,
            role: Role::User,
            exp: 0,
        }),
        token: Some("t".to_string()),
    }
}

fn contact_mode() -> ModeHolderLock {
    ModeHolderLock::new(Mode::Contact)
}

fn press(contact: &mut Contact, code: KeyCode) -> Turn {
    contact.handle_key_event(&contact_mode(), KeyEvent::plain(code))
}

/// A contact screen whose lists were fetched.
fn loaded() -> Contact {
    let mut contact = Contact::new();
    let mode = contact_mode();
    assert_eq!(contact.update(&mode, &alice(), &Action::Tick), Turn::Call(Request::Friends));
    assert_eq!(
        contact.resume(&mode, &alice(), Response::Friends(vec![friend(7, "bob"), friend(8, "dave")])),
        Turn::Call(Request::FriendReqs)
    );
    assert_eq!(
        contact.resume(
            &mode,
            &alice(),
            Response::FriendReqs(vec![
                request(2, "erin", 300, FriendRequestStatus::WAIT),
                request(1, "frank", 200, FriendRequestStatus::APPROVE),
            ])
        ),
        Turn::Done(None)
    );
    contact
}

#[test]
fn new_contact_wants_both_lists() {
    let contact = Contact::new();
    assert!(contact.friends_holder.need_fetch);
    assert!(contact.friend_req_holder.need_fetch);
    assert_eq!(contact.state, State::Friends);
    assert_eq!(contact.pending, Pending::Idle);
    assert_eq!(contact.user_input.input_data.label(), "Press e To Search New Friend Here.");
}

#[test]
fn contact_fetches_friends_then_requests_in_contact_mode() {
    let contact = loaded();
    assert_eq!(contact.friends_holder.friends, vec![friend(7, "bob"), friend(8, "dave")]);
    assert_eq!(
        contact.friend_req_holder.friend_reqs,
        vec![
            request(1, "frank", 200, FriendRequestStatus::APPROVE),
            request(2, "erin", 300, FriendRequestStatus::WAIT),
        ]
    );
    assert!(!contact.friends_holder.need_fetch);
    assert!(!contact.friend_req_holder.need_fetch);
    assert_eq!(contact.pending, Pending::Idle);
}

#[test]
fn contact_fetches_nothing_in_other_modes() {
    let mut contact = Contact::new();
    let mode = ModeHolderLock::new(Mode::RecentChat);
    assert_eq!(contact.update(&mode, &alice(), &Action::Tick), Turn::Done(None));
    assert!(contact.friends_holder.need_fetch);
}

#[test]
fn loaded_contact_does_not_fetch_again() {
    let mut contact = loaded();
    assert_eq!(contact.update(&contact_mode(), &alice(), &Action::Tick), Turn::Done(None));
}

#[test]
fn failed_friend_fetch_raises_an_alert_and_is_not_repeated() {
    let mut contact = Contact::new();
    let mode = contact_mode();
    contact.update(&mode, &alice(), &Action::Tick);
    assert_eq!(
        contact.resume(&mode, &alice(), Response::Failed("down".to_string())),
        Turn::Done(Some(Action::Alert("down".to_string(), None)))
    );
    assert_eq!(contact.pending, Pending::Idle);
    assert!(!contact.friends_holder.need_fetch);
    assert_eq!(contact.update(&mode, &alice(), &Action::Tick), Turn::Call(Request::FriendReqs));
}

#[test]
fn enter_on_friend_emits_to_chat() {
    let mut contact = loaded();
    assert_eq!(press(&mut contact, KeyCode::Enter), Turn::Done(None));
    press(&mut contact, KeyCode::Down);
    assert_eq!(
        press(&mut contact, KeyCode::Enter),
        Turn::Done(Some(Action::ToChat(ToChat::User(7, "bob".to_string()))))
    );
    press(&mut contact, KeyCode::Down);
    assert_eq!(
        press(&mut contact, KeyCode::Enter),
        Turn::Done(Some(Action::ToChat(ToChat::User(8, "dave".to_string()))))
    );
    press(&mut contact, KeyCode::Down);
    assert_eq!(press(&mut contact, KeyCode::Enter), Turn::Done(None));
    press(&mut contact, KeyCode::Up);
    assert_eq!(contact.friend_list_state.selected(), Some(1));
}

#[test]
fn right_and_left_pivot_between_friends_and_requests() {
    let mut contact = loaded();
    press(&mut contact, KeyCode::Down);
    press(&mut contact, KeyCode::Right);
    assert_eq!(contact.state, State::FriendReq);
    assert_eq!(contact.friend_list_state.selected(), None);
    press(&mut contact, KeyCode::Down);
    press(&mut contact, KeyCode::Down);
    assert_eq!(contact.friend_req_list_state.selected(), Some(1));
    assert_eq!(
        press(&mut contact, KeyCode::Enter),
        Turn::Done(Some(Action::Alert(
            "接受erin的好友请求么？".to_string(),
            Some(ConfirmEvent::ConfirmFriendReq(None))
        )))
    );
    press(&mut contact, KeyCode::Up);
    assert_eq!(contact.friend_req_list_state.selected(), Some(0));
    press(&mut contact, KeyCode::Left);
    assert_eq!(contact.state, State::Friends);
    assert_eq!(contact.friend_req_list_state.selected(), None);
}

#[test]
fn search_lands_in_add_friend_and_asks_before_adding() {
    let mut contact = loaded();
    press(&mut contact, KeyCode::Down);
    press(&mut contact, KeyCode::Char('e'));
    assert_eq!(contact.state, State::Search);
    assert!(contact.user_input.is_editing);
    assert_eq!(contact.friend_list_state.selected(), None);
    for c in "gregx".chars() {
        press(&mut contact, KeyCode::Char(c));
    }
    press(&mut contact, KeyCode::Backspace);
    press(&mut contact, KeyCode::Left);
    press(&mut contact, KeyCode::Right);
    assert_eq!(
        press(&mut contact, KeyCode::Enter),
        Turn::Call(Request::SearchUsers { name: "greg".to_string() })
    );
    assert_eq!(contact.pending, Pending::Search);
    assert_eq!(contact.state, State::Search);
    let turn = contact.resume(
        &contact_mode(),
        &alice(),
        Response::Users(vec![detail(9, "greg", false), detail(7, "gregor", true)]),
    );
    assert_eq!(turn, Turn::Done(None));
    assert_eq!(contact.state, State::AddFriend);
    assert!(!contact.user_input.is_editing);
    assert_eq!(
        contact.search_result,
        vec![
            FriendSearchRes { id: 9, name: "greg".to_string(), is_friend: false },
            FriendSearchRes { id: 7, name: "gregor".to_string(), is_friend: true },
        ]
    );
    assert_eq!(press(&mut contact, KeyCode::Enter), Turn::Done(None));
    press(&mut contact, KeyCode::Down);
    assert_eq!(
        press(&mut contact, KeyCode::Enter),
        Turn::Done(Some(Action::Alert(
            "要添加greg为好友么？".to_string(),
            Some(ConfirmEvent::AddFriend(9))
        )))
    );
    press(&mut contact, KeyCode::Down);
    press(&mut contact, KeyCode::Down);
    assert_eq!(press(&mut contact, KeyCode::Enter), Turn::Done(None));
    press(&mut contact, KeyCode::Up);
    assert_eq!(contact.search_list_state.selected(), Some(1));
}

#[test]
fn failed_search_raises_an_alert_and_stays_in_search() {
    let mut contact = loaded();
    press(&mut contact, KeyCode::Char('e'));
    press(&mut contact, KeyCode::Char('g'));
    press(&mut contact, KeyCode::Enter);
    assert_eq!(
        contact.resume(&contact_mode(), &alice(), Response::Failed("no backend".to_string())),
        Turn::Done(Some(Action::Alert("no backend".to_string(), None)))
    );
    assert_eq!(contact.state, State::Search);
    assert!(contact.user_input.is_editing);
    assert_eq!(contact.user_input.input, Some("g".to_string()));
    assert_eq!(contact.pending, Pending::Idle);
}

#[test]
fn enter_in_empty_search_field_does_nothing() {
    let mut contact = loaded();
    press(&mut contact, KeyCode::Char('e'));
    assert_eq!(press(&mut contact, KeyCode::Enter), Turn::Done(None));
    assert_eq!(contact.state, State::Search);
    assert_eq!(contact.pending, Pending::Idle);
}

#[test]
fn esc_cleans_the_search() {
    let mut contact = loaded();
    press(&mut contact, KeyCode::Char('e'));
    press(&mut contact, KeyCode::Char('g'));
    press(&mut contact, KeyCode::Enter);
    contact.resume(&contact_mode(), &alice(), Response::Users(vec![detail(9, "greg", false)]));
    press(&mut contact, KeyCode::Esc);
    assert_eq!(contact.state, State::Friends);
    assert!(contact.search_result.is_empty());
    assert_eq!(contact.user_input.input, None);
    assert_eq!(contact.user_input.data(), None);
    press(&mut contact, KeyCode::Char('e'));
    press(&mut contact, KeyCode::Char('x'));
    press(&mut contact, KeyCode::Esc);
    assert_eq!(contact.state, State::Friends);
    assert_eq!(contact.user_input.input, None);
    assert!(!contact.user_input.is_editing);
}

#[test]
fn confirmed_add_friend_calls_the_backend_and_returns_to_friends() {
    let mut contact = loaded();
    press(&mut contact, KeyCode::Char('e'));
    press(&mut contact, KeyCode::Char('g'));
    press(&mut contact, KeyCode::Enter);
    contact.resume(&contact_mode(), &alice(), Response::Users(vec![detail(9, "greg", false)]));
    press(&mut contact, KeyCode::Down);
    let turn = contact.update(
        &ModeHolderLock::new(Mode::Alert),
        &alice(),
        &Action::Confirm(ConfirmEvent::AddFriend(9)),
    );
    assert_eq!(turn, Turn::Call(Request::AddFriend { uid: 1, friend_uid: 9 }));
    assert_eq!(contact.pending, Pending::AddFriend);
    assert_eq!(contact.resume(&contact_mode(), &alice(), Response::Done), Turn::Done(None));
    assert_eq!(contact.state, State::Friends);
    assert!(contact.search_result.is_empty());
    assert_eq!(contact.user_input.input, None);
    assert_eq!(contact.search_list_state.selected(), None);
    assert!(contact.friends_holder.need_fetch);
    assert!(contact.friend_req_holder.need_fetch);
    assert_eq!(contact.pending, Pending::Idle);
}

#[test]
fn failed_add_friend_raises_an_alert_and_keeps_the_state() {
    let mut contact = loaded();
    press(&mut contact, KeyCode::Char('e'));
    press(&mut contact, KeyCode::Char('g'));
    press(&mut contact, KeyCode::Enter);
    contact.resume(&contact_mode(), &alice(), Response::Users(vec![detail(9, "greg", false)]));
    contact.update(&contact_mode(), &alice(), &Action::Confirm(ConfirmEvent::AddFriend(9)));
    assert_eq!(
        contact.resume(&contact_mode(), &alice(), Response::Failed("already friends".to_string())),
        Turn::Done(Some(Action::Alert("already friends".to_string(), None)))
    );
    assert_eq!(contact.state, State::AddFriend);
    assert_eq!(contact.search_result.len(), 1);
}

#[test]
fn add_friend_without_user_does_nothing() {
    let mut contact = loaded();
    let turn = contact.update(
        &contact_mode(),
        &CurrentUser::new(),
        &Action::Confirm(ConfirmEvent::AddFriend(9)),
    );
    assert_eq!(turn, Turn::Done(None));
}

#[test]
fn friend_request_decision_is_reviewed_and_lists_are_refetched() {
    let mut contact = loaded();
    press(&mut contact, KeyCode::Right);
    press(&mut contact, KeyCode::Down);
    press(&mut contact, KeyCode::Down);
    let turn = contact.update(
        &contact_mode(),
        &alice(),
        &Action::Confirm(ConfirmEvent::ConfirmFriendReq(Some(true))),
    );
    assert_eq!(
        turn,
        Turn::Call(Request::ReviewFriendReq { req_id: 2, status: FriendRequestStatus::APPROVE })
    );
    assert_eq!(contact.resume(&contact_mode(), &alice(), Response::Done), Turn::Done(None));
    assert_eq!(contact.state, State::Friends);
    assert_eq!(contact.friend_req_list_state.selected(), None);
    assert!(contact.friends_holder.need_fetch);
    assert!(contact.friend_req_holder.need_fetch);
    assert_eq!(contact.update(&contact_mode(), &alice(), &Action::Tick), Turn::Call(Request::Friends));
}

#[test]
fn friend_request_rejection_sends_reject() {
    let mut contact = loaded();
    press(&mut contact, KeyCode::Right);
    press(&mut contact, KeyCode::Down);
    let turn = contact.update(
        &contact_mode(),
        &alice(),
        &Action::Confirm(ConfirmEvent::ConfirmFriendReq(Some(false))),
    );
    assert_eq!(
        turn,
        Turn::Call(Request::ReviewFriendReq { req_id: 1, status: FriendRequestStatus::REJECT })
    );
}

#[test]
fn undecided_friend_request_only_refetches() {
    let mut contact = loaded();
    press(&mut contact, KeyCode::Right);
    press(&mut contact, KeyCode::Down);
    let turn = contact.update(
        &contact_mode(),
        &alice(),
        &Action::Confirm(ConfirmEvent::ConfirmFriendReq(None)),
    );
    assert_eq!(turn, Turn::Done(None));
    assert_eq!(contact.state, State::Friends);
    assert_eq!(contact.friend_req_list_state.selected(), None);
    assert!(contact.friends_holder.need_fetch && contact.friend_req_holder.need_fetch);
}

#[test]
fn confirm_is_carried_out_after_the_lists_were_fetched() {
    let mut contact = Contact::new();
    let mode = contact_mode();
    assert_eq!(
        contact.update(&mode, &alice(), &Action::Confirm(ConfirmEvent::AddFriend(9))),
        Turn::Call(Request::Friends)
    );
    assert_eq!(contact.pending, Pending::Friends(Rest::AddFriend(9)));
    assert_eq!(
        contact.resume(&mode, &alice(), Response::Friends(vec![])),
        Turn::Call(Request::FriendReqs)
    );
    assert_eq!(
        contact.resume(&mode, &alice(), Response::FriendReqs(vec![])),
        Turn::Call(Request::AddFriend { uid: 1, friend_uid: 9 })
    );
}

#[test]
fn contact_ignores_keys_in_other_modes() {
    let mut contact = loaded();
    let mode = ModeHolderLock::new(Mode::Chat);
    assert_eq!(contact.handle_key_event(&mode, KeyEvent::plain(KeyCode::Down)), Turn::Done(None));
    assert_eq!(contact.handle_key_event(&mode, KeyEvent::plain(KeyCode::Char('e'))), Turn::Done(None));
    assert_eq!(contact.friend_list_state.selected(), None);
    assert_eq!(contact.state, State::Friends);
}

#[test]
fn unexpected_response_is_ignored_by_contact() {
    let mut contact = loaded();
    assert_eq!(contact.resume(&contact_mode(), &alice(), Response::Friends(vec![])), Turn::Done(None));
    assert_eq!(contact.friends_holder.friends.len(), 2);
    press(&mut contact, KeyCode::Char('e'));
    press(&mut contact, KeyCode::Char('g'));
    press(&mut contact, KeyCode::Enter);
    assert_eq!(contact.resume(&contact_mode(), &alice(), Response::Done), Turn::Done(None));
    assert_eq!(contact.pending, Pending::Idle);
    assert_eq!(contact.state, State::Search);
}

#[test]
fn has_new_friend_reqs_looks_for_waiting_requests() {
    let none = FriendReqHolder { need_fetch: false, friend_reqs: vec![] };
    assert!(!none.has_new_friend_reqs());
    let decided = FriendReqHolder {
        need_fetch: false,
        friend_reqs: vec![
            request(1, "a", 1, FriendRequestStatus::APPROVE),
            request(2, "b", 2, FriendRequestStatus::REJECT),
        ],
    };
    assert!(!decided.has_new_friend_reqs());
    let waiting = FriendReqHolder {
        need_fetch: false,
        friend_reqs: vec![
            request(1, "a", 1, FriendRequestStatus::APPROVE),
            request(2, "b", 2, FriendRequestStatus::WAIT),
        ],
    };
    assert!(waiting.has_new_friend_reqs());
}

#[test]
fn friend_requests_are_sorted_by_time_and_stay_stable() {
    let sorted = sort_by_create_time(vec![
        request(1, "c", 30, FriendRequestStatus::WAIT),
        request(2, "a", 10, FriendRequestStatus::WAIT),
        request(3, "b", 20, FriendRequestStatus::WAIT),
        request(4, "a2", 10, FriendRequestStatus::WAIT),
        request(5, "z", -5, FriendRequestStatus::WAIT),
    ]);
    let ids: Vec<i32> = sorted.iter().map(|r| r.id).collect();
    assert_eq!(ids, vec![5, 2, 4, 3, 1]);
    assert!(sort_by_create_time(vec![]).is_empty());
}

#[test]
fn friend_request_status_labels() {
    assert_eq!(FriendRequestStatus::WAIT.label(), "等待处理");
    assert_eq!(FriendRequestStatus::APPROVE.label(), "已通过");
    assert_eq!(FriendRequestStatus::REJECT.label(), "已拒绝");
    assert_eq!(FriendRequestStatus::from_decision(true), FriendRequestStatus::APPROVE);
    assert_eq!(FriendRequestStatus::from_decision(false), FriendRequestStatus::REJECT);
}

#[test]
fn contact_cursor_is_placed_while_searching() {
    let mut contact = loaded();
    contact.place_cursor(Rect::new(0, 0, 10, 3));
    assert_eq!(contact.user_input.cursor_position, None);
    press(&mut contact, KeyCode::Char('e'));
    press(&mut contact, KeyCode::Char('g'));
    contact.place_cursor(Rect::new(0, 0, 10, 3));
    assert_eq!(contact.user_input.cursor(), Some(Position::new(2, 1)));
    assert!(Contact::is_visible(Mode::Contact));
    assert!(!Contact::is_visible(Mode::Chat));
}
