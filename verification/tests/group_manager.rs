use chat_tui::action::{Action, ConfirmEvent};
use chat_tui::app::{Mode, ModeHolderLock};
use chat_tui::components::area_util::{Position, Rect};
use chat_tui::components::group_manager::{GroupManager, ManageAction, Pending, State};
use chat_tui::key::{KeyCode, KeyEvent};
use chat_tui::proxy::friend::Friend;
use chat_tui::proxy::group::{DetailRes, GroupUser};
use chat_tui::proxy::{Request, Response, Turn};
use chat_tui::token::{CurrentUser, Role, User};

fn user(id: i32, name: &str) -> CurrentUser {
    CurrentUser {
        user: Some(User {
            id,
            name: name.to_string(),
            email: None,
            phone: None,
            role: Role::User,
            exp: 0,
        }),
        token: Some("t".to_string()),
    }
}

fn member(id: i32, name: &str, admin: bool) -> GroupUser {
    GroupUser { id, name: name.to_string(), admin, forbid: false }
}

fn roster() -> DetailRes {
    DetailRes {
        group_id: 5,
        name: "team".to_string(),
        users: vec![member(1, "alice", true), member(7, "bob", false), member(8, "dave", false)],
    }
}

fn friends() -> Vec<Friend> {
    vec![
        Friend { id: 7, name: "bob".to_string() },
        Friend { id: 9, name: "greg".to_string() },
        Friend { id: 10, name: "gregor".to_string() },
    ]
}

/// A manager with group 5 opened and its roster fetched.
fn opened() -> (GroupManager, ModeHolderLock) {
    let mut manager = GroupManager::new();
    let mut mode = ModeHolderLock::new(Mode::Chat);
    assert_eq!(manager.update(&mut mode, &Action::Group(5)), Turn::Call(Request::GroupDetail { gid: 5 }));
    assert_eq!(mode.get_mode(), Mode::GroupManager);
    assert_eq!(manager.gid, Some(5));
    assert_eq!(manager.resume(Response::GroupDetail(roster())), Turn::Done(None));
    (manager, mode)
}

/// A manager in the invite state with the friends fetched.
fn inviting() -> (GroupManager, ModeHolderLock) {
    let (mut manager, mut mode) = opened();
    assert_eq!(
        manager.handle_key_event(&mut mode, &user(1, "alice"), KeyEvent::plain(KeyCode::Char('e'))),
        Turn::Call(Request::Friends)
    );
    assert_eq!(manager.resume(Response::Friends(friends())), Turn::Done(None));
    (manager, mode)
}

fn press(manager: &mut GroupManager, mode: &mut ModeHolderLock, me: &CurrentUser, code: KeyCode) -> Turn {
    manager.handle_key_event(mode, me, KeyEvent::plain(code))
}

#[test]
fn new_group_manager_views_an_empty_roster() {
    let manager = GroupManager::new();
    assert_eq!(manager.gid, None);
    assert_eq!(manager.detail, DetailRes { group_id: 0, name: "".to_string(), users: vec![] });
    assert_eq!(manager.state, State::GroupDetail);
    assert_eq!(manager.pending, Pending::Idle);
    assert_eq!(manager.user_input.input_data.label(), "Press e To Invite Friend To Join Group");
}

#[test]
fn group_action_opens_the_manager() {
    let (manager, mode) = opened();
    assert_eq!(manager.detail, roster());
    assert_eq!(manager.pending, Pending::Idle);
    assert_eq!(mode.get_mode(), Mode::GroupManager);
}

#[test]
fn non_admin_enter_raises_a_plain_alert() {
    let (mut manager, mut mode) = opened();
    let bob = user(7, "bob");
    press(&mut manager, &mut mode, &bob, KeyCode::Down);
    assert_eq!(
        press(&mut manager, &mut mode, &bob, KeyCode::Enter),
        Turn::Done(Some(Action::Alert("您不是管理员，无法操作".to_string(), None)))
    );
    assert_eq!(
        press(&mut manager, &mut mode, &CurrentUser::new(), KeyCode::Enter),
        Turn::Done(Some(Action::Alert("您不是管理员，无法操作".to_string(), None)))
    );
    assert_eq!(mode.get_mode(), Mode::GroupManager);
}

#[test]
fn admin_enter_offers_the_management_menu() {
    let (mut manager, mut mode) = opened();
    let alice = user(1, "alice");
    assert!(manager.is_admin(1));
    assert!(!manager.is_admin(7));
    assert!(!manager.is_admin(99));
    assert_eq!(press(&mut manager, &mut mode, &alice, KeyCode::Enter), Turn::Done(None));
    press(&mut manager, &mut mode, &alice, KeyCode::Down);
    press(&mut manager, &mut mode, &alice, KeyCode::Down);
    assert_eq!(
        press(&mut manager, &mut mode, &alice, KeyCode::Enter),
        Turn::Done(Some(Action::Alert(
            "你希望将bob:".to_string(),
            Some(ConfirmEvent::GroupManage(None))
        )))
    );
    press(&mut manager, &mut mode, &alice, KeyCode::Up);
    assert_eq!(manager.group_members_list_state.selected(), Some(0));
    for _ in 0..5 {
        press(&mut manager, &mut mode, &alice, KeyCode::Down);
    }
    assert_eq!(press(&mut manager, &mut mode, &alice, KeyCode::Enter), Turn::Done(None));
}

#[test]
fn confirmed_management_action_is_dispatched_and_roster_refetched() {
    let (mut manager, mut mode) = opened();
    let alice = user(1, "alice");
    press(&mut manager, &mut mode, &alice, KeyCode::Down);
    press(&mut manager, &mut mode, &alice, KeyCode::Down);
    let turn = manager.update(
        &mut mode,
        &Action::Confirm(ConfirmEvent::GroupManage(Some(ManageAction::Forbid))),
    );
    assert_eq!(turn, Turn::Call(Request::Manage { action: ManageAction::Forbid, gid: 5, uid: 7 }));
    assert_eq!(manager.resume(Response::Done), Turn::Call(Request::GroupDetail { gid: 5 }));
    let changed = DetailRes {
        group_id: 5,
        name: "team".to_string(),
        users: vec![
            member(1, "alice", true),
            GroupUser { id: 7, name: "bob".to_string(), admin: false, forbid: true },
        ],
    };
    assert_eq!(manager.resume(Response::GroupDetail(changed)), Turn::Done(None));
    assert_eq!(manager.detail.users.len(), 2);
    assert!(manager.detail.users[1].forbid);
    assert_eq!(manager.pending, Pending::Idle);
}

#[test]
fn management_action_without_selection_only_refetches() {
    let (mut manager, mut mode) = opened();
    let turn = manager.update(
        &mut mode,
        &Action::Confirm(ConfirmEvent::GroupManage(Some(ManageAction::Evict))),
    );
    assert_eq!(turn, Turn::Call(Request::GroupDetail { gid: 5 }));
    let mut unopened = GroupManager::new();
    assert_eq!(
        unopened.update(&mut mode, &Action::Confirm(ConfirmEvent::GroupManage(Some(ManageAction::Evict)))),
        Turn::Done(None)
    );
    assert_eq!(
        unopened.update(&mut mode, &Action::Confirm(ConfirmEvent::GroupManage(None))),
        Turn::Done(None)
    );
}

#[test]
fn failed_management_action_raises_an_alert() {
    let (mut manager, mut mode) = opened();
    let alice = user(1, "alice");
    press(&mut manager, &mut mode, &alice, KeyCode::Down);
    manager.update(&mut mode, &Action::Confirm(ConfirmEvent::GroupManage(Some(ManageAction::Evict))));
    assert_eq!(
        manager.resume(Response::Failed("forbidden".to_string())),
        Turn::Done(Some(Action::Alert("forbidden".to_string(), None)))
    );
    assert_eq!(manager.pending, Pending::Idle);
    assert_eq!(manager.detail, roster());
}

#[test]
fn e_pivots_to_inviting_and_fetches_friends() {
    let (mut manager, mut mode) = opened();
    let alice = user(1, "alice");
    press(&mut manager, &mut mode, &alice, KeyCode::Down);
    assert_eq!(press(&mut manager, &mut mode, &alice, KeyCode::Char('x')), Turn::Done(None));
    assert_eq!(press(&mut manager, &mut mode, &alice, KeyCode::Char('e')), Turn::Call(Request::Friends));
    assert_eq!(manager.state, State::InviteFriend);
    assert!(manager.user_input.is_editing);
    assert_eq!(manager.group_members_list_state.selected(), None);
    assert_eq!(manager.resume(Response::Friends(friends())), Turn::Done(None));
    assert_eq!(manager.friends, friends());
}

#[test]
fn friends_are_filtered_by_the_text_typed() {
    let (mut manager, mut mode) = inviting();
    let alice = user(1, "alice");
    assert_eq!(manager.shown_friends(), friends());
    for c in "gre".chars() {
        press(&mut manager, &mut mode, &alice, KeyCode::Char(c));
    }
    assert_eq!(
        manager.shown_friends(),
        vec![Friend { id: 9, name: "greg".to_string() }, Friend { id: 10, name: "gregor".to_string() }]
    );
    press(&mut manager, &mut mode, &alice, KeyCode::Char('x'));
    assert!(manager.shown_friends().is_empty());
    press(&mut manager, &mut mode, &alice, KeyCode::Backspace);
    press(&mut manager, &mut mode, &alice, KeyCode::Left);
    press(&mut manager, &mut mode, &alice, KeyCode::Right);
    assert_eq!(manager.shown_friends().len(), 2);
}

#[test]
fn enter_on_filtered_friend_asks_before_inviting() {
    let (mut manager, mut mode) = inviting();
    let alice = user(1, "alice");
    for c in "gre".chars() {
        press(&mut manager, &mut mode, &alice, KeyCode::Char(c));
    }
    assert_eq!(press(&mut manager, &mut mode, &alice, KeyCode::Enter), Turn::Done(None));
    press(&mut manager, &mut mode, &alice, KeyCode::Down);
    press(&mut manager, &mut mode, &alice, KeyCode::Down);
    assert_eq!(
        press(&mut manager, &mut mode, &alice, KeyCode::Enter),
        Turn::Done(Some(Action::Alert(
            "确定邀请gregor入群么？".to_string(),
            Some(ConfirmEvent::InviteFriend)
        )))
    );
    press(&mut manager, &mut mode, &alice, KeyCode::Down);
    assert_eq!(press(&mut manager, &mut mode, &alice, KeyCode::Enter), Turn::Done(None));
    press(&mut manager, &mut mode, &alice, KeyCode::Up);
    assert_eq!(manager.friends_list_state.selected(), Some(1));
}

#[test]
fn confirmed_invite_invites_and_refetches_the_roster() {
    let (mut manager, mut mode) = inviting();
    let alice = user(1, "alice");
    for c in "gre".chars() {
        press(&mut manager, &mut mode, &alice, KeyCode::Char(c));
    }
    press(&mut manager, &mut mode, &alice, KeyCode::Down);
    mode.set_mode(Mode::Alert);
    let turn = manager.update(&mut mode, &Action::Confirm(ConfirmEvent::InviteFriend));
    assert_eq!(turn, Turn::Call(Request::Invite { uid: 9, gid: 5 }));
    assert_eq!(mode.get_mode(), Mode::GroupManager);
    assert_eq!(manager.state, State::InviteFriend);
    assert_eq!(manager.resume(Response::Done), Turn::Call(Request::GroupDetail { gid: 5 }));
    assert_eq!(manager.state, State::GroupDetail);
    assert!(!manager.user_input.is_editing);
    assert_eq!(manager.resume(Response::GroupDetail(roster())), Turn::Done(None));
}

#[test]
fn failed_invite_raises_an_alert_and_keeps_the_state() {
    let (mut manager, mut mode) = inviting();
    let alice = user(1, "alice");
    press(&mut manager, &mut mode, &alice, KeyCode::Down);
    manager.update(&mut mode, &Action::Confirm(ConfirmEvent::InviteFriend));
    assert_eq!(
        manager.resume(Response::Failed("full".to_string())),
        Turn::Done(Some(Action::Alert("full".to_string(), None)))
    );
    assert_eq!(manager.state, State::InviteFriend);
}

#[test]
fn invite_without_selection_returns_to_the_roster() {
    let (mut manager, mut mode) = inviting();
    let turn = manager.update(&mut mode, &Action::Confirm(ConfirmEvent::InviteFriend));
    assert_eq!(turn, Turn::Call(Request::GroupDetail { gid: 5 }));
    assert_eq!(manager.state, State::GroupDetail);
}

#[test]
fn esc_in_invite_returns_to_the_roster_and_clears_the_field() {
    let (mut manager, mut mode) = inviting();
    let alice = user(1, "alice");
    press(&mut manager, &mut mode, &alice, KeyCode::Char('g'));
    press(&mut manager, &mut mode, &alice, KeyCode::Down);
    assert_eq!(press(&mut manager, &mut mode, &alice, KeyCode::Esc), Turn::Done(None));
    assert_eq!(manager.state, State::GroupDetail);
    assert_eq!(manager.user_input.input, None);
    assert!(!manager.user_input.is_editing);
    assert_eq!(manager.friends_list_state.selected(), None);
    assert_eq!(mode.get_mode(), Mode::GroupManager);
}

#[test]
fn esc_over_the_roster_leads_back_to_chat() {
    let (mut manager, mut mode) = opened();
    let alice = user(1, "alice");
    press(&mut manager, &mut mode, &alice, KeyCode::Down);
    press(&mut manager, &mut mode, &alice, KeyCode::Esc);
    assert_eq!(mode.get_mode(), Mode::Chat);
    assert_eq!(manager.group_members_list_state.selected(), None);
}

#[test]
fn group_manager_ignores_keys_in_other_modes() {
    let (mut manager, _) = opened();
    let mut mode = ModeHolderLock::new(Mode::Chat);
    assert_eq!(press(&mut manager, &mut mode, &user(1, "alice"), KeyCode::Enter), Turn::Done(None));
    press(&mut manager, &mut mode, &user(1, "alice"), KeyCode::Down);
    assert_eq!(manager.group_members_list_state.selected(), None);
    assert_eq!(mode.get_mode(), Mode::Chat);
}

#[test]
fn unexpected_response_is_ignored_by_group_manager() {
    let (mut manager, _) = opened();
    assert_eq!(manager.resume(Response::Friends(friends())), Turn::Done(None));
    assert!(manager.friends.is_empty());
    assert_eq!(manager.resume(Response::Failed("x".to_string())), Turn::Done(None));
}

#[test]
fn group_manager_cursor_is_placed_while_inviting() {
    let (mut manager, mut mode) = opened();
    manager.place_cursor(Rect::new(4, 4, 10, 3));
    assert_eq!(manager.user_input.cursor_position, None);
    press(&mut manager, &mut mode, &user(1, "alice"), KeyCode::Char('e'));
    manager.place_cursor(Rect::new(4, 4, 10, 3));
    assert_eq!(manager.user_input.cursor(), Some(Position::new(5, 5)));
    assert!(GroupManager::is_visible(Mode::GroupManager));
    assert!(!GroupManager::is_visible(Mode::Chat));
}
