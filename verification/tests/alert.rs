use chat_tui::action::{Action, ConfirmEvent};
use chat_tui::app::{Mode, ModeHolderLock};
use chat_tui::components::alert::Alert;
use chat_tui::components::group_manager::ManageAction;
use chat_tui::key::{KeyCode, KeyEvent};

fn press(alert: &mut Alert, mode: &mut ModeHolderLock, code: KeyCode) -> Option<Action> {
    alert.handle_key_event(mode, KeyEvent::plain(code))
}

fn open(alert: &mut Alert, mode: &mut ModeHolderLock, msg: &str, confirm: Option<ConfirmEvent>) {
    assert_eq!(alert.update(mode, &Action::Alert(msg.to_string(), confirm)), None);
}

#[test]
fn new_alert_shows_the_default_banner() {
    let alert = Alert::new();
    assert_eq!(alert.msg, "欢迎使用Chat-Tui！");
    assert_eq!(alert.confirm_event, None);
    assert_eq!(alert.last_mode, None);
    assert_eq!(alert.list_state.selected(), None);
}

#[test]
fn alert_action_opens_the_overlay() {
    let mut alert = Alert::new();
    let mut mode = ModeHolderLock::new(Mode::Contact);
    open(&mut alert, &mut mode, "hello", Some(ConfirmEvent::AddFriend(7)));
    assert_eq!(mode.get_mode(), Mode::Alert);
    assert_eq!(alert.msg, "hello");
    assert_eq!(alert.confirm_event, Some(ConfirmEvent::AddFriend(7)));
    assert_eq!(alert.last_mode, Some(Mode::Contact));
}

#[test]
fn other_actions_leave_the_overlay_alone() {
    let mut alert = Alert::new();
    let mut mode = ModeHolderLock::new(Mode::Contact);
    assert_eq!(alert.update(&mut mode, &Action::Tick), None);
    assert_eq!(alert.update(&mut mode, &Action::Error("x".to_string())), None);
    assert_eq!(mode.get_mode(), Mode::Contact);
    assert_eq!(alert, Alert::new());
}

#[test]
fn esc_restores_the_mode_the_alert_opened_from() {
    let mut alert = Alert::new();
    let mut mode = ModeHolderLock::new(Mode::Contact);
    open(&mut alert, &mut mode, "oops", None);
    assert_eq!(press(&mut alert, &mut mode, KeyCode::Esc), None);
    assert_eq!(mode.get_mode(), Mode::Contact);
    assert_eq!(alert, Alert::new());
}

#[test]
fn esc_restores_the_mode_after_an_earlier_alert_was_closed() {
    let mut alert = Alert::new();
    let mut mode = ModeHolderLock::new(Mode::Login);
    open(&mut alert, &mut mode, "first", None);
    press(&mut alert, &mut mode, KeyCode::Esc);
    assert_eq!(mode.get_mode(), Mode::Login);
    mode.set_mode(Mode::Contact);
    open(&mut alert, &mut mode, "second", Some(ConfirmEvent::InviteFriend));
    assert_eq!(press(&mut alert, &mut mode, KeyCode::Esc), None);
    assert_eq!(mode.get_mode(), Mode::Contact);
}

#[test]
fn second_alert_without_close_keeps_the_first_mode() {
    let mut alert = Alert::new();
    let mut mode = ModeHolderLock::new(Mode::Contact);
    open(&mut alert, &mut mode, "first", None);
    assert_eq!(mode.get_mode(), Mode::Alert);
    open(&mut alert, &mut mode, "second", None);
    assert_eq!(alert.last_mode, Some(Mode::Contact));
    assert_eq!(alert.msg, "second");
    press(&mut alert, &mut mode, KeyCode::Esc);
    assert_eq!(mode.get_mode(), Mode::Contact);
}

#[test]
fn second_alert_keeps_a_waiting_confirm_event() {
    let mut alert = Alert::new();
    let mut mode = ModeHolderLock::new(Mode::Contact);
    open(&mut alert, &mut mode, "first", Some(ConfirmEvent::AddFriend(1)));
    open(&mut alert, &mut mode, "second", Some(ConfirmEvent::AddFriend(2)));
    assert_eq!(alert.confirm_event, Some(ConfirmEvent::AddFriend(1)));
    let mut plain = Alert::new();
    open(&mut plain, &mut mode, "first", None);
    open(&mut plain, &mut mode, "second", Some(ConfirmEvent::InviteFriend));
    assert_eq!(plain.confirm_event, Some(ConfirmEvent::InviteFriend));
}

#[test]
fn enter_on_plain_alert_closes_without_confirm() {
    let mut alert = Alert::new();
    let mut mode = ModeHolderLock::new(Mode::GroupManager);
    open(&mut alert, &mut mode, "您不是管理员，无法操作", None);
    assert_eq!(press(&mut alert, &mut mode, KeyCode::Enter), None);
    assert_eq!(mode.get_mode(), Mode::GroupManager);
    assert_eq!(alert, Alert::new());
}

#[test]
fn any_key_closes_a_plain_alert() {
    let mut alert = Alert::new();
    let mut mode = ModeHolderLock::new(Mode::Chat);
    open(&mut alert, &mut mode, "info", None);
    assert_eq!(press(&mut alert, &mut mode, KeyCode::Char('x')), None);
    assert_eq!(mode.get_mode(), Mode::Chat);
}

#[test]
fn enter_confirms_the_carried_event() {
    for event in [
        ConfirmEvent::InviteFriend,
        ConfirmEvent::AddFriend(42),
        ConfirmEvent::ConfirmFriendReq(None),
        ConfirmEvent::ConfirmFriendReq(Some(true)),
        ConfirmEvent::GroupManage(Some(ManageAction::Forbid)),
    ] {
        let mut alert = Alert::new();
        let mut mode = ModeHolderLock::new(Mode::Contact);
        open(&mut alert, &mut mode, "sure?", Some(event));
        assert_eq!(press(&mut alert, &mut mode, KeyCode::Char('x')), None);
        assert_eq!(mode.get_mode(), Mode::Alert);
        assert_eq!(press(&mut alert, &mut mode, KeyCode::Enter), Some(Action::Confirm(event)));
        assert_eq!(mode.get_mode(), Mode::Contact);
        assert_eq!(alert, Alert::new());
    }
}

#[test]
fn esc_never_confirms() {
    let mut alert = Alert::new();
    let mut mode = ModeHolderLock::new(Mode::Contact);
    open(&mut alert, &mut mode, "sure?", Some(ConfirmEvent::AddFriend(42)));
    assert_eq!(press(&mut alert, &mut mode, KeyCode::Esc), None);
    assert_eq!(mode.get_mode(), Mode::Contact);
}

#[test]
fn management_menu_confirms_the_selected_action() {
    let mut alert = Alert::new();
    let mut mode = ModeHolderLock::new(Mode::GroupManager);
    open(&mut alert, &mut mode, "你希望将bob:", Some(ConfirmEvent::GroupManage(None)));
    assert!(alert.shows_menu());
    assert_eq!(press(&mut alert, &mut mode, KeyCode::Down), None);
    assert_eq!(alert.list_state.selected(), Some(0));
    press(&mut alert, &mut mode, KeyCode::Down);
    press(&mut alert, &mut mode, KeyCode::Down);
    assert_eq!(alert.list_state.selected(), Some(2));
    press(&mut alert, &mut mode, KeyCode::Up);
    assert_eq!(alert.list_state.selected(), Some(1));
    assert_eq!(
        press(&mut alert, &mut mode, KeyCode::Enter),
        Some(Action::Confirm(ConfirmEvent::GroupManage(Some(ManageAction::Forbid))))
    );
    assert_eq!(mode.get_mode(), Mode::GroupManager);
    assert_eq!(alert.list_state.selected(), None);
}

#[test]
fn management_menu_without_selection_closes_silently() {
    let mut alert = Alert::new();
    let mut mode = ModeHolderLock::new(Mode::GroupManager);
    open(&mut alert, &mut mode, "pick", Some(ConfirmEvent::GroupManage(None)));
    assert_eq!(press(&mut alert, &mut mode, KeyCode::Enter), None);
    assert_eq!(mode.get_mode(), Mode::GroupManager);
}

#[test]
fn management_menu_selection_past_the_menu_confirms_nothing() {
    let mut alert = Alert::new();
    let mut mode = ModeHolderLock::new(Mode::GroupManager);
    open(&mut alert, &mut mode, "pick", Some(ConfirmEvent::GroupManage(None)));
    press(&mut alert, &mut mode, KeyCode::Up);
    assert_eq!(alert.list_state.selected(), Some(usize::MAX));
    assert_eq!(press(&mut alert, &mut mode, KeyCode::Enter), None);
    assert_eq!(mode.get_mode(), Mode::GroupManager);
}

#[test]
fn keys_are_ignored_outside_alert_mode() {
    let mut alert = Alert::new();
    let mut mode = ModeHolderLock::new(Mode::Contact);
    open(&mut alert, &mut mode, "sure?", Some(ConfirmEvent::InviteFriend));
    mode.set_mode(Mode::Chat);
    assert_eq!(press(&mut alert, &mut mode, KeyCode::Enter), None);
    assert_eq!(mode.get_mode(), Mode::Chat);
    assert_eq!(alert.confirm_event, Some(ConfirmEvent::InviteFriend));
}

#[test]
fn close_without_remembered_mode_keeps_the_mode() {
    let mut alert = Alert::new();
    let mut mode = ModeHolderLock::new(Mode::Alert);
    assert_eq!(press(&mut alert, &mut mode, KeyCode::Esc), None);
    assert_eq!(mode.get_mode(), Mode::Alert);
}

#[test]
fn alert_is_visible_in_alert_mode_only() {
    assert!(Alert::is_visible(Mode::Alert));
    assert!(!Alert::is_visible(Mode::Contact));
    assert!(!Alert::new().shows_menu());
}

#[test]
fn manage_action_menu_order_and_labels() {
    assert_eq!(
        ManageAction::all(),
        vec![
            ManageAction::Evict,
            ManageAction::Forbid,
            ManageAction::UnForbid,
            ManageAction::SetManager
        ]
    );
    assert_eq!(ManageAction::from_repr(0), Some(ManageAction::Evict));
    assert_eq!(ManageAction::from_repr(3), Some(ManageAction::SetManager));
    assert_eq!(ManageAction::from_repr(4), None);
    assert_eq!(ManageAction::UnForbid.repr(), 2);
    assert_eq!(ManageAction::Evict.label(), "移出群聊");
    assert_eq!(ManageAction::Forbid.label(), "禁言🤐");
    assert_eq!(ManageAction::UnForbid.label(), "解除禁言😄");
    assert_eq!(ManageAction::SetManager.label(), "设为管理员");
}
