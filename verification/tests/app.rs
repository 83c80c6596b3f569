use chat_tui::action::{Action, ConfirmEvent};
use chat_tui::app::{App, Effect, Event, Frame, Mode, TerminalOp, Work};
use chat_tui::components::chat::{ChatHistory, UpdateReadIndex, UserHistoryMsg};
use chat_tui::components::contact::State;
use chat_tui::components::event::{
    ChatMessage, ChatMessagePayload, MessageContent, MessageDetail, MessageNormal, MessageTarget,
    MessageTargetUser,
};
use chat_tui::components::navigation::NavigationItem;
use chat_tui::components::recent_chat::ChatVo;
use chat_tui::key::{KeyCode, KeyEvent, KeyModifiers};
use chat_tui::keymap::KeyBindings;
use chat_tui::proxy::friend::Friend;
use chat_tui::proxy::{Request, Response};
use chat_tui::token::{CurrentUser, Role, User};

fn ctrl(c: char) -> KeyEvent {
    KeyEvent::new(KeyCode::Char(c), KeyModifiers { shift: false, control: true, alt: false })
}

fn bindings() -> KeyBindings {
    let mut keymap = KeyBindings::new();
    keymap.bind(Mode::Login, vec![ctrl('s')], Action::Submit);
    keymap.bind(Mode::Login, vec![ctrl('r')], Action::Register);
    for mode in [Mode::RecentChat, Mode::Contact, Mode::Setting] {
        keymap.bind(mode, vec![KeyEvent::plain(KeyCode::Tab)], Action::NextTab);
        keymap.bind(
            mode,
            vec![KeyEvent::plain(KeyCode::Char('g')), KeyEvent::plain(KeyCode::Char('h'))],
            Action::Help,
        );
    }
    for mode in [Mode::Login, Mode::RecentChat, Mode::Contact, Mode::Chat] {
        keymap.bind(mode, vec![ctrl('c')], Action::Quit);
        keymap.bind(mode, vec![ctrl('z')], Action::Suspend);
    }
    keymap
}

fn alice() -> User {
    User { id: 1, name: "alice".to_string(), email: None, phone: None, role: Role::User, exp: 99 }
}

fn bob_row() -> ChatVo {
    ChatVo::User {
        uid: 7,
        user_name: "bob".to_string(),
        mid: 3,
        msg: "hi".to_string(),
        msg_time: 100,
        unread: Some("2".to_string()),
    }
}

/// A backend that answers every request in the way a healthy server would.
fn healthy(request: &Request) -> Response {
    match request {
        Request::Login { name, password } => {
            if name == "alice" && password == "secret" {
                Response::Token("tok".to_string())
            } else {
                Response::Failed("用户名或密码错误".to_string())
            }
        }
        Request::Register { .. } => Response::Registered(12),
        Request::ParseToken { .. } => Response::Claims(alice()),
        Request::RecentChats => Response::RecentChats(vec![bob_row()]),
        Request::Friends => Response::Friends(vec![Friend { id: 7, name: "bob".to_string() }]),
        Request::FriendReqs => Response::FriendReqs(vec![]),
        Request::UserHistory { .. } => Response::UserHistory(vec![UserHistoryMsg {
            mid: 3,
            msg: "hi".to_string(),
            time: 100,
            from_uid: 7,
            from_name: "bob".to_string(),
        }]),
        Request::GroupHistory { .. } => Response::GroupHistory(vec![]),
        Request::SearchUsers { .. } => Response::Users(vec![]),
        Request::GroupDetail { .. } => Response::Failed("no such group".to_string()),
        _ => Response::Done,
    }
}

/// Steps until the pass is drained; returns the requests in the order in
/// which they were handed out, and the frame.
fn drain(app: &mut App, backend: fn(&Request) -> Response) -> (Vec<Request>, Frame) {
    let mut requests = Vec::new();
    let mut effect = app.step();
    for _ in 0..10_000 {
        effect = match effect {
            Effect::Drained(frame) => return (requests, frame),
            Effect::Call(request) => {
                let response = backend(&request);
                requests.push(request);
                app.resume(response)
            }
            Effect::Send(request) => {
                requests.push(request);
                app.step()
            }
            Effect::Continue => app.step(),
            Effect::Waiting => panic!("a screen waits though every call was answered"),
        };
    }
    panic!("the pass did not drain");
}

fn press(app: &mut App, code: KeyCode) -> (Vec<Request>, Frame) {
    app.handle_events(Event::Key(KeyEvent::plain(code)));
    drain(app, healthy)
}

fn type_text(app: &mut App, text: &str) {
    for c in text.chars() {
        press(app, KeyCode::Char(c));
    }
}

fn logged_in() -> App {
    let mut app = App::new(bindings());
    press(&mut app, KeyCode::Char('e'));
    type_text(&mut app, "alice");
    press(&mut app, KeyCode::Enter);
    type_text(&mut app, "secret");
    press(&mut app, KeyCode::Enter);
    app
}

#[test]
fn new_app_starts_at_login_with_nothing_to_do() {
    let mut app = App::new(bindings());
    assert_eq!(app.mode.get_mode(), Mode::Login);
    assert_eq!(app.current_user.get_user(), CurrentUser::new());
    assert_eq!(app.step(), Effect::Drained(Frame { ops: vec![], suspend: false, quit: false }));
    assert_eq!(app.step(), Effect::Drained(Frame { ops: vec![], suspend: false, quit: false }));
}

#[test]
fn login_scenario_ends_in_recent_chat_with_user_and_conversations() {
    let mut app = App::new(bindings());
    press(&mut app, KeyCode::Char('e'));
    type_text(&mut app, "alice");
    press(&mut app, KeyCode::Enter);
    type_text(&mut app, "secret");
    let (requests, frame) = press(&mut app, KeyCode::Enter);
    assert_eq!(
        requests,
        vec![
            Request::Login { name: "alice".to_string(), password: "secret".to_string() },
            Request::ParseToken { token: "tok".to_string() },
            Request::StartRenewal,
            Request::RecentChats,
        ]
    );
    assert_eq!(frame, Frame { ops: vec![], suspend: false, quit: false });
    assert_eq!(app.mode.get_mode(), Mode::RecentChat);
    assert_eq!(
        app.current_user.get_user(),
        CurrentUser { user: Some(alice()), token: Some("tok".to_string()) }
    );
    assert_eq!(app.recent_chat.chat_vos, vec![bob_row()]);
    assert!(app.event.need_fetch);
    assert!(app.login.renewing);
}

#[test]
fn submit_binding_logs_in_too() {
    let mut app = App::new(bindings());
    app.login.user_name_input.input_data.set_input(Some("alice".to_string()));
    app.login.password_input.input_data.set_input(Some("secret".to_string()));
    app.handle_events(Event::Key(ctrl('s')));
    let (requests, _) = drain(&mut app, healthy);
    assert_eq!(requests.len(), 4);
    assert_eq!(app.mode.get_mode(), Mode::RecentChat);
}

#[test]
fn wrong_password_ends_in_an_alert_over_login() {
    let mut app = App::new(bindings());
    press(&mut app, KeyCode::Char('e'));
    type_text(&mut app, "alice");
    press(&mut app, KeyCode::Enter);
    type_text(&mut app, "wrong");
    let (requests, _) = press(&mut app, KeyCode::Enter);
    assert_eq!(
        requests,
        vec![Request::Login { name: "alice".to_string(), password: "wrong".to_string() }]
    );
    assert_eq!(app.mode.get_mode(), Mode::Alert);
    assert_eq!(app.alert.msg, "用户名或密码错误");
    assert_eq!(app.alert.last_mode, Some(Mode::Login));
    press(&mut app, KeyCode::Esc);
    assert_eq!(app.mode.get_mode(), Mode::Login);
    assert_eq!(app.current_user.get_user(), CurrentUser::new());
}

#[test]
fn cascaded_action_is_handled_within_the_same_pass() {
    let mut app = App::new(bindings());
    app.handle_events(Event::Key(ctrl('s')));
    app.handle_events(Event::Render);
    let (requests, frame) = drain(&mut app, healthy);
    assert!(requests.is_empty());
    assert_eq!(frame.ops, vec![TerminalOp::Render]);
    assert_eq!(app.mode.get_mode(), Mode::Alert);
    assert_eq!(app.alert.msg, "请输入用户名和密码");
    assert!(app.queue.is_empty());
}

#[test]
fn terminal_operations_come_with_the_drained_pass_in_order() {
    let mut app = App::new(bindings());
    app.handle_events(Event::Resize(80, 24));
    app.handle_events(Event::Tick);
    app.handle_events(Event::Render);
    app.enqueue(Some(Action::ClearScreen));
    let mut steps = 0;
    loop {
        match app.step() {
            Effect::Continue => steps += 1,
            Effect::Drained(frame) => {
                assert_eq!(
                    frame.ops,
                    vec![TerminalOp::Resize(80, 24), TerminalOp::Render, TerminalOp::Clear]
                );
                break;
            }
            other => panic!("unexpected {other:?}"),
        }
    }
    assert_eq!(steps, 4);
    assert_eq!(app.step(), Effect::Drained(Frame { ops: vec![], suspend: false, quit: false }));
}

#[test]
fn actions_are_taken_in_the_order_they_were_queued() {
    let mut app = logged_in();
    assert_eq!(app.mode.get_mode(), Mode::RecentChat);
    app.enqueue(Some(Action::NextTab));
    app.enqueue(Some(Action::Alert("first".to_string(), None)));
    app.enqueue(Some(Action::Alert("second".to_string(), None)));
    app.enqueue(Some(Action::NextTab));
    assert_eq!(app.step(), Effect::Call(Request::Friends));
    assert_eq!(app.current, Some(Work::Act(Action::NextTab)));
    assert_eq!(app.mode.get_mode(), Mode::Contact);
    assert_eq!(app.step(), Effect::Waiting);
    let (requests, _) = {
        let effect = app.resume(healthy(&Request::Friends));
        assert_eq!(effect, Effect::Call(Request::FriendReqs));
        app.resume(healthy(&Request::FriendReqs));
        drain(&mut app, healthy)
    };
    assert!(requests.is_empty());
    assert_eq!(app.alert.msg, "second");
    assert_eq!(app.alert.last_mode, Some(Mode::Contact));
    assert_eq!(app.mode.get_mode(), Mode::Alert);
    assert_eq!(app.navigation.item, NavigationItem::Contact);
}

#[test]
fn tick_empties_the_chord() {
    let mut app = logged_in();
    assert!(!app.last_tick_key_events.is_empty());
    app.handle_events(Event::Tick);
    drain(&mut app, healthy);
    assert!(app.last_tick_key_events.is_empty());
    app.handle_events(Event::Key(KeyEvent::plain(KeyCode::Char('g'))));
    assert_eq!(app.last_tick_key_events, vec![KeyEvent::plain(KeyCode::Char('g'))]);
    app.handle_events(Event::Tick);
    drain(&mut app, healthy);
    assert!(app.last_tick_key_events.is_empty());
    app.handle_events(Event::Key(KeyEvent::plain(KeyCode::Char('h'))));
    assert!(app.queue.is_empty());
    drain(&mut app, healthy);
    app.handle_events(Event::Tick);
    drain(&mut app, healthy);
    app.handle_events(Event::Key(KeyEvent::plain(KeyCode::Char('g'))));
    app.handle_events(Event::Key(KeyEvent::plain(KeyCode::Char('h'))));
    assert_eq!(app.queue, vec![Action::Help]);
}

#[test]
fn next_tab_binding_cycles_the_screens() {
    let mut app = logged_in();
    press(&mut app, KeyCode::Tab);
    assert_eq!(app.mode.get_mode(), Mode::Contact);
    assert_eq!(app.navigation.item, NavigationItem::Contact);
    press(&mut app, KeyCode::Tab);
    assert_eq!(app.mode.get_mode(), Mode::Setting);
    press(&mut app, KeyCode::Tab);
    assert_eq!(app.mode.get_mode(), Mode::RecentChat);
}

#[test]
fn contact_enter_on_bob_opens_the_conversation_with_bob() {
    let mut app = logged_in();
    app.recent_chat.chat_vos.clear();
    let (requests, _) = press(&mut app, KeyCode::Tab);
    assert_eq!(requests, vec![Request::Friends, Request::FriendReqs]);
    assert_eq!(app.contact.state, State::Friends);
    press(&mut app, KeyCode::Down);
    let (requests, _) = press(&mut app, KeyCode::Enter);
    let blank = ChatVo::User {
        uid: 7,
        user_name: "bob".to_string(),
        mid: 0,
        msg: "".to_string(),
        msg_time: 0,
        unread: None,
    };
    assert_eq!(app.mode.get_mode(), Mode::RecentChat);
    assert_eq!(app.recent_chat.chat_vos, vec![blank.clone()]);
    assert_eq!(app.recent_chat.list_state.selected(), Some(0));
    assert_eq!(app.chat_vo.chat_vo, Some(blank));
    assert_eq!(
        requests,
        vec![
            Request::UserHistory { uid: 7 },
            Request::SetReadIndex(UpdateReadIndex::User { target_uid: 7, mid: 3 }),
        ]
    );
    assert!(!app.chat_vo.need_fetch);
    assert_eq!(app.chat.chat_history.len(), 1);
}

#[test]
fn selecting_a_conversation_fetches_its_history_once() {
    let mut app = logged_in();
    let (requests, _) = press(&mut app, KeyCode::Down);
    assert!(requests.is_empty());
    assert!(app.chat_vo.need_fetch);
    app.handle_events(Event::Tick);
    let (requests, _) = drain(&mut app, healthy);
    assert_eq!(
        requests,
        vec![
            Request::UserHistory { uid: 7 },
            Request::SetReadIndex(UpdateReadIndex::User { target_uid: 7, mid: 3 }),
        ]
    );
    app.handle_events(Event::Tick);
    let (requests, _) = drain(&mut app, healthy);
    assert!(requests.is_empty());
    let (_, _) = press(&mut app, KeyCode::Enter);
    assert_eq!(app.mode.get_mode(), Mode::Chat);
    press(&mut app, KeyCode::Esc);
    assert_eq!(app.mode.get_mode(), Mode::RecentChat);
}

#[test]
fn non_admin_alert_closes_on_enter_without_confirm() {
    let mut app = logged_in();
    app.enqueue(Some(Action::Group(5)));
    let (requests, _) = drain(&mut app, healthy);
    assert_eq!(requests, vec![Request::GroupDetail { gid: 5 }]);
    assert_eq!(app.mode.get_mode(), Mode::Alert);
    assert_eq!(app.alert.msg, "no such group");
    press(&mut app, KeyCode::Esc);
    assert_eq!(app.mode.get_mode(), Mode::GroupManager);
    press(&mut app, KeyCode::Enter);
    assert_eq!(app.mode.get_mode(), Mode::Alert);
    assert_eq!(app.alert.msg, "您不是管理员，无法操作");
    assert_eq!(app.alert.confirm_event, None);
    let (requests, _) = press(&mut app, KeyCode::Enter);
    assert!(requests.is_empty());
    assert_eq!(app.mode.get_mode(), Mode::GroupManager);
    assert!(app.queue.is_empty());
}

#[test]
fn quit_and_suspend_are_reported_with_the_drained_pass() {
    let mut app = logged_in();
    app.handle_events(Event::Key(ctrl('z')));
    let (_, frame) = drain(&mut app, healthy);
    assert!(frame.suspend);
    assert!(!frame.quit);
    app.resumed();
    assert_eq!(app.queue, vec![Action::Resume, Action::ClearScreen]);
    let (_, frame) = drain(&mut app, healthy);
    assert_eq!(frame, Frame { ops: vec![TerminalOp::Clear], suspend: false, quit: false });
    app.handle_events(Event::Quit);
    let (requests, frame) = drain(&mut app, healthy);
    assert_eq!(requests, vec![Request::StopRenewal]);
    assert!(frame.quit);
    assert!(app.should_quit.should_quit);
}

#[test]
fn draw_failure_is_queued_as_an_error_for_the_next_pass() {
    let mut app = App::new(bindings());
    app.handle_events(Event::Render);
    let (_, frame) = drain(&mut app, healthy);
    assert_eq!(frame.ops, vec![TerminalOp::Render]);
    app.draw_failed("boom");
    assert_eq!(app.queue, vec![Action::Error("Failed to draw: boom".to_string())]);
    let (requests, frame) = drain(&mut app, healthy);
    assert!(requests.is_empty());
    assert!(frame.ops.is_empty());
    assert_eq!(app.mode.get_mode(), Mode::Login);
}

#[test]
fn response_nobody_waits_for_is_dropped() {
    let mut app = App::new(bindings());
    assert_eq!(
        app.resume(Response::Token("tok".to_string())),
        Effect::Drained(Frame { ops: vec![], suspend: false, quit: false })
    );
    assert_eq!(app.login, chat_tui::components::login::Login::new());
    assert_eq!(app.current_user.get_user(), CurrentUser::new());
}

#[test]
fn other_events_change_nothing() {
    let mut app = App::new(bindings());
    app.handle_events(Event::Other);
    assert!(app.queue.is_empty());
    assert!(app.keys.is_empty());
}

#[test]
fn pushed_message_reaches_list_and_transcript() {
    let mut app = logged_in();
    press(&mut app, KeyCode::Down);
    app.handle_events(Event::Tick);
    drain(&mut app, healthy);
    let message = ChatMessage {
        mid: 9,
        payload: ChatMessagePayload {
            from_uid: 7,
            created_at: 700,
            target: MessageTarget::User(MessageTargetUser { uid: 1 }),
            detail: MessageDetail::Normal(MessageNormal {
                content: MessageContent { content: "news".to_string() },
            }),
        },
    };
    assert!(app.needs_sender_name(&message));
    app.receive(&message, Some("bob".to_string()));
    assert_eq!(
        app.recent_chat.chat_vos,
        vec![ChatVo::User {
            uid: 7,
            user_name: "bob".to_string(),
            mid: 9,
            msg: "news".to_string(),
            msg_time: 700,
            unread: None,
        }]
    );
    assert_eq!(
        app.chat.chat_history.last(),
        Some(&ChatHistory::User(UserHistoryMsg {
            mid: 9,
            msg: "news".to_string(),
            time: 700,
            from_uid: 7,
            from_name: "bob".to_string(),
        }))
    );
    let stranger = ChatMessage {
        mid: 10,
        payload: ChatMessagePayload {
            from_uid: 8,
            created_at: 701,
            target: MessageTarget::User(MessageTargetUser { uid: 1 }),
            detail: MessageDetail::Normal(MessageNormal {
                content: MessageContent { content: "psst".to_string() },
            }),
        },
    };
    assert!(!app.needs_sender_name(&stranger));
    app.receive(&stranger, None);
    assert_eq!(app.chat.chat_history.len(), 2);
    assert_eq!(app.recent_chat.chat_vos.len(), 1);
}

#[test]
fn add_friend_flow_runs_through_the_alert() {
    let mut app = logged_in();
    press(&mut app, KeyCode::Tab);
    app.contact.search_result.push(chat_tui::components::contact::FriendSearchRes {
        id: 9,
        name: "greg".to_string(),
        is_friend: false,
    });
    app.contact.change_state(State::AddFriend);
    press(&mut app, KeyCode::Down);
    press(&mut app, KeyCode::Enter);
    assert_eq!(app.mode.get_mode(), Mode::Alert);
    assert_eq!(app.alert.msg, "要添加greg为好友么？");
    assert_eq!(app.alert.confirm_event, Some(ConfirmEvent::AddFriend(9)));
    let (requests, _) = press(&mut app, KeyCode::Enter);
    assert_eq!(requests, vec![Request::AddFriend { uid: 1, friend_uid: 9 }]);
    assert_eq!(app.mode.get_mode(), Mode::Contact);
    assert_eq!(app.contact.state, State::Friends);
    app.handle_events(Event::Tick);
    let (requests, _) = drain(&mut app, healthy);
    assert_eq!(requests, vec![Request::Friends, Request::FriendReqs]);
}

#[test]
fn first_key_of_a_chord_sends_nothing_and_joins_the_chord() {
    let mut app = logged_in();
    app.handle_events(Event::Tick);
    drain(&mut app, healthy);
    assert!(app.last_tick_key_events.is_empty());
    app.handle_key_event(KeyEvent::plain(KeyCode::Char('g')));
    assert!(app.queue.is_empty());
    assert_eq!(app.last_tick_key_events, vec![KeyEvent::plain(KeyCode::Char('g'))]);
    assert!(app.keys.is_empty());
}

#[test]
fn second_key_of_a_chord_sends_its_action_once() {
    let mut app = logged_in();
    app.handle_events(Event::Tick);
    drain(&mut app, healthy);
    app.handle_key_event(KeyEvent::plain(KeyCode::Char('g')));
    app.handle_key_event(KeyEvent::plain(KeyCode::Char('h')));
    assert_eq!(app.queue, vec![Action::Help]);
    assert_eq!(
        app.last_tick_key_events,
        vec![KeyEvent::plain(KeyCode::Char('g')), KeyEvent::plain(KeyCode::Char('h'))]
    );
}

#[test]
fn key_bound_by_itself_sends_its_action_and_leaves_the_chord() {
    let mut app = logged_in();
    app.handle_events(Event::Tick);
    drain(&mut app, healthy);
    app.handle_key_event(KeyEvent::plain(KeyCode::Char('g')));
    app.handle_key_event(KeyEvent::plain(KeyCode::Tab));
    assert_eq!(app.queue, vec![Action::NextTab]);
    assert_eq!(app.last_tick_key_events, vec![KeyEvent::plain(KeyCode::Char('g'))]);
}

/// A backend whose transcripts are out of order.
fn without_history(request: &Request) -> Response {
    match request {
        Request::UserHistory { .. } | Request::GroupHistory { .. } => {
            Response::Failed("timeout".to_string())
        }
        other => healthy(other),
    }
}

#[test]
fn failed_transcript_fetch_is_asked_for_again_after_the_alert() {
    let mut app = logged_in();
    press(&mut app, KeyCode::Down);
    assert!(app.chat_vo.need_fetch);
    app.handle_events(Event::Tick);
    let (requests, _) = drain(&mut app, without_history);
    assert!(!requests.is_empty());
    assert!(requests.iter().all(|request| *request == Request::UserHistory { uid: 7 }));
    assert_eq!(app.mode.get_mode(), Mode::Alert);
    assert_eq!(app.alert.msg, "Failed to fetch chat history:timeout");
    assert!(app.chat_vo.need_fetch);
    app.handle_events(Event::Tick);
    let (requests, _) = drain(&mut app, without_history);
    assert!(requests.is_empty());
    press(&mut app, KeyCode::Esc);
    assert_eq!(app.mode.get_mode(), Mode::RecentChat);
    app.handle_events(Event::Tick);
    let (requests, _) = drain(&mut app, healthy);
    assert_eq!(
        requests,
        vec![
            Request::UserHistory { uid: 7 },
            Request::SetReadIndex(UpdateReadIndex::User { target_uid: 7, mid: 3 }),
        ]
    );
    assert!(!app.chat_vo.need_fetch);
    assert_eq!(app.chat.chat_history.len(), 1);
}
