use chat_tui::action::Action;
use chat_tui::app::{Mode, ModeHolder, ModeHolderLock, ShouldQuit};
use chat_tui::components::event::{
    data_payloads, ChatMessage, ChatMessagePayload, Event, HeartbeatMessage, Message, MessageContent,
    MessageDetail, MessageNormal, MessageReplay, MessageTarget, MessageTargetGroup,
    MessageTargetUser,
};
use chat_tui::components::setting::Setting;
use chat_tui::key::{KeyCode, KeyEvent};
use chat_tui::token::{CurrentUser, CurrentUserLock, Role, User};

#[test]
fn get_content_of_normal_and_reply() {
    let normal = MessageDetail::Normal(MessageNormal {
        content: MessageContent { content: "hello".to_string() },
    });
    let reply = MessageDetail::Replay(MessageReplay {
        mid: 4,
        content: MessageContent { content: "re: hello".to_string() },
    });
    assert_eq!(normal.get_content(), "hello");
    assert_eq!(reply.get_content(), "re: hello");
}

#[test]
fn message_target_key() {
    assert_eq!(MessageTarget::User(MessageTargetUser { uid: 7 }).key(), "MessageTargetUser:7");
    assert_eq!(MessageTarget::Group(MessageTargetGroup { gid: -12 }).key(), "MessageTargetGroup:-12");
}

#[test]
fn heartbeats_carry_no_chat_message() {
    assert_eq!(Message::Heartbeat(HeartbeatMessage { time: 5 }).chat_message(), None);
    let chat = ChatMessage {
        mid: 1,
        payload: ChatMessagePayload {
            from_uid: 2,
            created_at: 3,
            target: MessageTarget::User(MessageTargetUser { uid: 4 }),
            detail: MessageDetail::Normal(MessageNormal {
                content: MessageContent { content: "x".to_string() },
            }),
        },
    };
    let copy = ChatMessage {
        mid: 1,
        payload: ChatMessagePayload {
            from_uid: 2,
            created_at: 3,
            target: MessageTarget::User(MessageTargetUser { uid: 4 }),
            detail: MessageDetail::Normal(MessageNormal {
                content: MessageContent { content: "x".to_string() },
            }),
        },
    };
    assert_eq!(Message::ChatMessage(chat).chat_message(), Some(copy));
}

#[test]
fn stream_waits_for_login_success() {
    let mut event = Event::new();
    assert_eq!(event.check_need_fetch(), Some(5));
    assert_eq!(event.update(&Action::Tick), None);
    assert_eq!(event.check_need_fetch(), Some(5));
    assert_eq!(event.update(&Action::LoginSuccess), None);
    assert_eq!(event.check_need_fetch(), None);
    event.update(&Action::Tick);
    assert!(event.need_fetch);
}

#[test]
fn setting_greets_the_user_and_ignores_everything() {
    let mut setting = Setting::new();
    assert_eq!(setting.handle_key_event(KeyEvent::plain(KeyCode::Enter)), None);
    assert_eq!(setting.update(&Action::Tick), None);
    assert!(Setting::is_visible(Mode::Setting));
    assert!(!Setting::is_visible(Mode::Chat));
    let user = User { name: "alice".to_string(), ..User::default() };
    assert_eq!(Setting::greeting(&user), "你好alice，欢迎使用Chat-Tui！\n这里还没有实现哟～～～");
}

#[test]
fn mode_holder_overwrites_the_mode() {
    let mut holder = ModeHolder::default();
    assert_eq!(holder.mode, Mode::Login);
    assert_eq!(Mode::default(), Mode::Login);
    holder.set_mode(Mode::Chat);
    assert_eq!(holder.mode, Mode::Chat);
    holder.set_mode(Mode::Login);
    assert_eq!(holder.mode, Mode::Login);
}

#[test]
fn mode_holder_lock_gets_what_was_set() {
    let mut lock = ModeHolderLock::new(Mode::Login);
    assert_eq!(lock.get_mode(), Mode::Login);
    for mode in [
        Mode::RecentChat,
        Mode::Chat,
        Mode::Contact,
        Mode::GroupManager,
        Mode::Setting,
        Mode::Alert,
        Mode::Login,
    ] {
        lock.set_mode(mode);
        assert_eq!(lock.get_mode(), mode);
    }
}

#[test]
fn should_quit_flag() {
    let mut quit = ShouldQuit { should_quit: false };
    quit.set_quit(true);
    assert!(quit.should_quit);
    quit.set_quit(false);
    assert!(!quit.should_quit);
}

#[test]
fn default_user_is_blank() {
    let user = User::default();
    assert_eq!(
        user,
        User { id: 0, name: "".to_string(), email: None, phone: None, role: Role::User, exp: 0 }
    );
}

#[test]
fn current_user_lock_holds_what_was_set() {
    let mut lock = CurrentUserLock::new();
    assert_eq!(lock.get_user(), CurrentUser { user: None, token: None });
    assert_eq!(lock.get_user().id(), None);
    let user = User { id: 3, name: "carol".to_string(), ..User::default() };
    lock.set_user(Some(user.clone()), Some("tok".to_string()));
    assert_eq!(lock.get_user(), CurrentUser { user: Some(user), token: Some("tok".to_string()) });
    assert_eq!(lock.get_user().id(), Some(3));
    lock.set_user(None, None);
    assert_eq!(lock.get_user(), CurrentUser::new());
}

#[test]
fn data_payloads_of_a_chunk() {
    assert_eq!(data_payloads("data: {\"a\":1}\n\n"), vec!["{\"a\":1}".to_string()]);
    assert_eq!(
        data_payloads("event: msg\r\ndata:  x y \r\nid: 3\ndata:z"),
        vec!["x y".to_string(), "z".to_string()]
    );
    assert_eq!(data_payloads("data:data: data:x"), vec!["data:x".to_string()]);
    assert_eq!(data_payloads("data:data:data:x"), vec!["x".to_string()]);
    assert_eq!(data_payloads("data:"), vec!["".to_string()]);
    assert_eq!(data_payloads("data:\u{3000}群 \t\n"), vec!["群".to_string()]);
    assert_eq!(data_payloads(" data: x\nDATA: y\ndat"), Vec::<String>::new());
    assert_eq!(data_payloads(""), Vec::<String>::new());
    assert_eq!(data_payloads("\n\n"), Vec::<String>::new());
    assert_eq!(data_payloads("data: a\r"), vec!["a".to_string()]);
    assert_eq!(data_payloads("data: a\rb\n"), vec!["a\rb".to_string()]);
}

#[test]
fn data_payloads_agree_with_std_line_handling() {
    for chunk in [
        "data: 1\ndata: 2\n",
        "data: 1\r\n\r\ndata: 2",
        "x\ndata:  3  \n\n\ndata:4\r\n",
        "data:\n",
        "data: a\rb\r\n",
        "\r\ndata: 5\r",
    ] {
        let expected: Vec<String> = chunk
            .lines()
            .filter(|line| line.starts_with("data:"))
            .map(|line| line.trim_start_matches("data:").trim().to_string())
            .collect();
        assert_eq!(data_payloads(chunk), expected, "{chunk:?}");
    }
}

#[test]
fn renewal_goes_on_while_tokens_come() {
    let mut lock = CurrentUserLock::new();
    assert_eq!(lock.renewal_due(), chat_tui::token::Renewal::Stop);
    let user = User { id: 3, name: "carol".to_string(), ..User::default() };
    lock.set_user(Some(user.clone()), Some("old".to_string()));
    assert_eq!(lock.renewal_due(), chat_tui::token::Renewal::Renew("old".to_string()));
    let renewed = User { exp: 77, ..user.clone() };
    assert!(lock.renewed(Some((renewed.clone(), "new".to_string()))));
    assert_eq!(lock.get_user(), CurrentUser { user: Some(renewed.clone()), token: Some("new".to_string()) });
    assert!(!lock.renewed(None));
    assert_eq!(lock.get_user(), CurrentUser { user: Some(renewed), token: Some("new".to_string()) });
    assert_eq!(chat_tui::token::RENEWAL_PERIOD_SECONDS, 60);
}
