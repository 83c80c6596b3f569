use chat_tui::action::Action;
use chat_tui::components::area_util::{center_area, Rect};
use chat_tui::components::chat::{SendMsgReq, UpdateReadIndex};
use chat_tui::components::group_manager::ManageAction;
use chat_tui::components::user_input::UserInput;
use chat_tui::proxy::friend::FriendRequestStatus;
use chat_tui::proxy::{event_stream_path, renew_path, user_detail_path, Method, Request, Turn};

#[test]
fn request_methods_and_paths() {
    let cases = vec![
        (
            Request::Login { name: "a".to_string(), password: "b".to_string() },
            Method::Post,
            "/token/login",
        ),
        (
            Request::Register { name: "a".to_string(), password: "b".to_string() },
            Method::Post,
            "/user/register",
        ),
        (Request::RecentChats, Method::Post, "/user/history"),
        (Request::Friends, Method::Get, "/friend"),
        (Request::FriendReqs, Method::Get, "/friend/req"),
        (Request::AddFriend { uid: 1, friend_uid: 9 }, Method::Post, "/friend/req/9"),
        (
            Request::ReviewFriendReq { req_id: 3, status: FriendRequestStatus::APPROVE },
            Method::Post,
            "/friend/req",
        ),
        (Request::SearchUsers { name: "greg".to_string() }, Method::Get, "/user/search/greg"),
        (Request::UserHistory { uid: 7 }, Method::Get, "/user/7/history"),
        (Request::GroupHistory { gid: 5 }, Method::Get, "/group/5/history"),
        (
            Request::SetReadIndex(UpdateReadIndex::User { target_uid: 7, mid: 3 }),
            Method::Put,
            "/ri",
        ),
        (
            Request::SendUserMsg { uid: 7, req: SendMsgReq { msg: "x".to_string() } },
            Method::Put,
            "/user/7/send",
        ),
        (
            Request::SendGroupMsg { gid: 5, req: SendMsgReq { msg: "x".to_string() } },
            Method::Put,
            "/group/5/send",
        ),
        (Request::GroupDetail { gid: 5 }, Method::Get, "/group/5"),
        (Request::Invite { uid: 9, gid: 5 }, Method::Put, "/group/5/9"),
        (
            Request::Manage { action: ManageAction::Evict, gid: 5, uid: 9 },
            Method::Delete,
            "/group/5/9",
        ),
        (
            Request::Manage { action: ManageAction::Forbid, gid: 5, uid: 9 },
            Method::Put,
            "/group/5/forbid/9",
        ),
        (
            Request::Manage { action: ManageAction::UnForbid, gid: 5, uid: 9 },
            Method::Delete,
            "/group/5/forbid/9",
        ),
        (
            Request::Manage { action: ManageAction::SetManager, gid: -5, uid: 9 },
            Method::Patch,
            "/group/-5/admin/9",
        ),
    ];
    for (request, method, path) in cases {
        assert_eq!(request.method(), Some(method), "{request:?}");
        assert_eq!(request.path(), Some(path.to_string()), "{request:?}");
    }
    for request in [
        Request::ParseToken { token: "t".to_string() },
        Request::StartRenewal,
        Request::StopRenewal,
    ] {
        assert_eq!(request.method(), None);
        assert_eq!(request.path(), None);
        assert!(!request.accepts(200));
    }
}

#[test]
fn request_accepts_the_statuses_of_success() {
    let login = Request::Login { name: "a".to_string(), password: "b".to_string() };
    assert!(login.accepts(200));
    assert!(login.accepts(201));
    assert!(login.accepts(299));
    assert!(!login.accepts(199));
    assert!(!login.accepts(300));
    assert!(!login.accepts(401));
    assert!(Request::RecentChats.accepts(204));
    assert!(Request::Friends.accepts(200));
    assert!(!Request::Friends.accepts(201));
    assert!(!Request::AddFriend { uid: 1, friend_uid: 2 }.accepts(201));
    let read = Request::SetReadIndex(UpdateReadIndex::Group { target_gid: 1, mid: 2 });
    assert!(read.accepts(500));
    assert!(read.accepts(200));
}

#[test]
fn paths_outside_the_screens() {
    assert_eq!(renew_path(), "/token/renew");
    assert_eq!(user_detail_path(12), "/user/detail/12");
    assert_eq!(event_stream_path(), "/event/stream");
}

#[test]
fn turn_alert_is_an_alert_without_confirm() {
    assert_eq!(
        Turn::alert("oops".to_string()),
        Turn::Done(Some(Action::Alert("oops".to_string(), None)))
    );
}

#[test]
fn center_area_centres_the_paragraph() {
    let area = Rect::new(4, 10, 40, 20);
    assert_eq!(center_area(area, 3), Rect::new(4, 17, 40, 5));
    assert_eq!(center_area(area, 18), Rect::new(4, 10, 40, 20));
    assert_eq!(center_area(area, 30), Rect::new(4, 10, 40, 20));
    assert_eq!(center_area(area, 0), Rect::new(4, 19, 40, 2));
    assert_eq!(center_area(Rect::new(0, 0, 0, 0), 1), Rect::new(0, 0, 0, 0));
}

#[test]
fn cal_high_is_three_rows_a_field_and_two_more() {
    assert_eq!(UserInput::cal_high(2, Rect::new(0, 0, 10, 20)), 8);
    assert_eq!(UserInput::cal_high(2, Rect::new(0, 0, 10, 100)), 20);
    assert_eq!(UserInput::cal_high(0, Rect::new(0, 0, 10, 10)), 2);
    assert_eq!(UserInput::cal_high(1, Rect::new(0, 0, 10, 30)), 6);
}
