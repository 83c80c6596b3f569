//! The backend as the screens see it: the operations that they ask for,
//! what comes back, and what a screen has decided at the end of its turn.
//!
//! A screen never performs a backend operation itself. It hands out a
//! `Request` and stops; whoever drives the screens performs the operation
//! and hands the `Response` back to the same screen, before any other screen
//! gets its turn.

pub mod friend;
pub mod group;
pub mod user;

use crate::action::Action;
use crate::action::ActionView;
use crate::components::chat::GroupHistoryMsg;
use crate::components::chat::HistoryMsgView;
use crate::components::chat::SendMsgReq;
use crate::components::chat::UpdateReadIndex;
use crate::components::chat::UserHistoryMsg;
use crate::components::group_manager::ManageAction;
use crate::components::recent_chat::ChatVo;
use crate::components::recent_chat::ChatVoView;
use crate::proxy::friend::Friend;
use crate::proxy::friend::FriendReq;
use crate::proxy::friend::FriendReqView;
use crate::proxy::friend::FriendRequestStatus;
use crate::proxy::friend::FriendView;
use crate::proxy::group::DetailRes;
use crate::proxy::group::DetailResView;
use crate::proxy::user::UserDetail;
use crate::proxy::user::UserDetailView;
use crate::text::decimal;
use crate::text::i32_to_string;
use crate::token::User;
use crate::token::UserView;
use vstd::prelude::*;
use vstd::string::StringExecFns;

verus! {

/// An operation that a screen asks for.
#[derive(Debug, Clone, PartialEq, Eq)]
pub enum Request {
    /// Log in; answered by `Token`.
    Login { name: String, password: String },
    /// Register a new user; answered by `Registered`.
    Register { name: String, password: String },
    /// Decode and validate a token; answered by `Claims`.
    ParseToken { token: String },
    /// Start renewing the token in the background.
    StartRenewal,
    /// Tell the renewal to stop.
    StopRenewal,
    /// Fetch the recent conversations; answered by `RecentChats`.
    RecentChats,
    /// Fetch the friends; answered by `Friends`.
    Friends,
    /// Fetch the friend requests; answered by `FriendReqs`.
    FriendReqs,
    /// Ask `friend_uid` to become a friend of `uid`; answered by `Done`.
    AddFriend { uid: i32, friend_uid: i32 },
    /// Accept or reject a friend request; answered by `Done`.
    ReviewFriendReq { req_id: i32, status: FriendRequestStatus },
    /// Search users by name; answered by `Users`.
    SearchUsers { name: String },
    /// Fetch the transcript with a user; answered by `UserHistory`.
    UserHistory { uid: i32 },
    /// Fetch the transcript of a group; answered by `GroupHistory`.
    GroupHistory { gid: i32 },
    /// Report up to which message a conversation was read.
    SetReadIndex(UpdateReadIndex),
    /// Send a message to a user.
    SendUserMsg { uid: i32, req: SendMsgReq },
    /// Send a message to a group.
    SendGroupMsg { gid: i32, req: SendMsgReq },
    /// Fetch a group with its roster; answered by `GroupDetail`.
    GroupDetail { gid: i32 },
    /// Invite a user into a group; answered by `Done`.
    Invite { uid: i32, gid: i32 },
    /// Take a management action on a member of a group; answered by `Done`.
    Manage { action: ManageAction, gid: i32, uid: i32 },
}

/// A `Request` with its texts as sequences of characters.
pub enum RequestView {
    Login { name: Seq<char>, password: Seq<char> },
    Register { name: Seq<char>, password: Seq<char> },
    ParseToken { token: Seq<char> },
    StartRenewal,
    StopRenewal,
    RecentChats,
    Friends,
    FriendReqs,
    AddFriend { uid: i32, friend_uid: i32 },
    ReviewFriendReq { req_id: i32, status: FriendRequestStatus },
    SearchUsers { name: Seq<char> },
    UserHistory { uid: i32 },
    GroupHistory { gid: i32 },
    SetReadIndex(UpdateReadIndex),
    SendUserMsg { uid: i32, msg: Seq<char> },
    SendGroupMsg { gid: i32, msg: Seq<char> },
    GroupDetail { gid: i32 },
    Invite { uid: i32, gid: i32 },
    Manage { action: ManageAction, gid: i32, uid: i32 },
}

impl View for Request {
    type V = RequestView;

    open spec fn view(&self) -> RequestView {
        match self {
            Request::Login { name, password } => RequestView::Login {
                name: name@,
                password: password@,
            },
            Request::Register { name, password } => RequestView::Register {
                name: name@,
                password: password@,
            },
            Request::ParseToken { token } => RequestView::ParseToken { token: token@ },
            Request::StartRenewal => RequestView::StartRenewal,
            Request::StopRenewal => RequestView::StopRenewal,
            Request::RecentChats => RequestView::RecentChats,
            Request::Friends => RequestView::Friends,
            Request::FriendReqs => RequestView::FriendReqs,
            Request::AddFriend { uid, friend_uid } => RequestView::AddFriend {
                uid: *uid,
                friend_uid: *friend_uid,
            },
            Request::ReviewFriendReq { req_id, status } => RequestView::ReviewFriendReq {
                req_id: *req_id,
                status: *status,
            },
            Request::SearchUsers { name } => RequestView::SearchUsers { name: name@ },
            Request::UserHistory { uid } => RequestView::UserHistory { uid: *uid },
            Request::GroupHistory { gid } => RequestView::GroupHistory { gid: *gid },
            Request::SetReadIndex(index) => RequestView::SetReadIndex(*index),
            Request::SendUserMsg { uid, req } => RequestView::SendUserMsg {
                uid: *uid,
                msg: req.msg@,
            },
            Request::SendGroupMsg { gid, req } => RequestView::SendGroupMsg {
                gid: *gid,
                msg: req.msg@,
            },
            Request::GroupDetail { gid } => RequestView::GroupDetail { gid: *gid },
            Request::Invite { uid, gid } => RequestView::Invite { uid: *uid, gid: *gid },
            Request::Manage { action, gid, uid } => RequestView::Manage {
                action: *action,
                gid: *gid,
                uid: *uid,
            },
        }
    }
}

/// What came back from an operation.
#[derive(Debug, Clone, PartialEq, Eq)]
pub enum Response {
    /// The token that a login gave.
    Token(String),
    /// The id of the user that was registered.
    Registered(i32),
    /// The claims of a valid token.
    Claims(User),
    RecentChats(Vec<ChatVo>),
    Friends(Vec<Friend>),
    FriendReqs(Vec<FriendReq>),
    Users(Vec<UserDetail>),
    UserHistory(Vec<UserHistoryMsg>),
    GroupHistory(Vec<GroupHistoryMsg>),
    GroupDetail(DetailRes),
    /// The operation succeeded and has nothing to tell.
    Done,
    /// The operation failed, with the reason in words.
    Failed(String),
}

/// A `Response` with its texts as sequences of characters.
pub enum ResponseView {
    Token(Seq<char>),
    Registered(i32),
    Claims(UserView),
    RecentChats(Seq<ChatVoView>),
    Friends(Seq<FriendView>),
    FriendReqs(Seq<FriendReqView>),
    Users(Seq<UserDetailView>),
    UserHistory(Seq<HistoryMsgView>),
    GroupHistory(Seq<HistoryMsgView>),
    GroupDetail(DetailResView),
    Done,
    Failed(Seq<char>),
}

impl View for Response {
    type V = ResponseView;

    open spec fn view(&self) -> ResponseView {
        match self {
            Response::Token(token) => ResponseView::Token(token@),
            Response::Registered(uid) => ResponseView::Registered(*uid),
            Response::Claims(user) => ResponseView::Claims(user@),
            Response::RecentChats(rows) => ResponseView::RecentChats(rows.deep_view()),
            Response::Friends(friends) => ResponseView::Friends(friends.deep_view()),
            Response::FriendReqs(reqs) => ResponseView::FriendReqs(reqs.deep_view()),
            Response::Users(users) => ResponseView::Users(users.deep_view()),
            Response::UserHistory(entries) => ResponseView::UserHistory(entries.deep_view()),
            Response::GroupHistory(entries) => ResponseView::GroupHistory(entries.deep_view()),
            Response::GroupDetail(detail) => ResponseView::GroupDetail(detail@),
            Response::Done => ResponseView::Done,
            Response::Failed(reason) => ResponseView::Failed(reason@),
        }
    }
}

/// How a screen's turn ended.
#[derive(Debug, Clone, PartialEq, Eq)]
pub enum Turn {
    /// The turn is over. The action, if any, goes to the end of the queue.
    Done(Option<Action>),
    /// The screen waits for an operation: its turn goes on when the response
    /// is handed to its `resume`.
    Call(Request),
    /// The turn is over, and the operation is to be performed without the
    /// screen waiting for it or learning how it went.
    Send(Request, Option<Action>),
}

/// A `Turn` with its texts as sequences of characters.
pub enum TurnView {
    Done(Option<ActionView>),
    Call(RequestView),
    Send(RequestView, Option<ActionView>),
}

impl View for Turn {
    type V = TurnView;

    open spec fn view(&self) -> TurnView {
        match self {
            Turn::Done(action) => TurnView::Done(action.deep_view()),
            Turn::Call(request) => TurnView::Call(request@),
            Turn::Send(request, action) => TurnView::Send(request@, action.deep_view()),
        }
    }
}

impl TurnView {
    /// A turn that ends with an alert that shows `reason` and asks nothing.
    pub open spec fn alert(reason: Seq<char>) -> TurnView {
        TurnView::Done(Some(ActionView::Alert(reason, None)))
    }

    /// A turn that ends without an action.
    pub open spec fn nothing() -> TurnView {
        TurnView::Done(None)
    }
}

impl Turn {
    /// A turn that ends with an alert that shows `reason` and asks nothing.
    pub fn alert(reason: String) -> (turn: Self)
        ensures
            turn@ == TurnView::alert(reason@),
    {
        Turn::Done(Some(Action::Alert(reason, None)))
    }
}


/// How a request reaches the backend.
#[derive(Debug, Clone, Copy, PartialEq, Eq, Hash, Structural)]
pub enum Method {
    Get,
    Post,
    Put,
    Patch,
    Delete,
}

/// The path of a resource of one id: `head`, the id, and `tail`.
pub open spec fn path_of(head: Seq<char>, id: i32, tail: Seq<char>) -> Seq<char> {
    head + decimal(id as int) + tail
}

/// The path of a resource of two ids.
pub open spec fn path_of_two(head: Seq<char>, first: i32, middle: Seq<char>, second: i32) -> Seq<char> {
    head + decimal(first as int) + middle + decimal(second as int)
}

fn path(head: &str, id: i32, tail: &str) -> (path: String)
    ensures
        path@ == path_of(head@, id, tail@),
{
    let mut path = String::from_str(head);
    let digits = i32_to_string(id);
    path.append(digits.as_str());
    path.append(tail);
    path
}

fn path_two(head: &str, first: i32, middle: &str, second: i32) -> (path: String)
    ensures
        path@ == path_of_two(head@, first, middle@, second),
{
    let mut path = String::from_str(head);
    let digits = i32_to_string(first);
    path.append(digits.as_str());
    path.append(middle);
    let digits = i32_to_string(second);
    path.append(digits.as_str());
    path
}

impl RequestView {
    /// The method that the request goes out with; `None` for what is no
    /// call to the backend.
    pub open spec fn method(self) -> Option<Method> {
        match self {
            RequestView::Login { .. } => Some(Method::Post),
            RequestView::Register { .. } => Some(Method::Post),
            RequestView::ParseToken { .. } => None,
            RequestView::StartRenewal => None,
            RequestView::StopRenewal => None,
            RequestView::RecentChats => Some(Method::Post),
            RequestView::Friends => Some(Method::Get),
            RequestView::FriendReqs => Some(Method::Get),
            RequestView::AddFriend { .. } => Some(Method::Post),
            RequestView::ReviewFriendReq { .. } => Some(Method::Post),
            RequestView::SearchUsers { .. } => Some(Method::Get),
            RequestView::UserHistory { .. } => Some(Method::Get),
            RequestView::GroupHistory { .. } => Some(Method::Get),
            RequestView::SetReadIndex(_) => Some(Method::Put),
            RequestView::SendUserMsg { .. } => Some(Method::Put),
            RequestView::SendGroupMsg { .. } => Some(Method::Put),
            RequestView::GroupDetail { .. } => Some(Method::Get),
            RequestView::Invite { .. } => Some(Method::Put),
            RequestView::Manage { action, .. } => Some(
                match action {
                    ManageAction::Evict => Method::Delete,
                    ManageAction::Forbid => Method::Put,
                    ManageAction::UnForbid => Method::Delete,
                    ManageAction::SetManager => Method::Patch,
                },
            ),
        }
    }

    /// The path below the backend's address that the request goes to;
    /// `None` for what is no call to the backend.
    pub open spec fn path(self) -> Option<Seq<char>> {
        match self {
            RequestView::Login { .. } => Some("/token/login"@),
            RequestView::Register { .. } => Some("/user/register"@),
            RequestView::ParseToken { .. } => None,
            RequestView::StartRenewal => None,
            RequestView::StopRenewal => None,
            RequestView::RecentChats => Some("/user/history"@),
            RequestView::Friends => Some("/friend"@),
            RequestView::FriendReqs => Some("/friend/req"@),
            RequestView::AddFriend { friend_uid, .. } => Some(
                path_of("/friend/req/"@, friend_uid, ""@),
            ),
            RequestView::ReviewFriendReq { .. } => Some("/friend/req"@),
            RequestView::SearchUsers { name } => Some("/user/search/"@ + name),
            RequestView::UserHistory { uid } => Some(path_of("/user/"@, uid, "/history"@)),
            RequestView::GroupHistory { gid } => Some(path_of("/group/"@, gid, "/history"@)),
            RequestView::SetReadIndex(_) => Some("/ri"@),
            RequestView::SendUserMsg { uid, .. } => Some(path_of("/user/"@, uid, "/send"@)),
            RequestView::SendGroupMsg { gid, .. } => Some(path_of("/group/"@, gid, "/send"@)),
            RequestView::GroupDetail { gid } => Some(path_of("/group/"@, gid, ""@)),
            RequestView::Invite { uid, gid } => Some(path_of_two("/group/"@, gid, "/"@, uid)),
            RequestView::Manage { action, gid, uid } => Some(
                match action {
                    ManageAction::Evict => path_of_two("/group/"@, gid, "/"@, uid),
                    ManageAction::Forbid => path_of_two("/group/"@, gid, "/forbid/"@, uid),
                    ManageAction::UnForbid => path_of_two("/group/"@, gid, "/forbid/"@, uid),
                    ManageAction::SetManager => path_of_two("/group/"@, gid, "/admin/"@, uid),
                },
            ),
        }
    }

    /// Whether an answer of the given status means that the request
    /// succeeded. Login, registration and the recent conversations take any
    /// status from 200 to 299; the report of what was read takes every
    /// status; everything else takes 200 alone.
    pub open spec fn accepts(self, status: u16) -> bool {
        match self {
            RequestView::Login { .. } | RequestView::Register { .. } | RequestView::RecentChats => 200
                <= status <= 299,
            RequestView::SetReadIndex(_) => true,
            RequestView::ParseToken { .. } | RequestView::StartRenewal | RequestView::StopRenewal => false,
            _ => status == 200,
        }
    }
}

impl Request {
    /// The method that the request goes out with.
    pub fn method(&self) -> (method: Option<Method>)
        ensures
            method == self@.method(),
    {
        match self {
            Request::Login { .. } => Some(Method::Post),
            Request::Register { .. } => Some(Method::Post),
            Request::ParseToken { .. } => None,
            Request::StartRenewal => None,
            Request::StopRenewal => None,
            Request::RecentChats => Some(Method::Post),
            Request::Friends => Some(Method::Get),
            Request::FriendReqs => Some(Method::Get),
            Request::AddFriend { .. } => Some(Method::Post),
            Request::ReviewFriendReq { .. } => Some(Method::Post),
            Request::SearchUsers { .. } => Some(Method::Get),
            Request::UserHistory { .. } => Some(Method::Get),
            Request::GroupHistory { .. } => Some(Method::Get),
            Request::SetReadIndex(_) => Some(Method::Put),
            Request::SendUserMsg { .. } => Some(Method::Put),
            Request::SendGroupMsg { .. } => Some(Method::Put),
            Request::GroupDetail { .. } => Some(Method::Get),
            Request::Invite { .. } => Some(Method::Put),
            Request::Manage { action, .. } => Some(
                match action {
                    ManageAction::Evict => Method::Delete,
                    ManageAction::Forbid => Method::Put,
                    ManageAction::UnForbid => Method::Delete,
                    ManageAction::SetManager => Method::Patch,
                },
            ),
        }
    }

    /// The path below the backend's address that the request goes to.
    pub fn path(&self) -> (path: Option<String>)
        ensures
            path.deep_view() == self@.path(),
    {
        match self {
            Request::Login { .. } => Some(String::from_str("/token/login")),
            Request::Register { .. } => Some(String::from_str("/user/register")),
            Request::ParseToken { .. } => None,
            Request::StartRenewal => None,
            Request::StopRenewal => None,
            Request::RecentChats => Some(String::from_str("/user/history")),
            Request::Friends => Some(String::from_str("/friend")),
            Request::FriendReqs => Some(String::from_str("/friend/req")),
            Request::AddFriend { friend_uid, .. } => Some(path("/friend/req/", *friend_uid, "")),
            Request::ReviewFriendReq { .. } => Some(String::from_str("/friend/req")),
            Request::SearchUsers { name } => {
                let mut path = String::from_str("/user/search/");
                path.append(name.as_str());
                Some(path)
            },
            Request::UserHistory { uid } => Some(path("/user/", *uid, "/history")),
            Request::GroupHistory { gid } => Some(path("/group/", *gid, "/history")),
            Request::SetReadIndex(_) => Some(String::from_str("/ri")),
            Request::SendUserMsg { uid, .. } => Some(path("/user/", *uid, "/send")),
            Request::SendGroupMsg { gid, .. } => Some(path("/group/", *gid, "/send")),
            Request::GroupDetail { gid } => Some(path("/group/", *gid, "")),
            Request::Invite { uid, gid } => Some(path_two("/group/", *gid, "/", *uid)),
            Request::Manage { action, gid, uid } => Some(
                match action {
                    ManageAction::Evict => path_two("/group/", *gid, "/", *uid),
                    ManageAction::Forbid => path_two("/group/", *gid, "/forbid/", *uid),
                    ManageAction::UnForbid => path_two("/group/", *gid, "/forbid/", *uid),
                    ManageAction::SetManager => path_two("/group/", *gid, "/admin/", *uid),
                },
            ),
        }
    }

    /// Whether an answer of the given status means that the request
    /// succeeded.
    pub fn accepts(&self, status: u16) -> (accepted: bool)
        ensures
            accepted == self@.accepts(status),
    {
        match self {
            Request::Login { .. } | Request::Register { .. } | Request::RecentChats => 200 <= status
                && status <= 299,
            Request::SetReadIndex(_) => true,
            Request::ParseToken { .. } | Request::StartRenewal | Request::StopRenewal => false,
            _ => status == 200,
        }
    }
}

/// The path that the token is renewed at, with `Method::Patch`.
pub fn renew_path() -> (path: String)
    ensures
        path@ == "/token/renew"@,
{
    String::from_str("/token/renew")
}

/// The path that the record of the user of id `uid` is read at, with
/// `Method::Get`.
pub fn user_detail_path(uid: i32) -> (path: String)
    ensures
        path@ == path_of("/user/detail/"@, uid, ""@),
{
    path("/user/detail/", uid, "")
}

/// The path that the stream of pushed messages is read at, with
/// `Method::Get`.
pub fn event_stream_path() -> (path: String)
    ensures
        path@ == "/event/stream"@,
{
    String::from_str("/event/stream")
}

} // verus!
