//! The messages that the server pushes, and the switch that lets the stream
//! client connect once the user has logged in.

use crate::action::Action;
use crate::text::chars_of;
use crate::text::decimal;
use crate::text::find_line_end;
use crate::text::i32_to_string;
use crate::text::lemma_line_end;
use crate::text::line_at;
use crate::text::line_end;
use crate::text::next_line;
use crate::text::starts_with;
use crate::text::string_of;
use crate::text::strip_all;
use crate::text::strip_all_from;
use crate::text::trim;
use crate::text::trim_range;
use vstd::prelude::*;
use vstd::string::StringExecFns;

verus! {

/// The text of a message.
#[derive(Debug, Clone, PartialEq, Eq)]
pub struct MessageContent {
    pub content: String,
}

/// An ordinary message.
#[derive(Debug, Clone, PartialEq, Eq)]
pub struct MessageNormal {
    pub content: MessageContent,
}

/// A reply to the message with id `mid`.
#[derive(Debug, Clone, PartialEq, Eq)]
pub struct MessageReplay {
    pub mid: i64,
    pub content: MessageContent,
}

/// What a message says.
#[derive(Debug, Clone, PartialEq, Eq)]
pub enum MessageDetail {
    Normal(MessageNormal),
    Replay(MessageReplay),
}

/// A `MessageDetail` with its text as a sequence of characters.
pub enum MessageDetailView {
    Normal(Seq<char>),
    Replay(i64, Seq<char>),
}

impl MessageDetailView {
    /// The text of the message.
    pub open spec fn content(self) -> Seq<char> {
        match self {
            MessageDetailView::Normal(content) => content,
            MessageDetailView::Replay(_, content) => content,
        }
    }
}

impl View for MessageDetail {
    type V = MessageDetailView;

    open spec fn view(&self) -> MessageDetailView {
        match self {
            MessageDetail::Normal(msg) => MessageDetailView::Normal(msg.content.content@),
            MessageDetail::Replay(msg) => MessageDetailView::Replay(msg.mid, msg.content.content@),
        }
    }
}

impl MessageDetail {
    /// The text of the message, whether it is a reply or not.
    pub fn get_content(&self) -> (content: String)
        ensures
            content@ == self@.content(),
    {
        match self {
            MessageDetail::Normal(msg) => msg.content.content.clone(),
            MessageDetail::Replay(msg) => msg.content.content.clone(),
        }
    }
}

/// A user as the target of a message.
#[derive(Debug, Clone, Copy, PartialEq, Eq, Hash, Structural)]
pub struct MessageTargetUser {
    pub uid: i32,
}

/// A group as the target of a message.
#[derive(Debug, Clone, Copy, PartialEq, Eq, Hash, Structural)]
pub struct MessageTargetGroup {
    pub gid: i32,
}

/// Whom a message is addressed to.
#[derive(Debug, Clone, Copy, PartialEq, Eq, Hash, Structural)]
pub enum MessageTarget {
    User(MessageTargetUser),
    Group(MessageTargetGroup),
}

impl MessageTarget {
    /// The target as a key: the kind of target, a colon and the id.
    pub open spec fn spec_key(self) -> Seq<char> {
        match self {
            MessageTarget::User(user) => "MessageTargetUser:"@ + decimal(user.uid as int),
            MessageTarget::Group(group) => "MessageTargetGroup:"@ + decimal(group.gid as int),
        }
    }

    /// The target as a key: the kind of target, a colon and the id.
    pub fn key(self) -> (key: String)
        ensures
            key@ == self.spec_key(),
    {
        match self {
            MessageTarget::User(MessageTargetUser { uid }) => {
                let mut key = String::from_str("MessageTargetUser:");
                let id = i32_to_string(uid);
                key.append(id.as_str());
                key
            },
            MessageTarget::Group(MessageTargetGroup { gid }) => {
                let mut key = String::from_str("MessageTargetGroup:");
                let id = i32_to_string(gid);
                key.append(id.as_str());
                key
            },
        }
    }
}

/// A message without its id.
#[derive(Debug, Clone, PartialEq, Eq)]
pub struct ChatMessagePayload {
    /// Who sent the message.
    pub from_uid: i32,
    /// When the message was created, in seconds since the epoch.
    pub created_at: i64,
    pub target: MessageTarget,
    pub detail: MessageDetail,
}

/// A chat message as the server pushes it.
#[derive(Debug, Clone, PartialEq, Eq)]
pub struct ChatMessage {
    /// The id of the message, which grows within a conversation.
    pub mid: i64,
    pub payload: ChatMessagePayload,
}

/// A `ChatMessage` with its text as a sequence of characters.
pub struct ChatMessageView {
    pub mid: i64,
    pub from_uid: i32,
    pub created_at: i64,
    pub target: MessageTarget,
    pub detail: MessageDetailView,
}

impl View for ChatMessage {
    type V = ChatMessageView;

    open spec fn view(&self) -> ChatMessageView {
        ChatMessageView {
            mid: self.mid,
            from_uid: self.payload.from_uid,
            created_at: self.payload.created_at,
            target: self.payload.target,
            detail: self.payload.detail@,
        }
    }
}

/// The sign of life that the server sends between messages.
#[derive(Debug, Clone, Copy, PartialEq, Eq)]
pub struct HeartbeatMessage {
    /// When the heartbeat was sent, in seconds since the epoch.
    pub time: i64,
}

/// What the server pushes.
#[derive(Debug, Clone, PartialEq, Eq)]
pub enum Message {
    ChatMessage(ChatMessage),
    Heartbeat(HeartbeatMessage),
}

impl Message {
    /// The chat message in what the server pushed. A heartbeat holds none.
    pub fn chat_message(self) -> (chat: Option<ChatMessage>)
        ensures
            chat == match self {
                Message::ChatMessage(chat_msg) => Some(chat_msg),
                Message::Heartbeat(_) => None,
            },
    {
        match self {
            Message::ChatMessage(chat_msg) => Some(chat_msg),
            Message::Heartbeat(_) => None,
        }
    }
}

/// How many seconds the stream client waits before it asks again whether it
/// may connect.
pub const FETCH_POLL_SECONDS: u64 = 5;

/// The stream client's switch: whether the stream may be opened.
#[derive(Debug, Clone, Copy, PartialEq, Eq)]
pub struct Event {
    /// Set once a login has succeeded.
    pub need_fetch: bool,
}

impl Event {
    /// A client that waits for the login.
    pub fn new() -> (event: Self)
        ensures
            !event.need_fetch,
    {
        Event { need_fetch: false }
    }

    /// Reacts to an action: a successful login lets the stream be opened,
    /// nothing else changes anything. The client never answers with an
    /// action.
    pub fn update(&mut self, action: &Action) -> (answer: Option<Action>)
        ensures
            answer is None,
            final(self).need_fetch == (old(self).need_fetch || action@ is LoginSuccess),
    {
        if let Action::LoginSuccess = action {
            self.need_fetch = true;
        }
        None
    }

    /// What the client does next: `None` to open the stream, or the number
    /// of seconds to wait before it asks again.
    pub fn check_need_fetch(&self) -> (wait: Option<u64>)
        ensures
            wait == if self.need_fetch {
                None
            } else {
                Some(FETCH_POLL_SECONDS)
            },
    {
        if self.need_fetch {
            None
        } else {
            Some(FETCH_POLL_SECONDS)
        }
    }
}


/// What a line of the stream starts with when it carries data.
pub open spec fn data_prefix() -> Seq<char> {
    "data:"@
}

/// The data that a line of the stream carries: what follows `data:`, as
/// often as that stands at the start, without the white space at either
/// end. A line that does not start with `data:` carries none.
pub open spec fn data_of(line: Seq<char>) -> Option<Seq<char>> {
    if starts_with(line, data_prefix()) {
        Some(trim(strip_all(line, data_prefix())))
    } else {
        None
    }
}

/// The data that the lines from position `from` on carry, in their order.
pub open spec fn payloads_from(sse: Seq<char>, from: int) -> Seq<Seq<char>>
    decreases sse.len() - from,
{
    if from < 0 || from >= sse.len() {
        Seq::empty()
    } else {
        let next = next_line(sse, from);
        let rest = if from < next <= sse.len() {
            payloads_from(sse, next)
        } else {
            Seq::empty()
        };
        match data_of(line_at(sse, from)) {
            Some(data) => seq![data] + rest,
            None => rest,
        }
    }
}

/// The data that a chunk of the stream carries, line by line. The message
/// of the chunk is the first of them that reads as a message.
pub open spec fn spec_data_payloads(sse: Seq<char>) -> Seq<Seq<char>> {
    payloads_from(sse, 0)
}

/// The data that a chunk of the stream carries, line by line.
pub fn data_payloads(sse: &str) -> (payloads: Vec<String>)
    ensures
        payloads.deep_view() == spec_data_payloads(sse@),
{
    let chars = chars_of(sse);
    let prefix = chars_of("data:");
    proof {
        reveal_strlit("data:");
    }
    let mut payloads: Vec<String> = Vec::new();
    let mut from: usize = 0;
    assert(payloads.deep_view() + payloads_from(chars@, 0) =~= spec_data_payloads(sse@));
    while from < chars.len()
        invariant
            from <= chars.len(),
            chars@ == sse@,
            prefix@ == data_prefix(),
            prefix.len() == 5,
            payloads.deep_view() + payloads_from(chars@, from as int) == spec_data_payloads(sse@),
        decreases chars.len() - from,
    {
        let end = find_line_end(&chars, from);
        let ghost so_far = payloads.deep_view();
        proof {
            lemma_line_end(chars@, from as int);
        }
        // the line without the carriage return before its line feed
        let stop = if end < chars.len() && end > from && chars[end - 1] == '\r' {
            end - 1
        } else {
            end
        };
        let ghost line = chars@.subrange(from as int, stop as int);
        proof {
            let raw = chars@.subrange(from as int, end as int);
            if stop < end {
                assert(raw.drop_last() =~= line);
            }
            assert(line == line_at(chars@, from as int));
        }
        let begin = strip_all_from(&chars, from, stop, &prefix);
        let carries = stop - from >= 5 && begin > from;
        proof {
            // the line starts with the prefix exactly when something was cut off
            if starts_with(line, prefix@) {
                assert(strip_all(line, prefix@) == strip_all(line.skip(5), prefix@));
                crate::text::lemma_strip_all_shorter(line.skip(5), prefix@);
                assert(strip_all(line, prefix@).len() <= line.len() - 5);
                assert(begin > from);
            } else {
                assert(strip_all(line, prefix@) == line);
                assert(begin == from);
            }
        }
        if carries {
            let (first, last) = trim_range(&chars, begin, stop);
            payloads.push(string_of(&chars, first, last));
            assert(payloads.deep_view() =~= so_far.push(data_of(line)->0));
        }
        proof {
            assert(next_line(chars@, from as int) == end + 1);
            assert(end + 1 <= chars.len() ==> payloads_from(chars@, end + 1) == payloads_from(
                chars@,
                next_line(chars@, from as int),
            ));
        }
        if end == chars.len() {
            assert(payloads_from(chars@, end as int) =~= Seq::<Seq<char>>::empty());
            from = end;
        } else {
            from = end + 1;
        }
    }
    assert(payloads_from(chars@, from as int) =~= Seq::<Seq<char>>::empty());
    payloads
}

} // verus!
