//! The chat view: the transcript of the open conversation, its scroll
//! position and the field that a message is composed in.

use crate::action::Action;
use crate::app::Mode;
use crate::app::ModeHolderLock;
use crate::components::area_util::Rect;
use crate::components::event::ChatMessage;
use crate::components::event::ChatMessageView;
use crate::components::event::MessageTarget;
use crate::components::recent_chat::ChatVo;
use crate::components::recent_chat::ChatVoView;
use crate::components::user_input::InputData;
use crate::components::user_input::InputDataView;
use crate::components::user_input::UserInput;
use crate::components::user_input::UserInputView;
use crate::key::KeyCode;
use crate::key::KeyEvent;
use crate::proxy::Request;
use crate::proxy::RequestView;
use crate::proxy::Response;
use crate::proxy::ResponseView;
use crate::proxy::Turn;
use crate::proxy::TurnView;
use crate::token::CurrentUser;
use crate::token::UserView;
use vstd::prelude::*;
use vstd::string::StringExecFns;

verus! {

/// The conversation that is open, shared between the list that picks it and
/// the view that shows it.
#[derive(Debug, Clone, PartialEq, Eq)]
pub struct ChatVoHolder {
    /// The open conversation, if one was picked.
    pub chat_vo: Option<ChatVo>,
    /// Whether the transcript of the open conversation is still to be fetched.
    pub need_fetch: bool,
}

/// A `ChatVoHolder` with its texts as sequences of characters.
pub struct ChatVoHolderView {
    pub chat_vo: Option<ChatVoView>,
    pub need_fetch: bool,
}

impl View for ChatVoHolder {
    type V = ChatVoHolderView;

    open spec fn view(&self) -> ChatVoHolderView {
        ChatVoHolderView { chat_vo: self.chat_vo.deep_view(), need_fetch: self.need_fetch }
    }
}

impl ChatVoHolder {
    /// No conversation is open and nothing is to be fetched.
    pub fn new() -> (holder: Self)
        ensures
            holder@ == (ChatVoHolderView { chat_vo: None, need_fetch: false }),
    {
        ChatVoHolder { chat_vo: None, need_fetch: false }
    }

    /// Opens `chat_vo` and asks for its transcript to be fetched.
    pub fn set_chat_vo(&mut self, chat_vo: ChatVo)
        ensures
            final(self)@ == (ChatVoHolderView { chat_vo: Some(chat_vo@), need_fetch: true }),
    {
        self.chat_vo = Some(chat_vo);
        self.need_fetch = true;
    }
}

/// The body of a request to send a message.
#[derive(Debug, Clone, PartialEq, Eq)]
pub struct SendMsgReq {
    /// The text of the message.
    pub msg: String,
}

/// Up to which message a conversation has been read.
#[derive(Debug, Clone, Copy, PartialEq, Eq)]
pub enum UpdateReadIndex {
    User { target_uid: i32, mid: i64 },
    Group { target_gid: i32, mid: i64 },
}

/// A message in the transcript of a conversation with a user.
#[derive(Debug, Clone, PartialEq, Eq)]
pub struct UserHistoryMsg {
    pub mid: i64,
    pub msg: String,
    /// When the message was sent, in seconds since the epoch.
    pub time: i64,
    pub from_uid: i32,
    pub from_name: String,
}

/// A message in the transcript of a group.
#[derive(Debug, Clone, PartialEq, Eq)]
pub struct GroupHistoryMsg {
    pub mid: i64,
    pub msg: String,
    /// When the message was sent, in seconds since the epoch.
    pub time: i64,
    pub from_uid: i32,
    pub name_of_from_uid: String,
}

/// One entry of a transcript.
#[derive(Debug, Clone, PartialEq, Eq)]
pub enum ChatHistory {
    User(UserHistoryMsg),
    Group(GroupHistoryMsg),
}

/// A transcript entry with its texts as sequences of characters.
pub struct HistoryMsgView {
    pub mid: i64,
    pub msg: Seq<char>,
    pub time: i64,
    pub from_uid: i32,
    pub from_name: Seq<char>,
}

/// A `ChatHistory` with its texts as sequences of characters.
pub enum ChatHistoryView {
    User(HistoryMsgView),
    Group(HistoryMsgView),
}

impl View for UserHistoryMsg {
    type V = HistoryMsgView;

    open spec fn view(&self) -> HistoryMsgView {
        HistoryMsgView {
            mid: self.mid,
            msg: self.msg@,
            time: self.time,
            from_uid: self.from_uid,
            from_name: self.from_name@,
        }
    }
}

impl DeepView for UserHistoryMsg {
    type V = HistoryMsgView;

    open spec fn deep_view(&self) -> HistoryMsgView {
        self@
    }
}

impl View for GroupHistoryMsg {
    type V = HistoryMsgView;

    open spec fn view(&self) -> HistoryMsgView {
        HistoryMsgView {
            mid: self.mid,
            msg: self.msg@,
            time: self.time,
            from_uid: self.from_uid,
            from_name: self.name_of_from_uid@,
        }
    }
}

impl DeepView for GroupHistoryMsg {
    type V = HistoryMsgView;

    open spec fn deep_view(&self) -> HistoryMsgView {
        self@
    }
}

impl View for ChatHistory {
    type V = ChatHistoryView;

    open spec fn view(&self) -> ChatHistoryView {
        match self {
            ChatHistory::User(entry) => ChatHistoryView::User(entry@),
            ChatHistory::Group(entry) => ChatHistoryView::Group(entry@),
        }
    }
}

impl DeepView for ChatHistory {
    type V = ChatHistoryView;

    open spec fn deep_view(&self) -> ChatHistoryView {
        self@
    }
}


/// Whether the view shows the transcript or takes a message.
#[derive(Debug, Clone, Copy, PartialEq, Eq, Hash, Structural)]
pub enum ChatState {
    /// Browsing the transcript.
    History,
    /// Composing a message.
    Chat,
}

/// The transcript that the view has asked the backend for.
#[derive(Debug, Clone, Copy, PartialEq, Eq, Hash, Structural)]
pub enum Fetching {
    /// None.
    Idle,
    /// That of the conversation with the user of this id.
    User(i32),
    /// That of the group of this id.
    Group(i32),
}

/// The chat view.
#[derive(Debug, PartialEq, Eq)]
pub struct Chat {
    /// The transcript of the open conversation, oldest entry first.
    pub chat_history: Vec<ChatHistory>,
    /// How far the transcript is scrolled down.
    pub vertical_scroll: usize,
    /// The field that a message is composed in.
    pub user_input: UserInput,
    pub chat_state: ChatState,
    pub fetching: Fetching,
}

/// A `Chat` with its transcript as a sequence.
pub struct ChatView {
    pub chat_history: Seq<ChatHistoryView>,
    pub vertical_scroll: nat,
    pub user_input: UserInputView,
    pub chat_state: ChatState,
    pub fetching: Fetching,
}

impl View for Chat {
    type V = ChatView;

    open spec fn view(&self) -> ChatView {
        ChatView {
            chat_history: self.chat_history.deep_view(),
            vertical_scroll: self.vertical_scroll as nat,
            user_input: self.user_input@,
            chat_state: self.chat_state,
            fetching: self.fetching,
        }
    }
}

/// What a key press or an action leaves behind: the view, the mode, the
/// open conversation, and how the turn ended.
pub struct ChatStep {
    pub chat: ChatView,
    pub mode: Mode,
    pub holder: ChatVoHolderView,
    pub turn: TurnView,
}

/// The label of the field that a message is composed in.
pub open spec fn chat_input_label() -> Seq<char> {
    "Press e to edit msg"@
}

/// What an alert says when a transcript could not be fetched, before the
/// reason.
pub open spec fn fetch_failure_prefix() -> Seq<char> {
    "Failed to fetch chat history:"@
}

/// The request that sends `msg` into the conversation `chat_vo`.
pub open spec fn send_request(chat_vo: ChatVoView, msg: Seq<char>) -> RequestView {
    match chat_vo {
        ChatVoView::User { uid, .. } => RequestView::SendUserMsg { uid, msg },
        ChatVoView::Group { gid, .. } => RequestView::SendGroupMsg { gid, msg },
    }
}

/// The transcript entries of a conversation with a user.
pub open spec fn user_entries(entries: Seq<HistoryMsgView>) -> Seq<ChatHistoryView> {
    Seq::new(entries.len(), |i: int| ChatHistoryView::User(entries[i]))
}

/// The transcript entries of a group.
pub open spec fn group_entries(entries: Seq<HistoryMsgView>) -> Seq<ChatHistoryView> {
    Seq::new(entries.len(), |i: int| ChatHistoryView::Group(entries[i]))
}

/// The entry that `message` makes in a transcript, sent by `from_name`.
pub open spec fn entry_of(message: ChatMessageView, from_name: Seq<char>) -> HistoryMsgView {
    HistoryMsgView {
        mid: message.mid,
        msg: message.detail.content(),
        time: message.created_at,
        from_uid: message.from_uid,
        from_name,
    }
}

/// The name that a looked-up sender goes by: the name found, and the empty
/// name where none was found.
pub open spec fn name_or_empty(sender_name: Option<Seq<char>>) -> Seq<char> {
    match sender_name {
        Some(name) => name,
        None => Seq::empty(),
    }
}

/// The entry that `message` adds to the transcript of the conversation
/// `open`, as `me` sees it: none where the message belongs to another
/// conversation. A message between `me` and the user of the open
/// conversation belongs to it, and so does a message to the open group. My
/// own messages carry my name, the others the name that was looked up.
pub open spec fn incoming_entry(
    open: Option<ChatVoView>,
    me: UserView,
    message: ChatMessageView,
    sender_name: Option<Seq<char>>,
) -> Option<ChatHistoryView> {
    match (open, message.target) {
        (Some(ChatVoView::User { uid, .. }), MessageTarget::User(target)) => if target.uid == me.id
            && message.from_uid == uid {
            Some(ChatHistoryView::User(entry_of(message, name_or_empty(sender_name))))
        } else if message.from_uid == me.id && target.uid == uid {
            Some(ChatHistoryView::User(entry_of(message, me.name)))
        } else {
            None
        },
        (Some(ChatVoView::Group { gid, .. }), MessageTarget::Group(target)) => if gid
            == target.gid {
            Some(
                ChatHistoryView::Group(
                    entry_of(
                        message,
                        if me.id == message.from_uid {
                            me.name
                        } else {
                            name_or_empty(sender_name)
                        },
                    ),
                ),
            )
        } else {
            None
        },
        _ => None,
    }
}

/// Whether the name of the sender of `message` has to be looked up before
/// the message can be added to the transcript.
pub open spec fn spec_needs_sender_name(
    open: Option<ChatVoView>,
    me: UserView,
    message: ChatMessageView,
) -> bool {
    match (open, message.target) {
        (Some(ChatVoView::User { uid, .. }), MessageTarget::User(target)) => target.uid == me.id
            && message.from_uid == uid,
        (Some(ChatVoView::Group { gid, .. }), MessageTarget::Group(target)) => gid == target.gid
            && me.id != message.from_uid,
        _ => false,
    }
}

impl ChatView {
    /// The view before any conversation was opened.
    pub open spec fn fresh() -> ChatView {
        ChatView {
            chat_history: Seq::empty(),
            vertical_scroll: 0,
            user_input: UserInputView::fresh(
                InputDataView::ChatMsg { label: Some(chat_input_label()), data: None },
            ),
            chat_state: ChatState::History,
            fetching: Fetching::Idle,
        }
    }

    /// The view switched from the transcript to the field, or back.
    pub open spec fn next_state(self) -> ChatView {
        match self.chat_state {
            ChatState::History => ChatView {
                chat_state: ChatState::Chat,
                user_input: UserInputView { is_editing: true, ..self.user_input },
                ..self
            },
            ChatState::Chat => ChatView {
                chat_state: ChatState::History,
                user_input: UserInputView { is_editing: false, ..self.user_input },
                ..self
            },
        }
    }

    /// The view scrolled down by one line, and never past the transcript.
    pub open spec fn scroll_down(self) -> ChatView {
        ChatView {
            vertical_scroll: if self.vertical_scroll < self.chat_history.len() {
                self.vertical_scroll + 1
            } else {
                self.chat_history.len()
            },
            ..self
        }
    }

    /// The view scrolled up by one line, and never past the top.
    pub open spec fn scroll_up(self) -> ChatView {
        ChatView {
            vertical_scroll: if self.vertical_scroll == 0 {
                0
            } else {
                (self.vertical_scroll - 1) as nat
            },
            ..self
        }
    }

    /// The view with `user_input` as its field.
    pub open spec fn with_input(self, user_input: UserInputView) -> ChatView {
        ChatView { user_input, ..self }
    }

    /// How the turn ends when what the field holds is sent: the message goes
    /// out into the open conversation, without the view waiting for it.
    /// Nothing goes out where the field holds nothing or no conversation is
    /// open.
    pub open spec fn send_msg(self, holder: ChatVoHolderView) -> TurnView {
        match (self.user_input.input, holder.chat_vo) {
            (Some(msg), Some(chat_vo)) => TurnView::Send(send_request(chat_vo, msg), None),
            _ => TurnView::nothing(),
        }
    }

    /// What a key press does. Outside of mode `Chat` the view ignores every
    /// key. Over the transcript, Esc leads back to the list, Down and Up
    /// scroll, and `e` opens the field. In the field, Enter sends what it
    /// holds and clears it, Esc leads back to the transcript, and the other
    /// keys edit.
    pub open spec fn handle_key_event(self, mode: Mode, holder: ChatVoHolderView, key: KeyEvent)
        -> ChatStep {
        let stay = ChatStep { chat: self, mode, holder, turn: TurnView::nothing() };
        if mode != Mode::Chat {
            stay
        } else {
            match self.chat_state {
                ChatState::History => match key.code {
                    KeyCode::Esc => ChatStep { mode: Mode::RecentChat, ..stay },
                    KeyCode::Down => ChatStep { chat: self.scroll_down(), ..stay },
                    KeyCode::Up => ChatStep { chat: self.scroll_up(), ..stay },
                    KeyCode::Char(c) => if c == 'e' {
                        ChatStep { chat: self.next_state(), ..stay }
                    } else {
                        stay
                    },
                    _ => stay,
                },
                ChatState::Chat => match key.code {
                    KeyCode::Enter => ChatStep {
                        chat: self.with_input(self.user_input.submit_message().reset()),
                        turn: self.send_msg(holder),
                        ..stay
                    },
                    KeyCode::Char(to_insert) => ChatStep {
                        chat: self.with_input(self.user_input.enter_char(to_insert)),
                        ..stay
                    },
                    KeyCode::Backspace => ChatStep {
                        chat: self.with_input(self.user_input.delete_char()),
                        ..stay
                    },
                    KeyCode::Left => ChatStep {
                        chat: self.with_input(self.user_input.move_cursor_left()),
                        ..stay
                    },
                    KeyCode::Right => ChatStep {
                        chat: self.with_input(self.user_input.move_cursor_right()),
                        ..stay
                    },
                    KeyCode::Esc => ChatStep { chat: self.next_state(), ..stay },
                    _ => stay,
                },
            }
        }
    }

    /// Whether an action makes the view fetch the transcript: the list or
    /// the view is the active screen, a conversation is open whose
    /// transcript is still to be fetched, the view shows the transcript, and
    /// it does not wait for a transcript already.
    pub open spec fn fetch_due(self, mode: Mode, holder: ChatVoHolderView) -> bool {
        &&& mode == Mode::RecentChat || mode == Mode::Chat
        &&& holder.chat_vo is Some
        &&& holder.need_fetch
        &&& self.chat_state == ChatState::History
        &&& self.fetching == Fetching::Idle
    }

    /// What an action does, whichever it is: where a fetch is due, the view
    /// drops the old transcript, scrolls to the top and asks for the
    /// transcript of the open conversation. The conversation stays marked
    /// as still to be fetched: only the transcript that arrives clears the
    /// mark. Nothing happens where no fetch is due.
    pub open spec fn update(self, mode: Mode, holder: ChatVoHolderView) -> ChatStep {
        if !self.fetch_due(mode, holder) {
            ChatStep { chat: self, mode, holder, turn: TurnView::nothing() }
        } else {
            let cleared = ChatView { chat_history: Seq::empty(), vertical_scroll: 0, ..self };
            match holder.chat_vo->0 {
                ChatVoView::User { uid, .. } => ChatStep {
                    chat: ChatView { fetching: Fetching::User(uid), ..cleared },
                    mode,
                    holder,
                    turn: TurnView::Call(RequestView::UserHistory { uid }),
                },
                ChatVoView::Group { gid, .. } => ChatStep {
                    chat: ChatView { fetching: Fetching::Group(gid), ..cleared },
                    mode,
                    holder,
                    turn: TurnView::Call(RequestView::GroupHistory { gid }),
                },
            }
        }
    }

    /// Whether `response` is the transcript that the view waits for.
    pub open spec fn is_awaited(self, response: ResponseView) -> bool {
        match (self.fetching, response) {
            (Fetching::User(_), ResponseView::UserHistory(_)) => true,
            (Fetching::Group(_), ResponseView::GroupHistory(_)) => true,
            _ => false,
        }
    }

    /// The open conversation after the backend answered: the transcript
    /// that the view waited for clears the mark that it is still to be
    /// fetched. A failure, or any other answer, leaves the mark as it is, so
    /// that a later action asks again.
    pub open spec fn fetched(self, holder: ChatVoHolderView, response: ResponseView)
        -> ChatVoHolderView {
        if self.is_awaited(response) {
            ChatVoHolderView { need_fetch: false, ..holder }
        } else {
            holder
        }
    }

    /// The view after the backend answered: the transcript that was asked
    /// for is appended, and the view waits for nothing any more.
    pub open spec fn resume(self, response: ResponseView) -> ChatView {
        let idle = ChatView { fetching: Fetching::Idle, ..self };
        match (self.fetching, response) {
            (Fetching::User(_), ResponseView::UserHistory(entries)) => ChatView {
                chat_history: self.chat_history + user_entries(entries),
                ..idle
            },
            (Fetching::Group(_), ResponseView::GroupHistory(entries)) => ChatView {
                chat_history: self.chat_history + group_entries(entries),
                ..idle
            },
            _ => idle,
        }
    }

    /// How the turn ends when the backend answered: a transcript that holds
    /// a message has the id of its last message reported as read, without
    /// the view waiting for it; a failure raises an alert.
    pub open spec fn resume_turn(self, response: ResponseView) -> TurnView {
        match (self.fetching, response) {
            (Fetching::User(uid), ResponseView::UserHistory(entries)) => if entries.len() > 0 {
                TurnView::Send(
                    RequestView::SetReadIndex(
                        UpdateReadIndex::User { target_uid: uid, mid: entries.last().mid },
                    ),
                    None,
                )
            } else {
                TurnView::nothing()
            },
            (Fetching::Group(gid), ResponseView::GroupHistory(entries)) => if entries.len() > 0 {
                TurnView::Send(
                    RequestView::SetReadIndex(
                        UpdateReadIndex::Group { target_gid: gid, mid: entries.last().mid },
                    ),
                    None,
                )
            } else {
                TurnView::nothing()
            },
            (Fetching::Idle, _) => TurnView::nothing(),
            (_, ResponseView::Failed(reason)) => TurnView::alert(fetch_failure_prefix() + reason),
            _ => TurnView::nothing(),
        }
    }

    /// The view after the server pushed `message`: the message is appended
    /// to the transcript where it belongs to the open conversation, and
    /// dropped where not or where nobody is logged in.
    pub open spec fn receive(
        self,
        open: Option<ChatVoView>,
        me: Option<UserView>,
        message: ChatMessageView,
        sender_name: Option<Seq<char>>,
    ) -> ChatView {
        match me {
            Some(user) => match incoming_entry(open, user, message, sender_name) {
                Some(entry) => ChatView { chat_history: self.chat_history.push(entry), ..self },
                None => self,
            },
            None => self,
        }
    }
}

/// While the view waits for a transcript, no action makes it ask again:
/// an action leaves a waiting view and the open conversation as they are.
/// So the view that has just asked does not ask a second time.
pub proof fn lemma_no_fetch_while_waiting(chat: ChatView, mode: Mode, holder: ChatVoHolderView)
    ensures
        chat.fetching != Fetching::Idle ==> chat.update(mode, holder) == (ChatStep {
            chat,
            mode,
            holder,
            turn: TurnView::nothing(),
        }),
        chat.fetch_due(mode, holder) ==> chat.update(mode, holder).chat.update(mode, holder) == (
        ChatStep { chat: chat.update(mode, holder).chat, mode, holder, turn: TurnView::nothing() }),
{
}

/// The transcript that arrives ends the fetch: the conversation is no
/// longer to be fetched, and the next action asks for nothing.
pub proof fn lemma_fetched_transcript_clears_the_mark(
    chat: ChatView,
    mode: Mode,
    holder: ChatVoHolderView,
    response: ResponseView,
)
    requires
        chat.is_awaited(response),
    ensures
        !chat.fetched(holder, response).need_fetch,
        chat.fetched(holder, response).chat_vo == holder.chat_vo,
        chat.resume(response).fetching == Fetching::Idle,
        chat.resume(response).update(mode, chat.fetched(holder, response)).turn
            == TurnView::nothing(),
{
}

/// A fetch that fails is tried again: the conversation stays marked as
/// still to be fetched, an alert tells of the failure, and the next action
/// that finds the view as it was asks for the same transcript once more.
pub proof fn lemma_failed_fetch_is_tried_again(
    chat: ChatView,
    mode: Mode,
    holder: ChatVoHolderView,
    reason: Seq<char>,
)
    requires
        chat.fetch_due(mode, holder),
    ensures
        ({
            let asked = chat.update(mode, holder);
            let failed = ResponseView::Failed(reason);
            let after = asked.chat.resume(failed);
            let open = asked.chat.fetched(asked.holder, failed);
            &&& asked.turn is Call
            &&& open == holder
            &&& open.need_fetch
            &&& asked.chat.resume_turn(failed) == TurnView::alert(fetch_failure_prefix() + reason)
            &&& after.fetch_due(mode, open)
            &&& after.update(mode, open).turn == asked.turn
        }),
{
}

/// Appends the entries of a conversation with a user to a transcript.
fn append_user_entries(history: &mut Vec<ChatHistory>, entries: Vec<UserHistoryMsg>)
    ensures
        final(history).deep_view() == old(history).deep_view() + user_entries(entries.deep_view()),
{
    let ghost incoming = entries.deep_view();
    let ghost elements = entries@;
    for entry in it: entries.into_iter()
        invariant
            it.seq() == elements,
            incoming.len() == elements.len(),
            forall|i: int| 0 <= i < elements.len() ==> (#[trigger] elements[i])@ == incoming[i],
            history.deep_view() =~= old(history).deep_view() + user_entries(
                incoming.take(it.index() as int),
            ),
    {
        let ghost k = it.index() as int;
        let ghost so_far = history.deep_view();
        assert(entry@ == incoming[k]);
        history.push(ChatHistory::User(entry));
        assert(history.deep_view() =~= so_far.push(ChatHistoryView::User(incoming[k])));
        assert(incoming.take(k + 1) =~= incoming.take(k).push(incoming[k]));
        assert(user_entries(incoming.take(k + 1)) =~= user_entries(incoming.take(k)).push(
            ChatHistoryView::User(incoming[k]),
        ));
    }
    assert(incoming.take(incoming.len() as int) =~= incoming);
}

/// Appends the entries of a group to a transcript.
fn append_group_entries(history: &mut Vec<ChatHistory>, entries: Vec<GroupHistoryMsg>)
    ensures
        final(history).deep_view() == old(history).deep_view() + group_entries(entries.deep_view()),
{
    let ghost incoming = entries.deep_view();
    let ghost elements = entries@;
    for entry in it: entries.into_iter()
        invariant
            it.seq() == elements,
            incoming.len() == elements.len(),
            forall|i: int| 0 <= i < elements.len() ==> (#[trigger] elements[i])@ == incoming[i],
            history.deep_view() =~= old(history).deep_view() + group_entries(
                incoming.take(it.index() as int),
            ),
    {
        let ghost k = it.index() as int;
        let ghost so_far = history.deep_view();
        assert(entry@ == incoming[k]);
        history.push(ChatHistory::Group(entry));
        assert(history.deep_view() =~= so_far.push(ChatHistoryView::Group(incoming[k])));
        assert(incoming.take(k + 1) =~= incoming.take(k).push(incoming[k]));
        assert(group_entries(incoming.take(k + 1)) =~= group_entries(incoming.take(k)).push(
            ChatHistoryView::Group(incoming[k]),
        ));
    }
    assert(incoming.take(incoming.len() as int) =~= incoming);
}

impl Chat {
    /// A view with an empty transcript, showing the transcript.
    pub fn new() -> (chat: Self)
        ensures
            chat@ == ChatView::fresh(),
    {
        let chat = Chat {
            chat_history: Vec::new(),
            vertical_scroll: 0,
            user_input: UserInput::new(
                InputData::ChatMsg {
                    label: Some(String::from_str("Press e to edit msg")),
                    data: None,
                },
            ),
            chat_state: ChatState::History,
            fetching: Fetching::Idle,
        };
        assert(chat.chat_history.deep_view() =~= Seq::<ChatHistoryView>::empty());
        chat
    }

    /// Switches from the transcript to the field, or back.
    pub fn next_state(&mut self)
        ensures
            final(self)@ == old(self)@.next_state(),
    {
        match self.chat_state {
            ChatState::History => {
                self.chat_state = ChatState::Chat;
                self.user_input.is_editing = true;
            },
            ChatState::Chat => {
                self.chat_state = ChatState::History;
                self.user_input.is_editing = false;
            },
        }
    }

    /// The turn that sends what the field holds into the open conversation.
    pub fn send_msg(&self, holder: &ChatVoHolder) -> (turn: Turn)
        ensures
            turn@ == self@.send_msg(holder@),
    {
        match (&self.user_input.input, &holder.chat_vo) {
            (Some(msg), Some(chat_vo)) => {
                let req = SendMsgReq { msg: msg.clone() };
                match chat_vo {
                    ChatVo::User { uid, .. } => Turn::Send(Request::SendUserMsg { uid: *uid, req }, None),
                    ChatVo::Group { gid, .. } => Turn::Send(
                        Request::SendGroupMsg { gid: *gid, req },
                        None,
                    ),
                }
            },
            _ => Turn::Done(None),
        }
    }

    /// Reacts to a key press; see `ChatView::handle_key_event`.
    pub fn handle_key_event(&mut self, mode_holder: &mut ModeHolderLock, holder: &ChatVoHolder, key: KeyEvent)
        -> (turn: Turn)
        ensures
            (ChatStep {
                chat: final(self)@,
                mode: final(mode_holder).mode(),
                holder: holder@,
                turn: turn@,
            }) == old(self)@.handle_key_event(old(mode_holder).mode(), holder@, key),
    {
        match mode_holder.get_mode() {
            Mode::Chat => {},
            _ => {
                return Turn::Done(None);
            },
        }
        match self.chat_state {
            ChatState::History => {
                match key.code {
                    KeyCode::Esc => {
                        mode_holder.set_mode(Mode::RecentChat);
                    },
                    KeyCode::Down => {
                        if self.vertical_scroll < self.chat_history.len() {
                            self.vertical_scroll = self.vertical_scroll + 1;
                        } else {
                            self.vertical_scroll = self.chat_history.len();
                        }
                    },
                    KeyCode::Up => {
                        if self.vertical_scroll > 0 {
                            self.vertical_scroll = self.vertical_scroll - 1;
                        }
                    },
                    KeyCode::Char(c) => {
                        if c == 'e' {
                            self.next_state();
                        }
                    },
                    _ => {},
                }
                Turn::Done(None)
            },
            ChatState::Chat => match key.code {
                KeyCode::Enter => {
                    let turn = self.send_msg(holder);
                    self.user_input.submit_message();
                    self.user_input.reset();
                    turn
                },
                KeyCode::Char(to_insert) => {
                    self.user_input.enter_char(to_insert);
                    Turn::Done(None)
                },
                KeyCode::Backspace => {
                    self.user_input.delete_char();
                    Turn::Done(None)
                },
                KeyCode::Left => {
                    self.user_input.move_cursor_left();
                    Turn::Done(None)
                },
                KeyCode::Right => {
                    self.user_input.move_cursor_right();
                    Turn::Done(None)
                },
                KeyCode::Esc => {
                    self.next_state();
                    Turn::Done(None)
                },
                _ => Turn::Done(None),
            },
        }
    }

    /// Reacts to an action, whichever it is; see `ChatView::update`.
    pub fn update(&mut self, mode_holder: &ModeHolderLock, holder: &ChatVoHolder, action: &Action) -> (turn:
        Turn)
        ensures
            (ChatStep {
                chat: final(self)@,
                mode: mode_holder.mode(),
                holder: holder@,
                turn: turn@,
            }) == old(self)@.update(mode_holder.mode(), holder@),
    {
        let active = match mode_holder.get_mode() {
            Mode::RecentChat | Mode::Chat => true,
            _ => false,
        };
        let browsing = match self.chat_state {
            ChatState::History => true,
            ChatState::Chat => false,
        };
        let idle = match self.fetching {
            Fetching::Idle => true,
            _ => false,
        };
        if !(active && holder.need_fetch && browsing && idle) {
            return Turn::Done(None);
        }
        let request = match &holder.chat_vo {
            Some(ChatVo::User { uid, .. }) => {
                self.fetching = Fetching::User(*uid);
                Request::UserHistory { uid: *uid }
            },
            Some(ChatVo::Group { gid, .. }) => {
                self.fetching = Fetching::Group(*gid);
                Request::GroupHistory { gid: *gid }
            },
            None => {
                return Turn::Done(None);
            },
        };
        self.vertical_scroll = 0;
        self.chat_history = Vec::new();
        assert(self.chat_history.deep_view() =~= Seq::<ChatHistoryView>::empty());
        Turn::Call(request)
    }

    /// Takes the backend's answer; see `ChatView::resume`,
    /// `ChatView::fetched` and `ChatView::resume_turn`.
    pub fn resume(&mut self, holder: &mut ChatVoHolder, response: Response) -> (turn: Turn)
        ensures
            final(self)@ == old(self)@.resume(response@),
            final(holder)@ == old(self)@.fetched(old(holder)@, response@),
            turn@ == old(self)@.resume_turn(response@),
    {
        let fetching = self.fetching;
        self.fetching = Fetching::Idle;
        match (fetching, response) {
            (Fetching::User(uid), Response::UserHistory(entries)) => {
                let last = if entries.len() > 0 {
                    Some(entries[entries.len() - 1].mid)
                } else {
                    None
                };
                append_user_entries(&mut self.chat_history, entries);
                holder.need_fetch = false;
                match last {
                    Some(mid) => Turn::Send(
                        Request::SetReadIndex(UpdateReadIndex::User { target_uid: uid, mid }),
                        None,
                    ),
                    None => Turn::Done(None),
                }
            },
            (Fetching::Group(gid), Response::GroupHistory(entries)) => {
                let last = if entries.len() > 0 {
                    Some(entries[entries.len() - 1].mid)
                } else {
                    None
                };
                append_group_entries(&mut self.chat_history, entries);
                holder.need_fetch = false;
                match last {
                    Some(mid) => Turn::Send(
                        Request::SetReadIndex(UpdateReadIndex::Group { target_gid: gid, mid }),
                        None,
                    ),
                    None => Turn::Done(None),
                }
            },
            (Fetching::Idle, _) => Turn::Done(None),
            (_, Response::Failed(reason)) => {
                let mut text = String::from_str("Failed to fetch chat history:");
                text.append(reason.as_str());
                Turn::alert(text)
            },
            _ => Turn::Done(None),
        }
    }

    /// Whether the name of the sender of `chat_message` has to be looked up
    /// before the message is handed to `receive`.
    pub fn needs_sender_name(holder: &ChatVoHolder, current_user: &CurrentUser, chat_message: &ChatMessage)
        -> (needed: bool)
        ensures
            needed == match current_user@.user {
                Some(me) => spec_needs_sender_name(holder@.chat_vo, me, chat_message@),
                None => false,
            },
    {
        let me = match &current_user.user {
            Some(user) => user,
            None => {
                return false;
            },
        };
        match (&holder.chat_vo, chat_message.payload.target) {
            (Some(ChatVo::User { uid, .. }), MessageTarget::User(target)) => target.uid == me.id
                && chat_message.payload.from_uid == *uid,
            (Some(ChatVo::Group { gid, .. }), MessageTarget::Group(target)) => *gid == target.gid
                && me.id != chat_message.payload.from_uid,
            _ => false,
        }
    }

    /// Takes a message that the server pushed; see `ChatView::receive`.
    /// `sender_name` is the name of who sent the message, where it was
    /// looked up and found.
    pub fn receive(
        &mut self,
        holder: &ChatVoHolder,
        current_user: &CurrentUser,
        chat_message: &ChatMessage,
        sender_name: Option<String>,
    )
        ensures
            final(self)@ == old(self)@.receive(
                holder@.chat_vo,
                current_user@.user,
                chat_message@,
                sender_name.deep_view(),
            ),
    {
        let me = match &current_user.user {
            Some(user) => user,
            None => {
                return ;
            },
        };
        let looked_up = match sender_name {
            Some(name) => name,
            None => String::new(),
        };
        let from_uid = chat_message.payload.from_uid;
        match (&holder.chat_vo, chat_message.payload.target) {
            (Some(ChatVo::User { uid, .. }), MessageTarget::User(target)) => {
                let from_name = if target.uid == me.id && from_uid == *uid {
                    looked_up
                } else if from_uid == me.id && target.uid == *uid {
                    me.name.clone()
                } else {
                    return ;
                };
                self.chat_history.push(
                    ChatHistory::User(
                        UserHistoryMsg {
                            mid: chat_message.mid,
                            msg: chat_message.payload.detail.get_content(),
                            time: chat_message.payload.created_at,
                            from_uid,
                            from_name,
                        },
                    ),
                );
            },
            (Some(ChatVo::Group { gid, .. }), MessageTarget::Group(target)) => {
                if *gid != target.gid {
                    return ;
                }
                let name_of_from_uid = if me.id == from_uid {
                    me.name.clone()
                } else {
                    looked_up
                };
                self.chat_history.push(
                    ChatHistory::Group(
                        GroupHistoryMsg {
                            mid: chat_message.mid,
                            msg: chat_message.payload.detail.get_content(),
                            time: chat_message.payload.created_at,
                            from_uid,
                            name_of_from_uid,
                        },
                    ),
                );
            },
            _ => {
                return ;
            },
        }
        assert(self.chat_history.deep_view() =~= old(self).chat_history.deep_view().push(
            incoming_entry(
                holder@.chat_vo,
                current_user@.user->0,
                chat_message@,
                sender_name.deep_view(),
            )->0,
        ));
    }

    /// Records where the terminal cursor belongs while a message is
    /// composed in a field drawn in `input_area`. Over the transcript
    /// nothing is recorded.
    pub fn place_cursor(&mut self, input_area: Rect)
        ensures
            final(self)@ == (if old(self).chat_state == ChatState::Chat {
                old(self)@.with_input(old(self)@.user_input.set_cursor_position(input_area))
            } else {
                old(self)@
            }),
    {
        match self.chat_state {
            ChatState::Chat => {
                self.user_input.set_cursor_position(input_area);
            },
            ChatState::History => {},
        }
    }

    /// Whether the view is drawn in `mode`.
    pub fn is_visible(mode: Mode) -> (visible: bool)
        ensures
            visible == (mode == Mode::RecentChat || mode == Mode::Chat),
    {
        match mode {
            Mode::RecentChat | Mode::Chat => true,
            _ => false,
        }
    }
}

} // verus!
