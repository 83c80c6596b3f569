//! The list of recent conversations: its rows, the unread counters, the
//! selection, and what an incoming message does to them.

use crate::action::Action;
use crate::action::ActionView;
use crate::app::Mode;
use crate::app::ModeHolderLock;
use crate::components::chat::ChatVoHolder;
use crate::components::chat::ChatVoHolderView;
use crate::components::contact::ToChat;
use crate::components::contact::ToChatView;
use crate::components::event::ChatMessage;
use crate::components::event::ChatMessageView;
use crate::components::event::MessageTarget;
use crate::components::list_state::new_list_state;
use crate::components::list_state::next_index;
use crate::components::list_state::previous_index;
use crate::components::list_state::select;
use crate::components::list_state::select_next;
use crate::components::list_state::select_previous;
use crate::components::list_state::selected;
use crate::components::list_state::selected_of;
use crate::key::KeyCode;
use crate::key::KeyEvent;
use crate::proxy::Request;
use crate::proxy::RequestView;
use crate::proxy::Response;
use crate::proxy::ResponseView;
use crate::proxy::Turn;
use crate::proxy::TurnView;
use crate::text::decimal;
use crate::text::digit_value;
use crate::text::lemma_parse_decimal_roundtrip;
use crate::text::number_of;
use crate::text::i32_to_string;
use crate::text::parse_i32;
use crate::text::spec_parse_i32;
use crate::token::CurrentUser;
use ratatui::widgets::ListState;
use vstd::prelude::*;
use vstd::string::StringExecFns;

verus! {

/// One row of the list: the latest state of a conversation with a user or
/// in a group.
#[derive(Debug, PartialEq, Eq, Hash)]
pub enum ChatVo {
    User {
        /// The friend's id.
        uid: i32,
        /// The friend's name.
        user_name: String,
        /// The id of the last message.
        mid: i64,
        /// The text of the last message.
        msg: String,
        /// When the last message was sent, in seconds since the epoch.
        msg_time: i64,
        /// How many messages are unread: a number, `all`, or nothing.
        unread: Option<String>,
    },
    Group {
        /// The group's id.
        gid: i32,
        /// The group's name.
        group_name: String,
        /// The id of who sent the last message.
        uid: i32,
        /// The name of who sent the last message.
        user_name: String,
        /// The id of the last message.
        mid: i64,
        /// The text of the last message.
        msg: String,
        /// When the last message was sent, in seconds since the epoch.
        msg_time: i64,
        /// How many messages are unread: a number, `all`, or nothing.
        unread: Option<String>,
    },
}

/// A `ChatVo` with its texts as sequences of characters.
pub enum ChatVoView {
    User {
        uid: i32,
        user_name: Seq<char>,
        mid: i64,
        msg: Seq<char>,
        msg_time: i64,
        unread: Option<Seq<char>>,
    },
    Group {
        gid: i32,
        group_name: Seq<char>,
        uid: i32,
        user_name: Seq<char>,
        mid: i64,
        msg: Seq<char>,
        msg_time: i64,
        unread: Option<Seq<char>>,
    },
}

impl View for ChatVo {
    type V = ChatVoView;

    open spec fn view(&self) -> ChatVoView {
        match self {
            ChatVo::User { uid, user_name, mid, msg, msg_time, unread } => ChatVoView::User {
                uid: *uid,
                user_name: user_name@,
                mid: *mid,
                msg: msg@,
                msg_time: *msg_time,
                unread: unread.deep_view(),
            },
            ChatVo::Group {
                gid,
                group_name,
                uid,
                user_name,
                mid,
                msg,
                msg_time,
                unread,
            } => ChatVoView::Group {
                gid: *gid,
                group_name: group_name@,
                uid: *uid,
                user_name: user_name@,
                mid: *mid,
                msg: msg@,
                msg_time: *msg_time,
                unread: unread.deep_view(),
            },
        }
    }
}

impl DeepView for ChatVo {
    type V = ChatVoView;

    open spec fn deep_view(&self) -> ChatVoView {
        self@
    }
}

impl Clone for ChatVo {
    fn clone(&self) -> (copy: Self)
        ensures
            copy == *self,
    {
        match self {
            ChatVo::User { uid, user_name, mid, msg, msg_time, unread } => ChatVo::User {
                uid: *uid,
                user_name: user_name.clone(),
                mid: *mid,
                msg: msg.clone(),
                msg_time: *msg_time,
                unread: unread.clone(),
            },
            ChatVo::Group {
                gid,
                group_name,
                uid,
                user_name,
                mid,
                msg,
                msg_time,
                unread,
            } => ChatVo::Group {
                gid: *gid,
                group_name: group_name.clone(),
                uid: *uid,
                user_name: user_name.clone(),
                mid: *mid,
                msg: msg.clone(),
                msg_time: *msg_time,
                unread: unread.clone(),
            },
        }
    }
}

/// The unread counter after one more unread message: 1 where there was
/// none, one more where there was a number that can grow, and the counter
/// itself where it says `all`, is no number, or is the largest `i32`.
pub open spec fn spec_update_unread(unread: Option<Seq<char>>) -> Option<Seq<char>> {
    match unread {
        None => Some(decimal(1)),
        Some(count) => if count == "all"@ {
            Some(count)
        } else {
            match spec_parse_i32(count) {
                Some(n) => if n < i32::MAX {
                    Some(decimal(n + 1))
                } else {
                    Some(count)
                },
                None => Some(count),
            }
        },
    }
}

/// The unread counter after one more unread message.
pub fn update_unread(unread: &Option<String>) -> (counter: Option<String>)
    ensures
        counter.deep_view() == spec_update_unread(unread.deep_view()),
{
    match unread {
        None => Some(i32_to_string(1)),
        Some(count) => {
            let all = String::from_str("all");
            if *count == all {
                Some(count.clone())
            } else {
                match parse_i32(count.as_str()) {
                    Some(n) => {
                        if n < i32::MAX {
                            Some(i32_to_string(n + 1))
                        } else {
                            Some(count.clone())
                        }
                    },
                    None => Some(count.clone()),
                }
            }
        },
    }
}

impl ChatVoView {
    /// The unread counter of the row.
    pub open spec fn unread(self) -> Option<Seq<char>> {
        match self {
            ChatVoView::User { unread, .. } => unread,
            ChatVoView::Group { unread, .. } => unread,
        }
    }

    /// The row with `unread` as its counter.
    pub open spec fn with_unread(self, unread: Option<Seq<char>>) -> ChatVoView {
        match self {
            ChatVoView::User { uid, user_name, mid, msg, msg_time, .. } => ChatVoView::User {
                uid,
                user_name,
                mid,
                msg,
                msg_time,
                unread,
            },
            ChatVoView::Group {
                gid,
                group_name,
                uid,
                user_name,
                mid,
                msg,
                msg_time,
                ..
            } => ChatVoView::Group { gid, group_name, uid, user_name, mid, msg, msg_time, unread },
        }
    }

    /// The row with nothing unread.
    pub open spec fn reset_unread(self) -> ChatVoView {
        self.with_unread(None)
    }
}

impl ChatVo {
    /// Marks everything in the conversation as read.
    pub fn reset_unread(&mut self)
        ensures
            final(self)@ == old(self)@.reset_unread(),
    {
        match self {
            ChatVo::User { unread, .. } => {
                *unread = None;
            },
            ChatVo::Group { unread, .. } => {
                *unread = None;
            },
        }
    }
}


impl ChatVoView {
    /// Whether the row is the conversation that `to_chat` names: a user row
    /// for a user with the same id, a group row for a group with the same id.
    pub open spec fn is_for(self, to_chat: ToChatView) -> bool {
        match (self, to_chat) {
            (ChatVoView::User { uid, .. }, ToChatView::User(u_id, _)) => uid == u_id,
            (ChatVoView::Group { gid, .. }, ToChatView::Group(g_id, _)) => gid == g_id,
            _ => false,
        }
    }

    /// The row of a conversation in which nothing was said yet.
    pub open spec fn blank(to_chat: ToChatView) -> ChatVoView {
        match to_chat {
            ToChatView::User(uid, user_name) => ChatVoView::User {
                uid,
                user_name,
                mid: 0,
                msg: Seq::empty(),
                msg_time: 0,
                unread: None,
            },
            ToChatView::Group(gid, group_name) => ChatVoView::Group {
                gid,
                group_name,
                uid: 0,
                user_name: Seq::empty(),
                mid: 0,
                msg: Seq::empty(),
                msg_time: 0,
                unread: None,
            },
        }
    }

    /// Whether `message` belongs to the conversation of the row: for a user
    /// row, the user is whom the message is addressed to or who sent it; for
    /// a group row, the group is whom it is addressed to.
    pub open spec fn receives(self, message: ChatMessageView) -> bool {
        match (self, message.target) {
            (ChatVoView::User { uid, .. }, MessageTarget::User(target)) => uid == target.uid || uid
                == message.from_uid,
            (ChatVoView::Group { gid, .. }, MessageTarget::Group(target)) => gid == target.gid,
            _ => false,
        }
    }

    /// The row after `message` arrived in its conversation. Id, text and
    /// time of the last message are those of `message`. A group row takes
    /// the sender's id and name too, where the name is known. The unread
    /// counter grows by one unless the row is the selected one.
    pub open spec fn update(
        self,
        message: ChatMessageView,
        is_selected: bool,
        sender_name: Option<Seq<char>>,
    ) -> ChatVoView {
        let counter = if is_selected {
            self.unread()
        } else {
            spec_update_unread(self.unread())
        };
        match self {
            ChatVoView::User { uid, user_name, .. } => ChatVoView::User {
                uid,
                user_name,
                mid: message.mid,
                msg: message.detail.content(),
                msg_time: message.created_at,
                unread: counter,
            },
            ChatVoView::Group { gid, group_name, uid, user_name, .. } => ChatVoView::Group {
                gid,
                group_name,
                uid: if sender_name is Some {
                    message.from_uid
                } else {
                    uid
                },
                user_name: match sender_name {
                    Some(name) => name,
                    None => user_name,
                },
                mid: message.mid,
                msg: message.detail.content(),
                msg_time: message.created_at,
                unread: counter,
            },
        }
    }

    /// The row after `message` was pushed by the server: updated where the
    /// message belongs to its conversation, untouched where not.
    pub open spec fn receive(
        self,
        message: ChatMessageView,
        is_selected: bool,
        sender_name: Option<Seq<char>>,
    ) -> ChatVoView {
        if self.receives(message) {
            self.update(message, is_selected, sender_name)
        } else {
            self
        }
    }
}

impl ChatVo {
    /// Whether the row is the conversation that `to_chat` names.
    pub fn is_for(&self, to_chat: &ToChat) -> (same: bool)
        ensures
            same == self@.is_for(to_chat@),
    {
        match (self, to_chat) {
            (ChatVo::User { uid, .. }, ToChat::User(u_id, _)) => *uid == *u_id,
            (ChatVo::Group { gid, .. }, ToChat::Group(g_id, _)) => *gid == *g_id,
            _ => false,
        }
    }

    /// The row of a conversation in which nothing was said yet.
    pub fn blank(to_chat: ToChat) -> (row: Self)
        ensures
            row@ == ChatVoView::blank(to_chat@),
    {
        match to_chat {
            ToChat::User(uid, user_name) => ChatVo::User {
                uid,
                user_name,
                mid: 0,
                msg: String::new(),
                msg_time: 0,
                unread: None,
            },
            ToChat::Group(gid, group_name) => ChatVo::Group {
                gid,
                group_name,
                uid: 0,
                user_name: String::new(),
                mid: 0,
                msg: String::new(),
                msg_time: 0,
                unread: None,
            },
        }
    }

    /// Whether `chat_message` belongs to the conversation of the row.
    pub fn receives(&self, chat_message: &ChatMessage) -> (belongs: bool)
        ensures
            belongs == self@.receives(chat_message@),
    {
        match (self, chat_message.payload.target) {
            (ChatVo::User { uid, .. }, MessageTarget::User(target)) => *uid == target.uid || *uid
                == chat_message.payload.from_uid,
            (ChatVo::Group { gid, .. }, MessageTarget::Group(target)) => *gid == target.gid,
            _ => false,
        }
    }

    /// Takes `chat_message` as the last message of the conversation; see
    /// `ChatVoView::update`.
    pub fn update(&mut self, chat_message: &ChatMessage, is_selected: bool, sender_name: Option<String>)
        ensures
            final(self)@ == old(self)@.update(chat_message@, is_selected, sender_name.deep_view()),
    {
        match self {
            ChatVo::User { mid, msg, msg_time, unread, .. } => {
                *mid = chat_message.mid;
                *msg = chat_message.payload.detail.get_content();
                *msg_time = chat_message.payload.created_at;
                if !is_selected {
                    let counter = update_unread(unread);
                    *unread = counter;
                }
            },
            ChatVo::Group { uid, user_name, mid, msg, msg_time, unread, .. } => {
                if let Some(name) = sender_name {
                    *uid = chat_message.payload.from_uid;
                    *user_name = name;
                }
                *mid = chat_message.mid;
                *msg = chat_message.payload.detail.get_content();
                *msg_time = chat_message.payload.created_at;
                if !is_selected {
                    let counter = update_unread(unread);
                    *unread = counter;
                }
            },
        }
    }
}


/// The list of recent conversations.
#[derive(Debug, PartialEq, Eq)]
pub struct RecentChat {
    /// The rows, in the order shown.
    pub chat_vos: Vec<ChatVo>,
    /// The selection.
    pub list_state: ListState,
    /// Whether the list waits for the rows that it asked the backend for.
    pub fetching: bool,
}

/// A `RecentChat` with its rows as a sequence and its selection as an index.
pub struct RecentChatView {
    pub chat_vos: Seq<ChatVoView>,
    pub selected: Option<usize>,
    pub fetching: bool,
}

impl View for RecentChat {
    type V = RecentChatView;

    open spec fn view(&self) -> RecentChatView {
        RecentChatView {
            chat_vos: self.chat_vos.deep_view(),
            selected: selected_of(self.list_state),
            fetching: self.fetching,
        }
    }
}

/// What a key press or an action leaves behind: the list, the mode, the
/// open conversation, and how the turn ended.
pub struct RecentChatStep {
    pub list: RecentChatView,
    pub mode: Mode,
    pub holder: ChatVoHolderView,
    pub turn: TurnView,
}

/// The first position from `from` on at which `rows` holds the conversation
/// that `to_chat` names.
pub open spec fn first_row_for(rows: Seq<ChatVoView>, to_chat: ToChatView, from: int) -> Option<int>
    decreases rows.len() - from,
{
    if from < 0 || from >= rows.len() {
        None
    } else if rows[from].is_for(to_chat) {
        Some(from)
    } else {
        first_row_for(rows, to_chat, from + 1)
    }
}

impl RecentChatView {
    /// The list before anything was fetched.
    pub open spec fn empty() -> RecentChatView {
        RecentChatView { chat_vos: Seq::empty(), selected: None, fetching: false }
    }

    /// The position of the selected row, where the selection lies within
    /// the list.
    pub open spec fn selected_row(self) -> Option<int> {
        match self.selected {
            Some(index) => if index < self.chat_vos.len() {
                Some(index as int)
            } else {
                None
            },
            None => None,
        }
    }

    /// The list after the selected row was published as the open
    /// conversation: that row has nothing unread any more.
    pub open spec fn send_chat(self) -> RecentChatView {
        match self.selected_row() {
            Some(index) => RecentChatView {
                chat_vos: self.chat_vos.update(index, self.chat_vos[index].reset_unread()),
                ..self
            },
            None => self,
        }
    }

    /// The open conversation after the selected row was published: the
    /// selected row with nothing unread, its transcript still to be fetched.
    /// Where the selection lies outside the list, `holder` stays.
    pub open spec fn published(self, holder: ChatVoHolderView) -> ChatVoHolderView {
        match self.selected_row() {
            Some(index) => ChatVoHolderView {
                chat_vo: Some(self.chat_vos[index].reset_unread()),
                need_fetch: true,
            },
            None => holder,
        }
    }

    /// The list with `index` selected.
    pub open spec fn select(self, index: Option<usize>) -> RecentChatView {
        RecentChatView { selected: index, ..self }
    }

    /// What a key press does. Outside of mode `RecentChat` the list ignores
    /// every key. Down and Up move the selection and publish the selected
    /// row at once; Enter makes `Chat` the mode.
    pub open spec fn handle_key_event(self, mode: Mode, holder: ChatVoHolderView, key: KeyEvent)
        -> RecentChatStep {
        if mode != Mode::RecentChat {
            RecentChatStep { list: self, mode, holder, turn: TurnView::nothing() }
        } else {
            match key.code {
                KeyCode::Down => {
                    let moved = self.select(Some(next_index(self.selected)));
                    RecentChatStep {
                        list: moved.send_chat(),
                        mode,
                        holder: moved.published(holder),
                        turn: TurnView::nothing(),
                    }
                },
                KeyCode::Up => {
                    let moved = self.select(Some(previous_index(self.selected)));
                    RecentChatStep {
                        list: moved.send_chat(),
                        mode,
                        holder: moved.published(holder),
                        turn: TurnView::nothing(),
                    }
                },
                KeyCode::Enter => RecentChatStep {
                    list: self,
                    mode: Mode::Chat,
                    holder,
                    turn: TurnView::nothing(),
                },
                _ => RecentChatStep { list: self, mode, holder, turn: TurnView::nothing() },
            }
        }
    }

    /// The list with the conversation that `to_chat` names selected: the
    /// first row that holds it, or a blank row put in at the front where no
    /// row holds it.
    pub open spec fn open(self, to_chat: ToChatView) -> RecentChatView {
        match first_row_for(self.chat_vos, to_chat, 0) {
            Some(index) => self.select(Some(index as usize)),
            None => RecentChatView {
                chat_vos: self.chat_vos.insert(0, ChatVoView::blank(to_chat)),
                selected: Some(0),
                ..self
            },
        }
    }

    /// What an action does. A successful login, with a user logged in, asks
    /// the backend for the rows. `ToChat` makes `RecentChat` the mode,
    /// selects the conversation named and publishes it. Nothing else changes
    /// anything.
    pub open spec fn update(
        self,
        mode: Mode,
        holder: ChatVoHolderView,
        logged_in: bool,
        action: ActionView,
    ) -> RecentChatStep {
        match action {
            ActionView::LoginSuccess => if logged_in {
                RecentChatStep {
                    list: RecentChatView { fetching: true, ..self },
                    mode,
                    holder,
                    turn: TurnView::Call(RequestView::RecentChats),
                }
            } else {
                RecentChatStep { list: self, mode, holder, turn: TurnView::nothing() }
            },
            ActionView::ToChat(to_chat) => {
                let opened = self.open(to_chat);
                RecentChatStep {
                    list: opened.send_chat(),
                    mode: Mode::RecentChat,
                    holder: opened.published(holder),
                    turn: TurnView::nothing(),
                }
            },
            _ => RecentChatStep { list: self, mode, holder, turn: TurnView::nothing() },
        }
    }

    /// The list after the backend answered. Rows that were asked for replace
    /// the list wholesale; a failure leaves the list and raises an alert.
    /// What was not asked for is ignored.
    pub open spec fn resume(self, response: ResponseView) -> RecentChatView {
        if !self.fetching {
            self
        } else {
            match response {
                ResponseView::RecentChats(rows) => RecentChatView {
                    chat_vos: rows,
                    fetching: false,
                    ..self
                },
                _ => RecentChatView { fetching: false, ..self },
            }
        }
    }

    /// How the turn ends when the backend answered.
    pub open spec fn resume_turn(self, response: ResponseView) -> TurnView {
        match response {
            ResponseView::Failed(reason) => if self.fetching {
                TurnView::alert(reason)
            } else {
                TurnView::nothing()
            },
            _ => TurnView::nothing(),
        }
    }

    /// The list after the server pushed `message`: every row that the
    /// message belongs to is updated, and its unread counter grows unless it
    /// is the row selected at that moment.
    pub open spec fn receive(self, message: ChatMessageView, sender_name: Option<Seq<char>>)
        -> RecentChatView {
        RecentChatView {
            chat_vos: Seq::new(
                self.chat_vos.len(),
                |i: int|
                    self.chat_vos[i].receive(
                        message,
                        self.selected == Some(i as usize),
                        sender_name,
                    ),
            ),
            ..self
        }
    }
}

/// Whether a group row among `rows` takes `message`.
pub open spec fn spec_needs_sender_name(rows: Seq<ChatVoView>, message: ChatMessageView) -> bool {
    exists|i: int| 0 <= i < rows.len() && (#[trigger] rows[i]) is Group && rows[i].receives(message)
}

/// `first_row_for` finds the first row for the conversation: a row for it,
/// with none for it before; and `None` only where no row is for it.
pub proof fn lemma_first_row_for(rows: Seq<ChatVoView>, to_chat: ToChatView, from: int)
    requires
        0 <= from,
    ensures
        first_row_for(rows, to_chat, from) matches Some(index) ==> {
            &&& from <= index < rows.len()
            &&& rows[index].is_for(to_chat)
            &&& forall|j: int| from <= j < index ==> !(#[trigger] rows[j]).is_for(to_chat)
        },
        first_row_for(rows, to_chat, from) is None ==> forall|j: int|
            from <= j < rows.len() ==> !(#[trigger] rows[j]).is_for(to_chat),
    decreases rows.len() - from,
{
    if from < rows.len() && !rows[from].is_for(to_chat) {
        lemma_first_row_for(rows, to_chat, from + 1);
    }
}

impl RecentChat {
    /// An empty list with nothing selected.
    pub fn new() -> (list: Self)
        ensures
            list@ == RecentChatView::empty(),
    {
        let list = RecentChat { chat_vos: Vec::new(), list_state: new_list_state(), fetching: false };
        assert(list.chat_vos.deep_view() =~= Seq::<ChatVoView>::empty());
        list
    }

    /// Publishes the selected row as the open conversation and marks it as
    /// read. Nothing happens where the selection lies outside the list.
    pub fn send_chat(&mut self, holder: &mut ChatVoHolder)
        ensures
            final(self)@ == old(self)@.send_chat(),
            final(holder)@ == old(self)@.published(old(holder)@),
    {
        match selected(&self.list_state) {
            Some(i) => {
                if i < self.chat_vos.len() {
                    let mut row = self.chat_vos[i].clone();
                    row.reset_unread();
                    holder.set_chat_vo(row.clone());
                    self.chat_vos.set(i, row);
                    assert(self.chat_vos.deep_view() =~= old(self).chat_vos.deep_view().update(
                        i as int,
                        old(self).chat_vos.deep_view()[i as int].reset_unread(),
                    ));
                }
            },
            None => {},
        }
    }

    /// Reacts to a key press; see `RecentChatView::handle_key_event`. The
    /// list never answers a key with an action.
    pub fn handle_key_event(
        &mut self,
        mode_holder: &mut ModeHolderLock,
        holder: &mut ChatVoHolder,
        key: KeyEvent,
    ) -> (action: Option<Action>)
        ensures
            action is None,
            (RecentChatStep {
                list: final(self)@,
                mode: final(mode_holder).mode(),
                holder: final(holder)@,
                turn: TurnView::nothing(),
            }) == old(self)@.handle_key_event(old(mode_holder).mode(), old(holder)@, key),
    {
        match mode_holder.get_mode() {
            Mode::RecentChat => {},
            _ => {
                return None;
            },
        }
        match key.code {
            KeyCode::Down => {
                select_next(&mut self.list_state);
                self.send_chat(holder);
            },
            KeyCode::Up => {
                select_previous(&mut self.list_state);
                self.send_chat(holder);
            },
            KeyCode::Enter => {
                mode_holder.set_mode(Mode::Chat);
            },
            _ => {},
        }
        None
    }

    /// The first row that holds the conversation that `to_chat` names.
    pub fn find(&self, to_chat: &ToChat) -> (index: Option<usize>)
        ensures
            index matches Some(i) ==> first_row_for(self@.chat_vos, to_chat@, 0) == Some(i as int),
            index is None ==> first_row_for(self@.chat_vos, to_chat@, 0) is None,
    {
        let mut i: usize = 0;
        while i < self.chat_vos.len()
            invariant
                i <= self.chat_vos.len(),
                first_row_for(self@.chat_vos, to_chat@, 0) == first_row_for(
                    self@.chat_vos,
                    to_chat@,
                    i as int,
                ),
            decreases self.chat_vos.len() - i,
        {
            if self.chat_vos[i].is_for(to_chat) {
                return Some(i);
            }
            i = i + 1;
        }
        None
    }

    /// Selects the conversation that `to_chat` names, with a blank row put
    /// in at the front where the list has none for it.
    pub fn open(&mut self, to_chat: &ToChat)
        ensures
            final(self)@ == old(self)@.open(to_chat@),
    {
        match self.find(to_chat) {
            Some(index) => {
                select(&mut self.list_state, Some(index));
            },
            None => {
                self.chat_vos.insert(0, ChatVo::blank(to_chat.clone()));
                select(&mut self.list_state, Some(0));
                assert(self.chat_vos.deep_view() =~= old(self).chat_vos.deep_view().insert(
                    0,
                    ChatVoView::blank(to_chat@),
                ));
            },
        }
    }

    /// Reacts to an action; see `RecentChatView::update`.
    pub fn update(
        &mut self,
        mode_holder: &mut ModeHolderLock,
        holder: &mut ChatVoHolder,
        current_user: &CurrentUser,
        action: &Action,
    ) -> (turn: Turn)
        ensures
            (RecentChatStep {
                list: final(self)@,
                mode: final(mode_holder).mode(),
                holder: final(holder)@,
                turn: turn@,
            }) == old(self)@.update(
                old(mode_holder).mode(),
                old(holder)@,
                current_user.user is Some,
                action@,
            ),
    {
        match action {
            Action::LoginSuccess => {
                if current_user.user.is_some() {
                    self.fetching = true;
                    Turn::Call(Request::RecentChats)
                } else {
                    Turn::Done(None)
                }
            },
            Action::ToChat(to_chat) => {
                mode_holder.set_mode(Mode::RecentChat);
                self.open(to_chat);
                self.send_chat(holder);
                Turn::Done(None)
            },
            _ => Turn::Done(None),
        }
    }

    /// Takes the backend's answer; see `RecentChatView::resume`.
    pub fn resume(&mut self, response: Response) -> (turn: Turn)
        ensures
            final(self)@ == old(self)@.resume(response@),
            turn@ == old(self)@.resume_turn(response@),
    {
        if !self.fetching {
            return Turn::Done(None);
        }
        self.fetching = false;
        match response {
            Response::RecentChats(rows) => {
                self.chat_vos = rows;
                Turn::Done(None)
            },
            Response::Failed(reason) => Turn::alert(reason),
            _ => Turn::Done(None),
        }
    }

    /// Takes a message that the server pushed; see `RecentChatView::receive`.
    /// `sender_name` is the name of who sent the message, where it is known.
    pub fn receive(&mut self, chat_message: &ChatMessage, sender_name: Option<String>)
        ensures
            final(self)@ == old(self)@.receive(chat_message@, sender_name.deep_view()),
    {
        let selected_idx = selected(&self.list_state);
        let mut i: usize = 0;
        while i < self.chat_vos.len()
            invariant
                i <= self.chat_vos.len(),
                self.chat_vos.len() == old(self).chat_vos.len(),
                self.list_state == old(self).list_state,
                self.fetching == old(self).fetching,
                selected_idx == selected_of(self.list_state),
                forall|j: int|
                    0 <= j < i ==> (#[trigger] self.chat_vos[j])@ == old(self).chat_vos[j]@.receive(
                        chat_message@,
                        selected_idx == Some(j as usize),
                        sender_name.deep_view(),
                    ),
                forall|j: int|
                    i <= j < self.chat_vos.len() ==> #[trigger] self.chat_vos[j] == old(
                        self,
                    ).chat_vos[j],
            decreases self.chat_vos.len() - i,
        {
            if self.chat_vos[i].receives(chat_message) {
                let is_selected = match selected_idx {
                    Some(index) => index == i,
                    None => false,
                };
                let mut row = self.chat_vos[i].clone();
                row.update(chat_message, is_selected, sender_name.clone());
                self.chat_vos.set(i, row);
            }
            i = i + 1;
        }
        assert(self@.chat_vos =~= old(self)@.receive(chat_message@, sender_name.deep_view()).chat_vos);
    }

    /// Whether the name of the sender of `chat_message` has to be looked up
    /// before the message is handed to `receive`: it has to where a group
    /// row takes the message.
    pub fn needs_sender_name(&self, chat_message: &ChatMessage) -> (needed: bool)
        ensures
            needed == spec_needs_sender_name(self@.chat_vos, chat_message@),
    {
        let mut i: usize = 0;
        while i < self.chat_vos.len()
            invariant
                i <= self.chat_vos.len(),
                forall|j: int|
                    0 <= j < i ==> !((#[trigger] self@.chat_vos[j]) is Group
                        && self@.chat_vos[j].receives(chat_message@)),
            decreases self.chat_vos.len() - i,
        {
            let group = match &self.chat_vos[i] {
                ChatVo::Group { .. } => true,
                ChatVo::User { .. } => false,
            };
            if group && self.chat_vos[i].receives(chat_message) {
                assert(self@.chat_vos[i as int] is Group && self@.chat_vos[i as int].receives(
                    chat_message@,
                ));
                return true;
            }
            i = i + 1;
        }
        false
    }

    /// Whether the list is drawn in `mode`.
    pub fn is_visible(mode: Mode) -> (visible: bool)
        ensures
            visible == (mode == Mode::RecentChat || mode == Mode::Chat || mode == Mode::GroupManager),
    {
        match mode {
            Mode::RecentChat | Mode::Chat | Mode::GroupManager => true,
            _ => false,
        }
    }
}


/// The number that an unread counter stands for: 0 where there is no
/// counter, and none where the counter is no number.
pub open spec fn unread_number(unread: Option<Seq<char>>) -> Option<int> {
    match unread {
        None => Some(0),
        Some(count) => match spec_parse_i32(count) {
            Some(n) => Some(n as int),
            None => None,
        },
    }
}

/// One more unread message makes a counter that stands for a number stand
/// for the next number.
pub proof fn lemma_update_unread_adds_one(unread: Option<Seq<char>>)
    requires
        unread_number(unread) is Some,
        unread_number(unread)->0 < i32::MAX,
    ensures
        unread_number(spec_update_unread(unread)) == Some(unread_number(unread)->0 + 1),
{
    reveal_strlit("all");
    match unread {
        None => {
            lemma_parse_decimal_roundtrip(1);
        },
        Some(count) => {
            if count == "all"@ {
                assert(digit_value(count.last()) is None);
                assert(number_of(count) is None);
            } else {
                let n = spec_parse_i32(count)->0;
                lemma_parse_decimal_roundtrip(n + 1);
            }
        },
    }
}

/// With row `a` selected, a message that belongs to another row `b` makes
/// the unread counter of `b` grow by one and leaves that of `a` as it is;
/// and a message that belongs to `a` leaves the counter of `a` as it is too.
pub proof fn lemma_unread_accounting(
    list: RecentChatView,
    a: int,
    b: int,
    message: ChatMessageView,
    sender_name: Option<Seq<char>>,
)
    requires
        0 <= a < list.chat_vos.len() <= usize::MAX,
        0 <= b < list.chat_vos.len(),
        a != b,
        list.selected == Some(a as usize),
        list.chat_vos[b].receives(message),
    ensures
        list.receive(message, sender_name).chat_vos.len() == list.chat_vos.len(),
        list.receive(message, sender_name).chat_vos[b].unread() == spec_update_unread(
            list.chat_vos[b].unread(),
        ),
        unread_number(list.chat_vos[b].unread()) is Some && unread_number(
            list.chat_vos[b].unread(),
        )->0 < i32::MAX ==> unread_number(list.receive(message, sender_name).chat_vos[b].unread())
            == Some(unread_number(list.chat_vos[b].unread())->0 + 1),
        list.receive(message, sender_name).chat_vos[a].unread() == list.chat_vos[a].unread(),
        !list.chat_vos[a].receives(message) ==> list.receive(message, sender_name).chat_vos[a]
            == list.chat_vos[a],
{
    if unread_number(list.chat_vos[b].unread()) is Some && unread_number(
        list.chat_vos[b].unread(),
    )->0 < i32::MAX {
        lemma_update_unread_adds_one(list.chat_vos[b].unread());
    }
}

} // verus!
