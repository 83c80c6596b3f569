//! The application: the mode value that says which screen is active, the
//! quit flag, the events of the terminal, the queue of actions, and the
//! dispatcher that offers every key press and every action to every screen.
//!
//! The dispatcher never waits and never draws. `App::handle_events` takes an
//! event of the terminal, `App::step` offers the next key press or action to
//! the screens, and `App::resume` hands a screen the response that it waits
//! for. Each says in an `Effect` what the loop is to do next: perform an
//! operation of the backend, step again, or, once nothing is left to offer,
//! let the terminal do what the drained pass asks for. A ghost record of
//! what went through the queue states what every screen has been offered.

use crate::action::Action;
use crate::action::ActionView;
use crate::components::alert::Alert;
use crate::components::alert::AlertView;
use crate::components::chat::Chat;
use crate::components::chat::ChatView;
use crate::components::chat::ChatVoHolder;
use crate::components::chat::ChatVoHolderView;
use crate::components::contact::Contact;
use crate::components::contact::ContactView;
use crate::components::event::ChatMessage;
use crate::components::event::ChatMessageView;
use crate::components::group_manager::GroupManager;
use crate::components::group_manager::GroupManagerView;
use crate::components::login::Login;
use crate::components::login::LoginView;
use crate::components::navigation::is_tabbed;
use crate::components::navigation::next_tab_mode;
use crate::components::navigation::Navigation;
use crate::components::navigation::NavigationItem;
use crate::components::recent_chat::RecentChat;
use crate::components::recent_chat::RecentChatView;
use crate::components::setting::Setting;
use crate::key::KeyEvent;
use crate::keymap::chord_after;
use crate::keymap::lookup;
use crate::keymap::routed;
use crate::keymap::BindingView;
use crate::keymap::KeyBindings;
use crate::proxy::Request;
use crate::proxy::RequestView;
use crate::proxy::Response;
use crate::proxy::ResponseView;
use crate::proxy::Turn;
use crate::proxy::TurnView;
use crate::token::CurrentUserLock;
use crate::token::CurrentUserView;
use vstd::prelude::*;
use vstd::string::StringExecFns;

verus! {

/// The screen that currently receives key events and renders its content.
#[derive(Debug, Clone, Copy, PartialEq, Eq, Hash, Structural)]
pub enum Mode {
    Login,
    RecentChat,
    Chat,
    Contact,
    GroupManager,
    Setting,
    Alert,
}

impl Default for Mode {
    fn default() -> (m: Self)
        ensures
            m == Mode::Login,
    {
        Mode::Login
    }
}

/// Holds the current mode.
#[derive(Debug, Clone, Copy)]
pub struct ModeHolder {
    pub mode: Mode,
}

impl Default for ModeHolder {
    fn default() -> (h: Self)
        ensures
            h.mode == Mode::Login,
    {
        ModeHolder { mode: Mode::Login }
    }
}

impl ModeHolder {
    /// Overwrites the mode. No transition is refused here: which transitions
    /// are valid is decided by the screens.
    pub fn set_mode(&mut self, mode: Mode)
        ensures
            final(self).mode == mode,
    {
        self.mode = mode;
    }
}

/// Exclusive handle on the mode. Whoever holds `&mut ModeHolderLock` holds
/// the lock: nobody else reads or writes the mode meanwhile. The handle is
/// not copied: who wants to share it between threads puts it behind a lock
/// of their own and hands out `&mut ModeHolderLock` while that lock is held.
#[derive(Debug)]
pub struct ModeHolderLock(pub ModeHolder);

impl ModeHolderLock {
    pub open spec fn mode(&self) -> Mode {
        self.0.mode
    }

    /// A handle whose mode is `mode`.
    pub fn new(mode: Mode) -> (lock: Self)
        ensures
            lock.mode() == mode,
    {
        ModeHolderLock(ModeHolder { mode })
    }

    /// Overwrites the mode.
    pub fn set_mode(&mut self, mode: Mode)
        ensures
            final(self).mode() == mode,
    {
        self.0.set_mode(mode);
    }

    /// The current mode.
    pub fn get_mode(&self) -> (mode: Mode)
        ensures
            mode == self.mode(),
    {
        self.0.mode
    }
}

/// The flag that the application loop tests at the top of each iteration.
#[derive(Debug, Clone, Copy)]
pub struct ShouldQuit {
    pub should_quit: bool,
}

impl ShouldQuit {
    pub fn set_quit(&mut self, should_quit: bool)
        ensures
            final(self).should_quit == should_quit,
    {
        self.should_quit = should_quit;
    }
}


/// What the terminal reports.
#[derive(Debug, Clone, Copy, PartialEq, Eq)]
pub enum Event {
    Quit,
    Tick,
    Render,
    Resize(u16, u16),
    Key(KeyEvent),
    /// Anything that neither the loop nor a screen reacts to.
    Other,
}

/// What is offered to the screens, one after the other.
#[derive(Debug, PartialEq, Eq)]
pub enum Work {
    /// A key press, as it came from the terminal.
    Key(KeyEvent),
    /// An action, as it came off the queue.
    Act(Action),
}

/// A `Work` with its texts as sequences of characters.
pub enum WorkView {
    Key(KeyEvent),
    Act(ActionView),
}

impl View for Work {
    type V = WorkView;

    open spec fn view(&self) -> WorkView {
        match self {
            Work::Key(key) => WorkView::Key(*key),
            Work::Act(action) => WorkView::Act(action@),
        }
    }
}

impl Clone for Work {
    fn clone(&self) -> (copy: Self)
        ensures
            copy == *self,
    {
        match self {
            Work::Key(key) => Work::Key(*key),
            Work::Act(action) => Work::Act(action.clone()),
        }
    }
}

impl DeepView for Work {
    type V = WorkView;

    open spec fn deep_view(&self) -> WorkView {
        self@
    }
}

/// Something for the terminal to do once the queue is empty.
#[derive(Debug, Clone, Copy, PartialEq, Eq)]
pub enum TerminalOp {
    /// Clear the screen.
    Clear,
    /// Take the new size and draw every screen.
    Resize(u16, u16),
    /// Draw every screen.
    Render,
}

/// What a drained pass leaves for the loop to do.
#[derive(Debug, Clone, PartialEq, Eq)]
pub struct Frame {
    /// What the terminal is to do, in the order in which it was asked for.
    pub ops: Vec<TerminalOp>,
    /// Whether the program is to hand the terminal back for a while.
    pub suspend: bool,
    /// Whether the program is to end.
    pub quit: bool,
}

/// A `Frame` with its operations as a sequence.
pub struct FrameView {
    pub ops: Seq<TerminalOp>,
    pub suspend: bool,
    pub quit: bool,
}

impl View for Frame {
    type V = FrameView;

    open spec fn view(&self) -> FrameView {
        FrameView { ops: self.ops@, suspend: self.suspend, quit: self.quit }
    }
}

/// What the loop is to do next.
#[derive(Debug, Clone, PartialEq, Eq)]
pub enum Effect {
    /// Perform the operation and hand what comes back to `resume`.
    Call(Request),
    /// Perform the operation without waiting for it, and call `step` again.
    Send(Request),
    /// Call `step` again.
    Continue,
    /// A screen waits for a response: hand it to `resume`.
    Waiting,
    /// Nothing is left to offer. Let the terminal do what the frame asks
    /// for, then wait for the next event.
    Drained(Frame),
}

/// An `Effect` with its texts as sequences of characters.
pub enum EffectView {
    Call(RequestView),
    Send(RequestView),
    Continue,
    Waiting,
    Drained(FrameView),
}

impl View for Effect {
    type V = EffectView;

    open spec fn view(&self) -> EffectView {
        match self {
            Effect::Call(request) => EffectView::Call(request@),
            Effect::Send(request) => EffectView::Send(request@),
            Effect::Continue => EffectView::Continue,
            Effect::Waiting => EffectView::Waiting,
            Effect::Drained(frame) => EffectView::Drained(frame@),
        }
    }
}

impl DeepView for Effect {
    type V = EffectView;

    open spec fn deep_view(&self) -> EffectView {
        self@
    }
}

/// The record of what went through the queue: never read by the program,
/// kept to state what the screens have seen.
pub ghost struct Log {
    /// Every action that was put on the queue, in that order.
    pub posted: Seq<ActionView>,
    /// Every action that was taken off the queue, in that order.
    pub taken: Seq<ActionView>,
    /// For each screen, every action that it was offered, in that order.
    pub offered: Seq<Seq<ActionView>>,
}

/// How many screens there are.
pub const COMPONENT_COUNT: usize = 9;

/// The application: the screens, what they share, the queue of actions, and
/// how far the offering of the current key press or action has come.
///
/// The screens take their turns in this order: login, tab bar, list of
/// recent conversations, contacts, chat view, group manager, alert overlay,
/// settings, stream switch.
pub struct App {
    pub keymap: KeyBindings,
    pub mode: ModeHolderLock,
    pub current_user: CurrentUserLock,
    pub chat_vo: ChatVoHolder,
    pub should_quit: ShouldQuit,
    pub should_suspend: bool,
    /// The keys pressed since the last tick that are bound to nothing by
    /// themselves.
    pub last_tick_key_events: Vec<KeyEvent>,
    /// The key presses that the screens have not been offered yet.
    pub keys: Vec<KeyEvent>,
    /// The actions that the screens have not been offered yet.
    pub queue: Vec<Action>,
    pub login: Login,
    pub navigation: Navigation,
    pub recent_chat: RecentChat,
    pub contact: Contact,
    pub chat: Chat,
    pub group_manager: GroupManager,
    pub alert: Alert,
    pub setting: Setting,
    pub event: crate::components::event::Event,
    /// What is being offered to the screens.
    pub current: Option<Work>,
    /// How many screens have been offered it.
    pub cursor: usize,
    /// Whether the screen that was offered it last waits for a response.
    pub waiting: bool,
    /// What the terminal is to do once the queue is empty.
    pub ops: Vec<TerminalOp>,
    pub log: Ghost<Log>,
}

/// An `App` with its lists as sequences.
pub struct AppView {
    pub keymap: Seq<BindingView>,
    pub mode: Mode,
    pub current_user: CurrentUserView,
    pub chat_vo: ChatVoHolderView,
    pub should_quit: bool,
    pub should_suspend: bool,
    pub chord: Seq<KeyEvent>,
    pub keys: Seq<KeyEvent>,
    pub queue: Seq<ActionView>,
    pub login: LoginView,
    pub navigation: Navigation,
    pub recent_chat: RecentChatView,
    pub contact: ContactView,
    pub chat: ChatView,
    pub group_manager: GroupManagerView,
    pub alert: AlertView,
    pub setting: Setting,
    pub event: crate::components::event::Event,
    pub current: Option<WorkView>,
    pub cursor: nat,
    pub waiting: bool,
    pub ops: Seq<TerminalOp>,
    pub log: Log,
}

impl View for App {
    type V = AppView;

    open spec fn view(&self) -> AppView {
        AppView {
            keymap: self.keymap@,
            mode: self.mode.mode(),
            current_user: self.current_user.current()@,
            chat_vo: self.chat_vo@,
            should_quit: self.should_quit.should_quit,
            should_suspend: self.should_suspend,
            chord: self.last_tick_key_events@,
            keys: self.keys@,
            queue: self.queue.deep_view(),
            login: self.login@,
            navigation: self.navigation,
            recent_chat: self.recent_chat@,
            contact: self.contact@,
            chat: self.chat@,
            group_manager: self.group_manager@,
            alert: self.alert@,
            setting: self.setting,
            event: self.event,
            current: self.current.deep_view(),
            cursor: self.cursor as nat,
            waiting: self.waiting,
            ops: self.ops@,
            log: self.log@,
        }
    }
}

/// What a failed drawing is reported with, before the reason.
pub open spec fn draw_failure_prefix() -> Seq<char> {
    "Failed to draw: "@
}

impl AppView {
    /// The application at its start, with the given key bindings: the login
    /// screen is active and nothing has happened.
    pub open spec fn fresh(keymap: Seq<BindingView>) -> AppView {
        AppView {
            keymap,
            mode: Mode::Login,
            current_user: CurrentUserView { user: None, token: None },
            chat_vo: ChatVoHolderView { chat_vo: None, need_fetch: false },
            should_quit: false,
            should_suspend: false,
            chord: Seq::empty(),
            keys: Seq::empty(),
            queue: Seq::empty(),
            login: LoginView::fresh(),
            navigation: Navigation { item: NavigationItem::RecentChat },
            recent_chat: RecentChatView::empty(),
            contact: ContactView::fresh(),
            chat: ChatView::fresh(),
            group_manager: GroupManagerView::fresh(),
            alert: AlertView::closed(),
            setting: Setting {  },
            event: crate::components::event::Event { need_fetch: false },
            current: None,
            cursor: 0,
            waiting: false,
            ops: Seq::empty(),
            log: Log {
                posted: Seq::empty(),
                taken: Seq::empty(),
                offered: Seq::new(COMPONENT_COUNT as nat, |i: int| Seq::empty()),
            },
        }
    }

    /// The id of the user who is logged in.
    pub open spec fn me(self) -> Option<i32> {
        match self.current_user.user {
            Some(user) => Some(user.id),
            None => None,
        }
    }

    /// `action` goes to the end of the queue.
    pub open spec fn enqueue(self, action: Option<ActionView>) -> AppView {
        match action {
            Some(posted) => AppView {
                queue: self.queue.push(posted),
                log: Log { posted: self.log.posted.push(posted), ..self.log },
                ..self
            },
            None => self,
        }
    }

    /// What the global key bindings make of a key press in the current
    /// mode. A key that is bound by itself puts its action on the queue and
    /// leaves the chord as it is. Any other key joins the chord, and where
    /// the chord is bound then, the action of the chord goes on the queue.
    /// At most one action goes on the queue.
    pub open spec fn handle_key_event(self, key: KeyEvent) -> AppView {
        AppView {
            chord: chord_after(self.keymap, self.mode, self.chord, key),
            ..self
        }.enqueue(routed(self.keymap, self.mode, self.chord, key))
    }

    /// What an event of the terminal does: quit, tick, render and resize
    /// put their action on the queue; a key press goes through the global
    /// key bindings and waits to be offered to the screens.
    pub open spec fn handle_events(self, event: Event) -> AppView {
        match event {
            Event::Quit => self.enqueue(Some(ActionView::Quit)),
            Event::Tick => self.enqueue(Some(ActionView::Tick)),
            Event::Render => self.enqueue(Some(ActionView::Render)),
            Event::Resize(w, h) => self.enqueue(Some(ActionView::Resize(w, h))),
            Event::Key(key) => AppView {
                keys: self.keys.push(key),
                ..self.handle_key_event(key)
            },
            Event::Other => self,
        }
    }

    /// What the loop itself does with an action that comes off the queue,
    /// before the screens are offered it. A tick empties the chord; quit,
    /// suspend and resume set their flags; clearing, resizing and rendering
    /// are noted down for the terminal.
    pub open spec fn builtin(self, action: ActionView) -> AppView {
        match action {
            ActionView::Tick => AppView { chord: Seq::empty(), ..self },
            ActionView::Quit => AppView { should_quit: true, ..self },
            ActionView::Suspend => AppView { should_suspend: true, ..self },
            ActionView::Resume => AppView { should_suspend: false, ..self },
            ActionView::ClearScreen => AppView { ops: self.ops.push(TerminalOp::Clear), ..self },
            ActionView::Resize(w, h) => AppView {
                ops: self.ops.push(TerminalOp::Resize(w, h)),
                ..self
            },
            ActionView::Render => AppView { ops: self.ops.push(TerminalOp::Render), ..self },
            _ => self,
        }
    }

    /// The next thing to offer is taken up: the oldest key press that
    /// waits, and where none waits the oldest action on the queue.
    pub open spec fn begin(self) -> AppView {
        if self.keys.len() > 0 {
            AppView {
                current: Some(WorkView::Key(self.keys[0])),
                keys: self.keys.drop_first(),
                cursor: 0,
                ..self
            }
        } else if self.queue.len() > 0 {
            AppView {
                current: Some(WorkView::Act(self.queue[0])),
                queue: self.queue.drop_first(),
                cursor: 0,
                log: Log { taken: self.log.taken.push(self.queue[0]), ..self.log },
                ..self
            }.builtin(self.queue[0])
        } else {
            self
        }
    }

    /// Screen `index` is offered the key press `key`.
    #[verifier::opaque]
    pub open spec fn offer_key(self, index: nat, key: KeyEvent) -> (AppView, TurnView) {
        if index == 0 {
            if self.mode == Mode::Login {
                (
                    AppView { login: self.login.key_pressed(key), ..self },
                    TurnView::Done(self.login.key_action(key)),
                )
            } else {
                (self, TurnView::nothing())
            }
        } else if index == 2 {
            let step = self.recent_chat.handle_key_event(self.mode, self.chat_vo, key);
            (
                AppView { recent_chat: step.list, mode: step.mode, chat_vo: step.holder, ..self },
                step.turn,
            )
        } else if index == 3 {
            if self.mode == Mode::Contact {
                (
                    AppView { contact: self.contact.key_pressed(key), ..self },
                    self.contact.key_turn(key),
                )
            } else {
                (self, TurnView::nothing())
            }
        } else if index == 4 {
            let step = self.chat.handle_key_event(self.mode, self.chat_vo, key);
            (AppView { chat: step.chat, mode: step.mode, ..self }, step.turn)
        } else if index == 5 {
            let step = self.group_manager.handle_key_event(self.mode, self.me(), key);
            (AppView { group_manager: step.manager, mode: step.mode, ..self }, step.turn)
        } else if index == 6 {
            let step = self.alert.handle_key_event(self.mode, key);
            (AppView { alert: step.alert, mode: step.mode, ..self }, TurnView::Done(step.action))
        } else {
            (self, TurnView::nothing())
        }
    }

    /// Screen `index` is offered the action `action`.
    #[verifier::opaque]
    pub open spec fn offer_action(self, index: nat, action: ActionView) -> (AppView, TurnView) {
        if index == 0 {
            (AppView { login: self.login.update(self.mode, action).0, ..self }, self.login.update(
                self.mode,
                action,
            ).1)
        } else if index == 1 {
            if action is NextTab && is_tabbed(self.mode) {
                (
                    AppView {
                        navigation: Navigation { item: self.navigation.item.spec_circle() },
                        mode: next_tab_mode(self.mode),
                        ..self
                    },
                    TurnView::nothing(),
                )
            } else {
                (self, TurnView::nothing())
            }
        } else if index == 2 {
            let step = self.recent_chat.update(
                self.mode,
                self.chat_vo,
                self.current_user.user is Some,
                action,
            );
            (
                AppView { recent_chat: step.list, mode: step.mode, chat_vo: step.holder, ..self },
                step.turn,
            )
        } else if index == 3 {
            (
                AppView { contact: self.contact.update(self.mode, self.me(), action).0, ..self },
                self.contact.update(self.mode, self.me(), action).1,
            )
        } else if index == 4 {
            let step = self.chat.update(self.mode, self.chat_vo);
            (AppView { chat: step.chat, ..self }, step.turn)
        } else if index == 5 {
            let step = self.group_manager.update(self.mode, action);
            (AppView { group_manager: step.manager, mode: step.mode, ..self }, step.turn)
        } else if index == 6 {
            (
                AppView {
                    alert: self.alert.update(self.mode, action),
                    mode: AlertView::mode_after(self.mode, action),
                    ..self
                },
                TurnView::nothing(),
            )
        } else if index == 8 {
            (
                AppView {
                    event: crate::components::event::Event {
                        need_fetch: self.event.need_fetch || action is LoginSuccess,
                    },
                    ..self
                },
                TurnView::nothing(),
            )
        } else {
            (self, TurnView::nothing())
        }
    }

    /// Screen `index` is handed the response that it waited for.
    #[verifier::opaque]
    pub open spec fn answer(self, index: nat, response: ResponseView) -> (AppView, TurnView) {
        if index == 0 {
            let step = self.login.resume(self.mode, self.current_user, response);
            (
                AppView { login: step.login, mode: step.mode, current_user: step.user, ..self },
                step.turn,
            )
        } else if index == 2 {
            (
                AppView { recent_chat: self.recent_chat.resume(response), ..self },
                self.recent_chat.resume_turn(response),
            )
        } else if index == 3 {
            (
                AppView { contact: self.contact.resume(self.mode, self.me(), response).0, ..self },
                self.contact.resume(self.mode, self.me(), response).1,
            )
        } else if index == 4 {
            (
                AppView {
                    chat: self.chat.resume(response),
                    chat_vo: self.chat.fetched(self.chat_vo, response),
                    ..self
                },
                self.chat.resume_turn(response),
            )
        } else if index == 5 {
            (
                AppView { group_manager: self.group_manager.resume(response).0, ..self },
                self.group_manager.resume(response).1,
            )
        } else {
            (self, TurnView::nothing())
        }
    }

    /// The next screen in turn is offered what is being offered.
    pub open spec fn offer(self) -> (AppView, TurnView) {
        match self.current {
            Some(WorkView::Key(key)) => (
                AppView { cursor: self.cursor + 1, ..self.offer_key(self.cursor, key).0 },
                self.offer_key(self.cursor, key).1,
            ),
            Some(WorkView::Act(action)) => (
                AppView {
                    cursor: self.cursor + 1,
                    log: Log {
                        offered: self.log.offered.update(
                            self.cursor as int,
                            self.log.offered[self.cursor as int].push(action),
                        ),
                        ..self.log
                    },
                    ..self.offer_action(self.cursor, action).0
                },
                self.offer_action(self.cursor, action).1,
            ),
            None => (self, TurnView::nothing()),
        }
    }

    /// The end of a screen's turn is taken note of: its action goes on the
    /// queue, and an operation that it asks for is handed out.
    pub open spec fn settle(self, turn: TurnView) -> (AppView, Option<EffectView>) {
        match turn {
            TurnView::Done(action) => (AppView { waiting: false, ..self }.enqueue(action), None),
            TurnView::Send(request, action) => (
                AppView { waiting: false, ..self }.enqueue(action),
                Some(EffectView::Send(request)),
            ),
            TurnView::Call(request) => (
                AppView { waiting: true, ..self },
                Some(EffectView::Call(request)),
            ),
        }
    }

    /// The screens that are still to come are offered what is being
    /// offered, one after the other, until one of them asks for an
    /// operation or all have had their turn.
    pub open spec fn run(self) -> (AppView, EffectView)
        decreases COMPONENT_COUNT - self.cursor,
    {
        if self.current is None || self.cursor >= COMPONENT_COUNT {
            (AppView { current: None, cursor: 0, ..self }, EffectView::Continue)
        } else {
            let offered = self.offer();
            let settled = offered.0.settle(offered.1);
            match settled.1 {
                Some(effect) => (settled.0, effect),
                None => settled.0.run(),
            }
        }
    }

    /// Whether nothing is being offered and nothing waits to be.
    pub open spec fn is_drained(self) -> bool {
        &&& self.current is None
        &&& !self.waiting
        &&& self.keys.len() == 0
        &&& self.queue.len() == 0
    }

    /// One step of the loop. While a screen waits for a response nothing
    /// happens. Else the offering that was interrupted goes on, or the next
    /// key press or action is taken up and offered. Where nothing is left,
    /// the pass is drained, and what the terminal is to do is handed out.
    pub open spec fn step(self) -> (AppView, EffectView) {
        if self.waiting {
            (self, EffectView::Waiting)
        } else if self.current is Some {
            self.run()
        } else if self.keys.len() == 0 && self.queue.len() == 0 {
            (
                AppView { ops: Seq::empty(), ..self },
                EffectView::Drained(
                    FrameView {
                        ops: self.ops,
                        suspend: self.should_suspend,
                        quit: self.should_quit,
                    },
                ),
            )
        } else {
            self.begin().run()
        }
    }

    /// The response to the operation that a screen waits for is handed to
    /// that screen, and the offering goes on behind it. A response that no
    /// screen waits for is dropped.
    pub open spec fn resume(self, response: ResponseView) -> (AppView, EffectView) {
        if !self.waiting || self.cursor == 0 {
            self.step()
        } else {
            let answered = self.answer((self.cursor - 1) as nat, response);
            let settled = answered.0.settle(answered.1);
            match settled.1 {
                Some(effect) => (settled.0, effect),
                None => settled.0.run(),
            }
        }
    }

    /// A drawing failed: the failure goes on the queue as an error, for the
    /// next pass.
    pub open spec fn draw_failed(self, reason: Seq<char>) -> AppView {
        self.enqueue(Some(ActionView::Error(draw_failure_prefix() + reason)))
    }

    /// The program has the terminal back after a suspension: `Resume` and
    /// `ClearScreen` go on the queue.
    pub open spec fn resumed(self) -> AppView {
        self.enqueue(Some(ActionView::Resume)).enqueue(Some(ActionView::ClearScreen))
    }

    /// The server pushed `message`: the list of recent conversations and the
    /// chat view take it in, each by its own rule.
    pub open spec fn receive(self, message: ChatMessageView, sender_name: Option<Seq<char>>)
        -> AppView {
        AppView {
            recent_chat: self.recent_chat.receive(message, sender_name),
            chat: self.chat.receive(
                self.chat_vo.chat_vo,
                self.current_user.user,
                message,
                sender_name,
            ),
            ..self
        }
    }

    /// What the record has to say of the state: the queue holds what was
    /// posted and not taken; every screen that had its turn with the
    /// current action has been offered everything that was taken, and every
    /// other screen everything but the current action.
    pub open spec fn wf(self) -> bool {
        &&& self.log.offered.len() == COMPONENT_COUNT
        &&& self.cursor <= COMPONENT_COUNT
        &&& self.log.posted == self.log.taken + self.queue
        &&& self.waiting ==> self.current is Some && self.cursor >= 1
        &&& self.current matches Some(WorkView::Act(action)) ==> self.log.taken.len() > 0
            && self.log.taken.last() == action
        &&& forall|i: int|
            0 <= i < COMPONENT_COUNT ==> #[trigger] self.log.offered[i] == (if self.current matches Some(
                WorkView::Act(_),
            ) && i >= self.cursor {
                self.log.taken.drop_last()
            } else {
                self.log.taken
            })
    }
}


impl App {
    /// The application at its start, with the given key bindings.
    pub fn new(keymap: KeyBindings) -> (app: Self)
        ensures
            app@ == AppView::fresh(keymap@),
            app@.wf(),
    {
        let app = App {
            keymap,
            mode: ModeHolderLock::new(Mode::Login),
            current_user: CurrentUserLock::new(),
            chat_vo: ChatVoHolder::new(),
            should_quit: ShouldQuit { should_quit: false },
            should_suspend: false,
            last_tick_key_events: Vec::new(),
            keys: Vec::new(),
            queue: Vec::new(),
            login: Login::new(),
            navigation: Navigation::new(),
            recent_chat: RecentChat::new(),
            contact: Contact::new(),
            chat: Chat::new(),
            group_manager: GroupManager::new(),
            alert: Alert::new(),
            setting: Setting::new(),
            event: crate::components::event::Event::new(),
            current: None,
            cursor: 0,
            waiting: false,
            ops: Vec::new(),
            log: Ghost(
                Log {
                    posted: Seq::empty(),
                    taken: Seq::empty(),
                    offered: Seq::new(COMPONENT_COUNT as nat, |i: int| Seq::empty()),
                },
            ),
        };
        assert(app@.queue =~= Seq::<ActionView>::empty());
        assert(app@.log.posted =~= app@.log.taken + app@.queue);
        app
    }

    /// Puts `action` at the end of the queue.
    pub fn enqueue(&mut self, action: Option<Action>)
        ensures
            final(self)@ == old(self)@.enqueue(action.deep_view()),
            old(self)@.wf() ==> final(self)@.wf(),
    {
        proof {
            if self@.wf() {
                lemma_enqueue_keeps_wf(self@, action.deep_view());
            }
        }
        if let Some(posted) = action {
            proof {
                self.log@ = Log { posted: self.log@.posted.push(posted@), ..self.log@ };
            }
            self.queue.push(posted);
            assert(self.queue.deep_view() =~= old(self).queue.deep_view().push(posted@));
        }
    }

    /// Takes an event of the terminal; see `AppView::handle_events`.
    pub fn handle_events(&mut self, event: Event)
        ensures
            final(self)@ == old(self)@.handle_events(event),
            old(self)@.wf() ==> final(self)@.wf(),
    {
        proof {
            if self@.wf() {
                lemma_handle_events_keeps_wf(self@, event);
            }
        }
        match event {
            Event::Quit => self.enqueue(Some(Action::Quit)),
            Event::Tick => self.enqueue(Some(Action::Tick)),
            Event::Render => self.enqueue(Some(Action::Render)),
            Event::Resize(w, h) => self.enqueue(Some(Action::Resize(w, h))),
            Event::Key(key) => {
                self.handle_key_event(key);
                self.keys.push(key);
            },
            Event::Other => {},
        }
    }

    /// Takes a key press through the global key bindings of the current
    /// mode; see `AppView::handle_key_event`.
    pub fn handle_key_event(&mut self, key: KeyEvent)
        ensures
            final(self)@ == old(self)@.handle_key_event(key),
            old(self)@.wf() ==> final(self)@.wf(),
    {
        proof {
            if self@.wf() {
                lemma_handle_key_event_keeps_wf(self@, key);
            }
        }
        let action = self.keymap.route(self.mode.get_mode(), &mut self.last_tick_key_events, key);
        self.enqueue(action);
    }

    fn builtin(&mut self, action: &Action)
        ensures
            final(self)@ == old(self)@.builtin(action@),
    {
        match action {
            Action::Tick => {
                self.last_tick_key_events = Vec::new();
            },
            Action::Quit => {
                self.should_quit.set_quit(true);
            },
            Action::Suspend => {
                self.should_suspend = true;
            },
            Action::Resume => {
                self.should_suspend = false;
            },
            Action::ClearScreen => {
                self.ops.push(TerminalOp::Clear);
            },
            Action::Resize(w, h) => {
                self.ops.push(TerminalOp::Resize(*w, *h));
            },
            Action::Render => {
                self.ops.push(TerminalOp::Render);
            },
            _ => {},
        }
    }

    fn begin(&mut self)
        ensures
            final(self)@ == old(self)@.begin(),
    {
        if self.keys.len() > 0 {
            let key = self.keys.remove(0);
            self.current = Some(Work::Key(key));
            self.cursor = 0;
            assert(self.keys@ =~= old(self).keys@.drop_first());
        } else if self.queue.len() > 0 {
            let action = self.queue.remove(0);
            proof {
                self.log@ = Log { taken: self.log@.taken.push(action@), ..self.log@ };
            }
            assert(self.queue.deep_view() =~= old(self).queue.deep_view().drop_first());
            self.builtin(&action);
            self.current = Some(Work::Act(action));
            self.cursor = 0;
        }
    }

    fn key_to_login(&mut self, key: KeyEvent) -> (turn: Turn)
        ensures
            (final(self)@, turn@) == old(self)@.offer_key(0, key),
    {
        proof {
            reveal(AppView::offer_key);
        }
        Turn::Done(self.login.handle_key_event(&self.mode, key))
    }

    fn key_to_recent_chat(&mut self, key: KeyEvent) -> (turn: Turn)
        ensures
            (final(self)@, turn@) == old(self)@.offer_key(2, key),
    {
        proof {
            reveal(AppView::offer_key);
        }
        Turn::Done(self.recent_chat.handle_key_event(&mut self.mode, &mut self.chat_vo, key))
    }

    fn key_to_contact(&mut self, key: KeyEvent) -> (turn: Turn)
        ensures
            (final(self)@, turn@) == old(self)@.offer_key(3, key),
    {
        proof {
            reveal(AppView::offer_key);
        }
        self.contact.handle_key_event(&self.mode, key)
    }

    fn key_to_chat(&mut self, key: KeyEvent) -> (turn: Turn)
        ensures
            (final(self)@, turn@) == old(self)@.offer_key(4, key),
    {
        proof {
            reveal(AppView::offer_key);
        }
        self.chat.handle_key_event(&mut self.mode, &self.chat_vo, key)
    }

    fn key_to_group_manager(&mut self, key: KeyEvent) -> (turn: Turn)
        ensures
            (final(self)@, turn@) == old(self)@.offer_key(5, key),
    {
        proof {
            reveal(AppView::offer_key);
        }
        let me = self.current_user.get_user();
        self.group_manager.handle_key_event(&mut self.mode, &me, key)
    }

    fn key_to_alert(&mut self, key: KeyEvent) -> (turn: Turn)
        ensures
            (final(self)@, turn@) == old(self)@.offer_key(6, key),
    {
        proof {
            reveal(AppView::offer_key);
        }
        Turn::Done(self.alert.handle_key_event(&mut self.mode, key))
    }

    fn offer_key(&mut self, index: usize, key: KeyEvent) -> (turn: Turn)
        ensures
            (final(self)@, turn@) == old(self)@.offer_key(index as nat, key),
    {
        proof {
            reveal(AppView::offer_key);
        }
        if index == 0 {
            self.key_to_login(key)
        } else if index == 2 {
            self.key_to_recent_chat(key)
        } else if index == 3 {
            self.key_to_contact(key)
        } else if index == 4 {
            self.key_to_chat(key)
        } else if index == 5 {
            self.key_to_group_manager(key)
        } else if index == 6 {
            self.key_to_alert(key)
        } else {
            Turn::Done(None)
        }
    }

    fn action_to_login(&mut self, action: &Action) -> (turn: Turn)
        ensures
            (final(self)@, turn@) == old(self)@.offer_action(0, action@),
    {
        proof {
            reveal(AppView::offer_action);
        }
        self.login.update(&self.mode, action)
    }

    fn action_to_navigation(&mut self, action: &Action) -> (turn: Turn)
        ensures
            (final(self)@, turn@) == old(self)@.offer_action(1, action@),
    {
        proof {
            reveal(AppView::offer_action);
        }
        Turn::Done(self.navigation.update(&mut self.mode, action))
    }

    fn action_to_recent_chat(&mut self, action: &Action) -> (turn: Turn)
        ensures
            (final(self)@, turn@) == old(self)@.offer_action(2, action@),
    {
        proof {
            reveal(AppView::offer_action);
        }
        let me = self.current_user.get_user();
        self.recent_chat.update(&mut self.mode, &mut self.chat_vo, &me, action)
    }

    fn action_to_contact(&mut self, action: &Action) -> (turn: Turn)
        ensures
            (final(self)@, turn@) == old(self)@.offer_action(3, action@),
    {
        proof {
            reveal(AppView::offer_action);
        }
        let me = self.current_user.get_user();
        self.contact.update(&self.mode, &me, action)
    }

    fn action_to_chat(&mut self, action: &Action) -> (turn: Turn)
        ensures
            (final(self)@, turn@) == old(self)@.offer_action(4, action@),
    {
        proof {
            reveal(AppView::offer_action);
        }
        self.chat.update(&self.mode, &self.chat_vo, action)
    }

    fn action_to_group_manager(&mut self, action: &Action) -> (turn: Turn)
        ensures
            (final(self)@, turn@) == old(self)@.offer_action(5, action@),
    {
        proof {
            reveal(AppView::offer_action);
        }
        self.group_manager.update(&mut self.mode, action)
    }

    fn action_to_alert(&mut self, action: &Action) -> (turn: Turn)
        ensures
            (final(self)@, turn@) == old(self)@.offer_action(6, action@),
    {
        proof {
            reveal(AppView::offer_action);
        }
        Turn::Done(self.alert.update(&mut self.mode, action))
    }

    fn action_to_event(&mut self, action: &Action) -> (turn: Turn)
        ensures
            (final(self)@, turn@) == old(self)@.offer_action(8, action@),
    {
        proof {
            reveal(AppView::offer_action);
        }
        Turn::Done(self.event.update(action))
    }

    fn offer_action(&mut self, index: usize, action: &Action) -> (turn: Turn)
        ensures
            (final(self)@, turn@) == old(self)@.offer_action(index as nat, action@),
    {
        proof {
            reveal(AppView::offer_action);
        }
        if index == 0 {
            self.action_to_login(action)
        } else if index == 1 {
            self.action_to_navigation(action)
        } else if index == 2 {
            self.action_to_recent_chat(action)
        } else if index == 3 {
            self.action_to_contact(action)
        } else if index == 4 {
            self.action_to_chat(action)
        } else if index == 5 {
            self.action_to_group_manager(action)
        } else if index == 6 {
            self.action_to_alert(action)
        } else if index == 8 {
            self.action_to_event(action)
        } else {
            Turn::Done(None)
        }
    }

    fn answer_to_login(&mut self, response: Response) -> (turn: Turn)
        ensures
            (final(self)@, turn@) == old(self)@.answer(0, response@),
    {
        proof {
            reveal(AppView::answer);
        }
        self.login.resume(&mut self.mode, &mut self.current_user, response)
    }

    fn answer_to_recent_chat(&mut self, response: Response) -> (turn: Turn)
        ensures
            (final(self)@, turn@) == old(self)@.answer(2, response@),
    {
        proof {
            reveal(AppView::answer);
        }
        self.recent_chat.resume(response)
    }

    fn answer_to_contact(&mut self, response: Response) -> (turn: Turn)
        ensures
            (final(self)@, turn@) == old(self)@.answer(3, response@),
    {
        proof {
            reveal(AppView::answer);
        }
        let me = self.current_user.get_user();
        self.contact.resume(&self.mode, &me, response)
    }

    fn answer_to_chat(&mut self, response: Response) -> (turn: Turn)
        ensures
            (final(self)@, turn@) == old(self)@.answer(4, response@),
    {
        proof {
            reveal(AppView::answer);
        }
        self.chat.resume(&mut self.chat_vo, response)
    }

    fn answer_to_group_manager(&mut self, response: Response) -> (turn: Turn)
        ensures
            (final(self)@, turn@) == old(self)@.answer(5, response@),
    {
        proof {
            reveal(AppView::answer);
        }
        self.group_manager.resume(response)
    }

    fn answer(&mut self, index: usize, response: Response) -> (turn: Turn)
        ensures
            (final(self)@, turn@) == old(self)@.answer(index as nat, response@),
    {
        proof {
            reveal(AppView::answer);
        }
        if index == 0 {
            self.answer_to_login(response)
        } else if index == 2 {
            self.answer_to_recent_chat(response)
        } else if index == 3 {
            self.answer_to_contact(response)
        } else if index == 4 {
            self.answer_to_chat(response)
        } else if index == 5 {
            self.answer_to_group_manager(response)
        } else {
            Turn::Done(None)
        }
    }

    fn offer(&mut self) -> (turn: Turn)
        requires
            old(self).cursor < COMPONENT_COUNT,
        ensures
            (final(self)@, turn@) == old(self)@.offer(),
    {
        let work: Option<Work> = match &self.current {
            Some(current) => Some(current.clone()),
            None => None,
        };
        let index = self.cursor;
        match work {
            Some(Work::Key(key)) => {
                proof {
                    lemma_turn_frame(self@, index as nat, key, ActionView::Tick, ResponseView::Done);
                }
                let turn = self.offer_key(index, key);
                self.cursor = index + 1;
                turn
            },
            Some(Work::Act(action)) => {
                proof {
                    lemma_turn_frame(
                        self@,
                        index as nat,
                        KeyEvent::spec_plain(crate::key::KeyCode::Null),
                        action@,
                        ResponseView::Done,
                    );
                }
                let turn = self.offer_action(index, &action);
                proof {
                    self.log@ = Log {
                        offered: self.log@.offered.update(
                            index as int,
                            self.log@.offered[index as int].push(action@),
                        ),
                        ..self.log@
                    };
                }
                self.cursor = index + 1;
                turn
            },
            None => Turn::Done(None),
        }
    }

    fn settle(&mut self, turn: Turn) -> (effect: Option<Effect>)
        ensures
            (final(self)@, effect.deep_view()) == old(self)@.settle(turn@),
    {
        match turn {
            Turn::Done(action) => {
                self.waiting = false;
                self.enqueue(action);
                None
            },
            Turn::Send(request, action) => {
                self.waiting = false;
                self.enqueue(action);
                Some(Effect::Send(request))
            },
            Turn::Call(request) => {
                self.waiting = true;
                Some(Effect::Call(request))
            },
        }
    }

    fn run(&mut self) -> (effect: Effect)
        ensures
            (final(self)@, effect@) == old(self)@.run(),
    {
        while self.cursor < COMPONENT_COUNT && self.current.is_some()
            invariant
                self@.run() == old(self)@.run(),
            decreases COMPONENT_COUNT - self.cursor,
        {
            let turn = self.offer();
            if let Some(effect) = self.settle(turn) {
                return effect;
            }
        }
        self.current = None;
        self.cursor = 0;
        Effect::Continue
    }

    /// One step of the loop; see `AppView::step`.
    pub fn step(&mut self) -> (effect: Effect)
        ensures
            (final(self)@, effect@) == old(self)@.step(),
            old(self)@.wf() ==> final(self)@.wf(),
            effect is Drained ==> final(self)@.is_drained(),
    {
        proof {
            if self@.wf() {
                lemma_step_keeps_wf(self@);
            }
            lemma_run_effect(self@);
            lemma_run_effect(self@.begin());
        }
        if self.waiting {
            Effect::Waiting
        } else if self.current.is_some() {
            self.run()
        } else if self.keys.len() == 0 && self.queue.len() == 0 {
            let mut ops: Vec<TerminalOp> = Vec::new();
            std::mem::swap(&mut self.ops, &mut ops);
            Effect::Drained(
                Frame { ops, suspend: self.should_suspend, quit: self.should_quit.should_quit },
            )
        } else {
            self.begin();
            self.run()
        }
    }

    /// Hands the response to the screen that waits for it; see
    /// `AppView::resume`.
    pub fn resume(&mut self, response: Response) -> (effect: Effect)
        ensures
            (final(self)@, effect@) == old(self)@.resume(response@),
            old(self)@.wf() ==> final(self)@.wf(),
    {
        proof {
            if self@.wf() {
                lemma_resume_keeps_wf(self@, response@);
            }
        }
        if !self.waiting || self.cursor == 0 {
            return self.step();
        }
        let turn = self.answer(self.cursor - 1, response);
        match self.settle(turn) {
            Some(effect) => effect,
            None => self.run(),
        }
    }

    /// Reports that a drawing failed, for the reason given.
    pub fn draw_failed(&mut self, reason: &str)
        ensures
            final(self)@ == old(self)@.draw_failed(reason@),
            old(self)@.wf() ==> final(self)@.wf(),
    {
        proof {
            if self@.wf() {
                lemma_enqueue_keeps_wf(
                    self@,
                    Some(ActionView::Error(draw_failure_prefix() + reason@)),
                );
            }
        }
        let mut text = String::from_str("Failed to draw: ");
        text.append(reason);
        self.enqueue(Some(Action::Error(text)));
    }

    /// Reports that the program has the terminal back after a suspension.
    pub fn resumed(&mut self)
        ensures
            final(self)@ == old(self)@.resumed(),
            old(self)@.wf() ==> final(self)@.wf(),
    {
        proof {
            if self@.wf() {
                lemma_enqueue_keeps_wf(self@, Some(ActionView::Resume));
                lemma_enqueue_keeps_wf(
                    self@.enqueue(Some(ActionView::Resume)),
                    Some(ActionView::ClearScreen),
                );
            }
        }
        self.enqueue(Some(Action::Resume));
        self.enqueue(Some(Action::ClearScreen));
    }

    /// Whether the name of the sender of `chat_message` has to be looked up
    /// before the message is handed to `receive`: it has to where the chat
    /// view will show the message under that name.
    pub fn needs_sender_name(&self, chat_message: &ChatMessage) -> (needed: bool)
        ensures
            needed == match self@.current_user.user {
                Some(me) => crate::components::chat::spec_needs_sender_name(
                    self@.chat_vo.chat_vo,
                    me,
                    chat_message@,
                ),
                None => false,
            },
    {
        let me = self.current_user.get_user();
        Chat::needs_sender_name(&self.chat_vo, &me, chat_message)
    }

    /// Takes a message that the server pushed; see `AppView::receive`.
    pub fn receive(&mut self, chat_message: &ChatMessage, sender_name: Option<String>)
        ensures
            final(self)@ == old(self)@.receive(chat_message@, sender_name.deep_view()),
            old(self)@.wf() ==> final(self)@.wf(),
    {
        let me = self.current_user.get_user();
        self.recent_chat.receive(chat_message, sender_name.clone());
        self.chat.receive(&self.chat_vo, &me, chat_message, sender_name);
    }
}

/// Putting an action on the queue keeps the record in order.
pub proof fn lemma_enqueue_keeps_wf(app: AppView, action: Option<ActionView>)
    requires
        app.wf(),
    ensures
        app.enqueue(action).wf(),
{
    if let Some(posted) = action {
        assert(app.log.posted.push(posted) =~= app.log.taken + app.queue.push(posted));
    }
}

/// Taking an event keeps the record in order.
pub proof fn lemma_handle_events_keeps_wf(app: AppView, event: Event)
    requires
        app.wf(),
    ensures
        app.handle_events(event).wf(),
{
    match event {
        Event::Quit => lemma_enqueue_keeps_wf(app, Some(ActionView::Quit)),
        Event::Tick => lemma_enqueue_keeps_wf(app, Some(ActionView::Tick)),
        Event::Render => lemma_enqueue_keeps_wf(app, Some(ActionView::Render)),
        Event::Resize(w, h) => lemma_enqueue_keeps_wf(app, Some(ActionView::Resize(w, h))),
        Event::Key(key) => lemma_handle_key_event_keeps_wf(app, key),
        Event::Other => {},
    }
}

/// Taking a key press through the key bindings keeps the record in order.
pub proof fn lemma_handle_key_event_keeps_wf(app: AppView, key: KeyEvent)
    requires
        app.wf(),
    ensures
        app.handle_key_event(key).wf(),
{
    let keyed = AppView { chord: chord_after(app.keymap, app.mode, app.chord, key), ..app };
    lemma_enqueue_keeps_wf(keyed, routed(app.keymap, app.mode, app.chord, key));
}

/// One key is no chord: after a tick has emptied the chord, a key that is
/// bound to nothing by itself puts no action on the queue and becomes the
/// chord, whatever chords it starts.
pub proof fn lemma_chord_first_key(app: AppView, first: KeyEvent)
    requires
        app.chord == Seq::<KeyEvent>::empty(),
        lookup(app.keymap, app.mode, seq![first]) is None,
    ensures
        app.handle_key_event(first).queue == app.queue,
        app.handle_key_event(first).log.posted == app.log.posted,
        app.handle_key_event(first).chord == seq![first],
{
    assert(app.chord.push(first) =~= seq![first]);
}

/// The second key completes the chord: with the first key of a bound chord
/// of two keys in the chord, and neither key bound by itself, the second
/// key puts the action of the chord on the queue, once, behind what waits
/// there, and nothing else.
pub proof fn lemma_chord_second_key(
    app: AppView,
    first: KeyEvent,
    second: KeyEvent,
    action: ActionView,
)
    requires
        app.chord == seq![first],
        lookup(app.keymap, app.mode, seq![first, second]) == Some(action),
        lookup(app.keymap, app.mode, seq![first]) is None,
        lookup(app.keymap, app.mode, seq![second]) is None,
    ensures
        app.handle_key_event(second).queue == app.queue.push(action),
        app.handle_key_event(second).log.posted == app.log.posted.push(action),
        app.handle_key_event(second).chord == seq![first, second],
{
    assert(app.chord.push(second) =~= seq![first, second]);
}

/// Offering to a screen, or handing it a response, touches neither the
/// queue nor the record nor how far the offering has come.
proof fn lemma_turn_frame(app: AppView, index: nat, key: KeyEvent, action: ActionView, response: ResponseView)
    ensures
        ({
            let after = app.offer_key(index, key).0;
            &&& after.log == app.log
            &&& after.queue == app.queue
            &&& after.keys == app.keys
            &&& after.current == app.current
            &&& after.cursor == app.cursor
            &&& after.waiting == app.waiting
            &&& after.chord == app.chord
            &&& after.keymap == app.keymap
        }),
        ({
            let after = app.offer_action(index, action).0;
            &&& after.log == app.log
            &&& after.queue == app.queue
            &&& after.keys == app.keys
            &&& after.current == app.current
            &&& after.cursor == app.cursor
            &&& after.waiting == app.waiting
            &&& after.chord == app.chord
            &&& after.keymap == app.keymap
        }),
        ({
            let after = app.answer(index, response).0;
            &&& after.log == app.log
            &&& after.queue == app.queue
            &&& after.keys == app.keys
            &&& after.current == app.current
            &&& after.cursor == app.cursor
            &&& after.waiting == app.waiting
            &&& after.chord == app.chord
            &&& after.keymap == app.keymap
        }),
{
    reveal(AppView::offer_key);
    reveal(AppView::offer_action);
    reveal(AppView::answer);
}

/// Offering to the screens never ends in a drained pass, nor in a wait
/// that was not asked for.
proof fn lemma_run_effect(app: AppView)
    ensures
        !(app.run().1 is Drained),
        !(app.run().1 is Waiting),
    decreases COMPONENT_COUNT - app.cursor,
{
    if app.current is Some && app.cursor < COMPONENT_COUNT {
        let offered = app.offer();
        let settled = offered.0.settle(offered.1);
        if settled.1 is None {
            match app.current {
                Some(WorkView::Key(key)) => lemma_turn_frame(
                    app,
                    app.cursor,
                    key,
                    ActionView::Tick,
                    ResponseView::Done,
                ),
                Some(WorkView::Act(action)) => lemma_turn_frame(
                    app,
                    app.cursor,
                    KeyEvent::spec_plain(crate::key::KeyCode::Null),
                    action,
                    ResponseView::Done,
                ),
                None => {},
            }
            lemma_run_effect(settled.0);
        }
    }
}

/// Offering to the screens leaves the chord as it is: no screen touches it.
proof fn lemma_run_keeps_chord(app: AppView)
    ensures
        app.run().0.chord == app.chord,
    decreases COMPONENT_COUNT - app.cursor,
{
    if app.current is Some && app.cursor < COMPONENT_COUNT {
        let offered = app.offer();
        let settled = offered.0.settle(offered.1);
        match app.current {
            Some(WorkView::Key(key)) => lemma_turn_frame(
                app,
                app.cursor,
                key,
                ActionView::Tick,
                ResponseView::Done,
            ),
            Some(WorkView::Act(action)) => lemma_turn_frame(
                app,
                app.cursor,
                KeyEvent::spec_plain(crate::key::KeyCode::Null),
                action,
                ResponseView::Done,
            ),
            None => {},
        }
        if settled.1 is None {
            lemma_run_keeps_chord(settled.0);
        }
    }
}

/// Every tick empties the chord: when a tick is the next thing to take up,
/// the step that takes it up leaves no key in the chord, whatever the chord
/// held and whatever is bound.
pub proof fn lemma_tick_empties_chord(app: AppView)
    requires
        !app.waiting,
        app.current is None,
        app.keys.len() == 0,
        app.queue.len() > 0,
        app.queue[0] is Tick,
    ensures
        app.step().0.chord == Seq::<KeyEvent>::empty(),
{
    lemma_run_keeps_chord(app.begin());
}

/// Taking up the next key press or action keeps the record in order.
proof fn lemma_begin_keeps_wf(app: AppView)
    requires
        app.wf(),
        app.current is None,
        !app.waiting,
    ensures
        app.begin().wf(),
        !app.begin().waiting,
{
    if app.keys.len() == 0 && app.queue.len() > 0 {
        let action = app.queue[0];
        let begun = app.begin();
        assert(begun.log.taken.drop_last() =~= app.log.taken);
        assert(begun.log.posted =~= begun.log.taken + begun.queue);
    }
}

/// Offering what is being offered to the next screen keeps the record in
/// order.
proof fn lemma_offer_keeps_wf(app: AppView)
    requires
        app.wf(),
        app.current is Some,
        app.cursor < COMPONENT_COUNT,
    ensures
        app.offer().0.wf(),
        app.offer().0.cursor == app.cursor + 1,
        app.offer().0.current == app.current,
{
    match app.current {
        Some(WorkView::Act(action)) => {
            lemma_turn_frame(
                app,
                app.cursor,
                KeyEvent::spec_plain(crate::key::KeyCode::Null),
                action,
                ResponseView::Done,
            );
            assert(app.log.taken.drop_last().push(action) =~= app.log.taken);
        },
        Some(WorkView::Key(key)) => {
            lemma_turn_frame(app, app.cursor, key, ActionView::Tick, ResponseView::Done);
        },
        None => {},
    }
}

/// Taking note of the end of a turn keeps the record in order.
proof fn lemma_settle_keeps_wf(app: AppView, turn: TurnView)
    requires
        app.wf(),
        app.current is Some,
        app.cursor >= 1,
    ensures
        app.settle(turn).0.wf(),
        app.settle(turn).0.cursor == app.cursor,
        app.settle(turn).0.current == app.current,
        app.settle(turn).1 is None ==> !app.settle(turn).0.waiting,
{
    match turn {
        TurnView::Done(action) => lemma_enqueue_keeps_wf(AppView { waiting: false, ..app }, action),
        TurnView::Send(_, action) => lemma_enqueue_keeps_wf(
            AppView { waiting: false, ..app },
            action,
        ),
        TurnView::Call(_) => {},
    }
}

/// Offering to the screens that are still to come keeps the record in order.
proof fn lemma_run_keeps_wf(app: AppView)
    requires
        app.wf(),
        !app.waiting,
    ensures
        app.run().0.wf(),
        app.run().1 is Continue ==> app.run().0.current is None && !app.run().0.waiting,
    decreases COMPONENT_COUNT - app.cursor,
{
    if app.current is Some && app.cursor < COMPONENT_COUNT {
        lemma_offer_keeps_wf(app);
        let offered = app.offer();
        lemma_settle_keeps_wf(offered.0, offered.1);
        let settled = offered.0.settle(offered.1);
        if settled.1 is None {
            lemma_run_keeps_wf(settled.0);
        }
    }
}

/// A step of the loop keeps the record in order, and says that the pass is
/// drained only where nothing is left to offer.
pub proof fn lemma_step_keeps_wf(app: AppView)
    requires
        app.wf(),
    ensures
        app.step().0.wf(),
        app.step().1 is Drained ==> app.is_drained() && app.step().0.is_drained(),
{
    lemma_run_effect(app);
    lemma_run_effect(app.begin());
    if app.waiting {
    } else if app.current is Some {
        lemma_run_keeps_wf(app);
    } else if app.keys.len() == 0 && app.queue.len() == 0 {
    } else {
        lemma_begin_keeps_wf(app);
        lemma_run_keeps_wf(app.begin());
    }
}

/// Handing a response to the screen that waits for it keeps the record in
/// order.
pub proof fn lemma_resume_keeps_wf(app: AppView, response: ResponseView)
    requires
        app.wf(),
    ensures
        app.resume(response).0.wf(),
{
    if !app.waiting || app.cursor == 0 {
        lemma_step_keeps_wf(app);
    } else {
        let answered = app.answer((app.cursor - 1) as nat, response);
        lemma_turn_frame(
            app,
            (app.cursor - 1) as nat,
            KeyEvent::spec_plain(crate::key::KeyCode::Null),
            ActionView::Tick,
            response,
        );
        lemma_settle_keeps_wf(answered.0, answered.1);
        let settled = answered.0.settle(answered.1);
        if settled.1 is None {
            lemma_run_keeps_wf(settled.0);
        }
    }
}

/// When a pass is drained, every screen has been offered every action that
/// was ever put on the queue, in the order in which it was put there.
pub proof fn lemma_drained_pass_offered_to_all(app: AppView, screen: int)
    requires
        app.wf(),
        app.is_drained(),
        0 <= screen < COMPONENT_COUNT,
    ensures
        app.log.offered[screen] == app.log.posted,
        app.log.taken == app.log.posted,
{
    assert(app.log.taken + app.queue =~= app.log.taken);
}

/// At any moment, what a screen has been offered is the start of what was
/// put on the queue: no screen is offered an action out of turn, and none
/// is skipped.
pub proof fn lemma_offered_in_order(app: AppView, screen: int)
    requires
        app.wf(),
        0 <= screen < COMPONENT_COUNT,
    ensures
        app.log.offered[screen].is_prefix_of(app.log.posted),
{
    let seen = app.log.offered[screen];
    assert(app.log.taken.is_prefix_of(app.log.posted)) by {
        assert(app.log.posted.subrange(0, app.log.taken.len() as int) =~= app.log.taken);
    }
    if seen != app.log.taken {
        assert(seen =~= app.log.posted.subrange(0, seen.len() as int));
    }
}

} // verus!
