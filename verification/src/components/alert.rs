//! The alert overlay: a message over the active screen, which the user
//! dismisses or confirms, and which gives the mode back that it took.

use crate::action::Action;
use crate::action::ActionView;
use crate::action::ConfirmEvent;
use crate::app::Mode;
use crate::app::ModeHolderLock;
use crate::components::group_manager::ManageAction;
use crate::components::list_state::new_list_state;
use crate::components::list_state::next_index;
use crate::components::list_state::previous_index;
use crate::components::list_state::select;
use crate::components::list_state::select_next;
use crate::components::list_state::select_previous;
use crate::components::list_state::selected;
use crate::components::list_state::selected_of;
use crate::key::KeyCode;
use crate::key::KeyEvent;
use ratatui::widgets::ListState;
use vstd::prelude::*;
use vstd::string::StringExecFns;

verus! {

/// The overlay.
#[derive(Debug, PartialEq, Eq)]
pub struct Alert {
    /// The message shown.
    pub msg: String,
    /// What confirming the alert triggers, if it can be confirmed.
    pub confirm_event: Option<ConfirmEvent>,
    /// The mode that was active when the alert opened; `None` while closed.
    pub last_mode: Option<Mode>,
    /// The selection in the menu of management actions.
    pub list_state: ListState,
}

/// An `Alert` with its message as a sequence of characters and its menu
/// selection as an index.
pub struct AlertView {
    pub msg: Seq<char>,
    pub confirm_event: Option<ConfirmEvent>,
    pub last_mode: Option<Mode>,
    pub selected: Option<usize>,
}

impl View for Alert {
    type V = AlertView;

    open spec fn view(&self) -> AlertView {
        AlertView {
            msg: self.msg@,
            confirm_event: self.confirm_event,
            last_mode: self.last_mode,
            selected: selected_of(self.list_state),
        }
    }
}

/// What a key press leaves behind: the overlay, the mode, and the action
/// that goes on the queue.
pub struct AlertStep {
    pub alert: AlertView,
    pub mode: Mode,
    pub action: Option<ActionView>,
}

/// The message of an overlay that shows no alert.
pub open spec fn default_alert_msg() -> Seq<char> {
    "欢迎使用Chat-Tui！"@
}

impl AlertView {
    /// The overlay before any alert: the default message, nothing to
    /// confirm, no mode remembered, nothing selected.
    pub open spec fn closed() -> AlertView {
        AlertView { msg: default_alert_msg(), confirm_event: None, last_mode: None, selected: None }
    }

    /// Whether the overlay shows the menu of management actions.
    pub open spec fn shows_menu(self) -> bool {
        self.confirm_event == Some(ConfirmEvent::GroupManage(None))
    }

    /// An alert arrives while the mode is `mode`. The message is taken over.
    /// The confirm event is taken over unless one is waiting already. The
    /// mode is remembered unless one is remembered already: of two alerts
    /// that open without a close between them, the first decides where a
    /// close leads back to.
    pub open spec fn open(self, mode: Mode, msg: Seq<char>, confirm: Option<ConfirmEvent>)
        -> AlertView {
        AlertView {
            msg,
            confirm_event: if self.confirm_event is None {
                confirm
            } else {
                self.confirm_event
            },
            last_mode: if self.last_mode is None {
                Some(mode)
            } else {
                self.last_mode
            },
            selected: self.selected,
        }
    }

    /// The overlay after `action`: an alert opens it, every other action
    /// leaves it as it is.
    pub open spec fn update(self, mode: Mode, action: ActionView) -> AlertView {
        match action {
            ActionView::Alert(msg, confirm) => self.open(mode, msg, confirm),
            _ => self,
        }
    }

    /// The mode after `action`: an alert makes it `Alert`.
    pub open spec fn mode_after(mode: Mode, action: ActionView) -> Mode {
        if action is Alert {
            Mode::Alert
        } else {
            mode
        }
    }

    /// The mode that a close leads to: the remembered one, and `mode`
    /// itself where none is remembered.
    pub open spec fn restored_mode(self, mode: Mode) -> Mode {
        match self.last_mode {
            Some(last) => last,
            None => mode,
        }
    }

    /// The overlay closes: it forgets message, confirm event, selection and
    /// remembered mode, gives the remembered mode back, and puts `action`
    /// on the queue.
    pub open spec fn close(self, mode: Mode, action: Option<ActionView>) -> AlertStep {
        AlertStep { alert: AlertView::closed(), mode: self.restored_mode(mode), action }
    }

    /// Nothing happens.
    pub open spec fn stay(self, mode: Mode) -> AlertStep {
        AlertStep { alert: self, mode, action: None }
    }

    /// The management action that the menu selection stands for.
    pub open spec fn picked(self) -> Option<ManageAction> {
        match self.selected {
            Some(index) => ManageAction::spec_from_repr(index as nat),
            None => None,
        }
    }

    /// What a key press does. Outside of mode `Alert` the overlay ignores
    /// every key. An alert with nothing to confirm closes on any key and
    /// confirms nothing. The menu of management actions moves its selection
    /// with Up and Down; on Enter it closes and confirms the action picked,
    /// or nothing where none is picked. Every other alert closes and
    /// confirms its event on Enter. Esc always closes and confirms nothing.
    pub open spec fn handle_key_event(self, mode: Mode, key: KeyEvent) -> AlertStep {
        if mode != Mode::Alert {
            self.stay(mode)
        } else {
            match self.confirm_event {
                None => self.close(mode, None),
                Some(ConfirmEvent::GroupManage(None)) => match key.code {
                    KeyCode::Enter => match self.picked() {
                        Some(action) => self.close(
                            mode,
                            Some(ActionView::Confirm(ConfirmEvent::GroupManage(Some(action)))),
                        ),
                        None => self.close(mode, None),
                    },
                    KeyCode::Up => AlertView {
                        selected: Some(previous_index(self.selected)),
                        ..self
                    }.stay(mode),
                    KeyCode::Down => AlertView {
                        selected: Some(next_index(self.selected)),
                        ..self
                    }.stay(mode),
                    KeyCode::Esc => self.close(mode, None),
                    _ => self.stay(mode),
                },
                Some(event) => match key.code {
                    KeyCode::Enter => self.close(mode, Some(ActionView::Confirm(event))),
                    KeyCode::Esc => self.close(mode, None),
                    _ => self.stay(mode),
                },
            }
        }
    }
}

impl Alert {
    /// An overlay that shows no alert.
    pub fn new() -> (alert: Self)
        ensures
            alert@ == AlertView::closed(),
    {
        Alert {
            msg: String::from_str("欢迎使用Chat-Tui！"),
            confirm_event: None,
            last_mode: None,
            list_state: new_list_state(),
        }
    }

    /// Closes the overlay and gives back the mode that it took.
    pub fn close(&mut self, mode_holder: &mut ModeHolderLock)
        ensures
            final(self)@ == AlertView::closed(),
            final(mode_holder).mode() == old(self)@.restored_mode(old(mode_holder).mode()),
    {
        self.msg = String::from_str("欢迎使用Chat-Tui！");
        self.confirm_event = None;
        select(&mut self.list_state, None);
        if let Some(last) = self.last_mode {
            mode_holder.set_mode(last);
        }
        self.last_mode = None;
    }

    /// Reacts to a key press; see `AlertView::handle_key_event`.
    pub fn handle_key_event(&mut self, mode_holder: &mut ModeHolderLock, key: KeyEvent) -> (action:
        Option<Action>)
        ensures
            final(self)@ == old(self)@.handle_key_event(old(mode_holder).mode(), key).alert,
            final(mode_holder).mode() == old(self)@.handle_key_event(
                old(mode_holder).mode(),
                key,
            ).mode,
            action.deep_view() == old(self)@.handle_key_event(old(mode_holder).mode(), key).action,
    {
        match mode_holder.get_mode() {
            Mode::Alert => {},
            _ => {
                return None;
            },
        }
        match self.confirm_event {
            None => {
                self.close(mode_holder);
                None
            },
            Some(ConfirmEvent::GroupManage(None)) => match key.code {
                KeyCode::Enter => {
                    let picked = match selected(&self.list_state) {
                        Some(index) => ManageAction::from_repr(index),
                        None => None,
                    };
                    self.close(mode_holder);
                    match picked {
                        Some(manage) => Some(
                            Action::Confirm(ConfirmEvent::GroupManage(Some(manage))),
                        ),
                        None => None,
                    }
                },
                KeyCode::Up => {
                    select_previous(&mut self.list_state);
                    None
                },
                KeyCode::Down => {
                    select_next(&mut self.list_state);
                    None
                },
                KeyCode::Esc => {
                    self.close(mode_holder);
                    None
                },
                _ => None,
            },
            Some(event) => match key.code {
                KeyCode::Enter => {
                    self.close(mode_holder);
                    Some(Action::Confirm(event))
                },
                KeyCode::Esc => {
                    self.close(mode_holder);
                    None
                },
                _ => None,
            },
        }
    }

    /// Reacts to an action: an alert opens the overlay and makes `Alert`
    /// the mode. The overlay never answers with an action.
    pub fn update(&mut self, mode_holder: &mut ModeHolderLock, action: &Action) -> (answer: Option<
        Action,
    >)
        ensures
            answer is None,
            final(self)@ == old(self)@.update(old(mode_holder).mode(), action@),
            final(mode_holder).mode() == AlertView::mode_after(old(mode_holder).mode(), action@),
    {
        if let Action::Alert(msg, confirm_event) = action {
            self.msg = msg.clone();
            if self.confirm_event.is_none() {
                self.confirm_event = *confirm_event;
            }
            if self.last_mode.is_none() {
                self.last_mode = Some(mode_holder.get_mode());
            }
            mode_holder.set_mode(Mode::Alert);
        }
        None
    }

    /// Whether the overlay is drawn in `mode`.
    pub fn is_visible(mode: Mode) -> (visible: bool)
        ensures
            visible == (mode == Mode::Alert),
    {
        match mode {
            Mode::Alert => true,
            _ => false,
        }
    }

    /// Whether the overlay shows the menu of management actions in place of
    /// the plain message.
    pub fn shows_menu(&self) -> (menu: bool)
        ensures
            menu == self@.shows_menu(),
    {
        match self.confirm_event {
            Some(ConfirmEvent::GroupManage(None)) => true,
            _ => false,
        }
    }
}

/// An alert that opens from a closed overlay and is dismissed with Esc gives
/// back exactly the mode that it opened from, and leaves the overlay closed:
/// the next alert starts afresh, whatever was opened and dismissed before.
pub proof fn lemma_esc_restores_mode(
    overlay: AlertView,
    mode: Mode,
    msg: Seq<char>,
    confirm: Option<ConfirmEvent>,
    modifiers: crate::key::KeyModifiers,
)
    requires
        overlay.last_mode is None,
    ensures
        ({
            let opened = overlay.update(mode, ActionView::Alert(msg, confirm));
            let during = AlertView::mode_after(mode, ActionView::Alert(msg, confirm));
            let after = opened.handle_key_event(during, KeyEvent { code: KeyCode::Esc, modifiers });
            &&& during == Mode::Alert
            &&& after.mode == mode
            &&& after.action is None
            &&& after.alert == AlertView::closed()
        }),
{
}

/// Of two alerts that open one after the other with no close between them,
/// the first decides which mode Esc gives back: the overlay remembers one
/// level only.
pub proof fn lemma_second_alert_keeps_first_mode(
    overlay: AlertView,
    mode: Mode,
    first: (Seq<char>, Option<ConfirmEvent>),
    second: (Seq<char>, Option<ConfirmEvent>),
    modifiers: crate::key::KeyModifiers,
)
    requires
        overlay.last_mode is None,
    ensures
        ({
            let once = overlay.update(mode, ActionView::Alert(first.0, first.1));
            let twice = once.update(Mode::Alert, ActionView::Alert(second.0, second.1));
            let after = twice.handle_key_event(
                Mode::Alert,
                KeyEvent { code: KeyCode::Esc, modifiers },
            );
            &&& twice.last_mode == Some(mode)
            &&& twice.msg == second.0
            &&& after.mode == mode
            &&& after.action is None
        }),
{
}

/// An alert with nothing to confirm never confirms anything, whichever key
/// is pressed; in mode `Alert` every key closes it.
pub proof fn lemma_plain_alert_never_confirms(overlay: AlertView, mode: Mode, key: KeyEvent)
    requires
        overlay.confirm_event is None,
    ensures
        overlay.handle_key_event(mode, key).action is None,
        mode == Mode::Alert ==> overlay.handle_key_event(mode, key).alert == AlertView::closed(),
{
}

} // verus!
