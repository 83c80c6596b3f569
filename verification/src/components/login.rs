//! The login screen: two fields, the check that both are filled in, and the
//! steps from the credentials to a logged-in user.

use crate::action::Action;
use crate::action::ActionView;
use crate::app::Mode;
use crate::app::ModeHolderLock;
use crate::components::area_util::Rect;
use crate::components::user_input::InputData;
use crate::components::user_input::InputDataView;
use crate::components::user_input::UserInput;
use crate::components::user_input::UserInputView;
use crate::key::KeyCode;
use crate::key::KeyEvent;
use crate::proxy::Request;
use crate::proxy::RequestView;
use crate::proxy::Response;
use crate::proxy::ResponseView;
use crate::proxy::Turn;
use crate::proxy::TurnView;
use crate::token::CurrentUserLock;
use crate::token::CurrentUserView;
use vstd::prelude::*;
use vstd::string::StringExecFns;

verus! {

/// Which field of the screen is edited, if any.
#[derive(Debug, Clone, Copy, PartialEq, Eq, Hash, Structural)]
pub enum LoginState {
    Normal,
    UserNameEditing,
    PasswordEditing,
}

/// What the screen waits for.
#[derive(Debug, PartialEq, Eq)]
pub enum LoginPending {
    /// Nothing.
    Idle,
    /// The token that the login gives.
    Login,
    /// The claims of this token.
    Token(String),
    /// The registration.
    Register,
}

/// A `LoginPending` with its token as a sequence of characters.
pub enum LoginPendingView {
    Idle,
    Login,
    Token(Seq<char>),
    Register,
}

impl View for LoginPending {
    type V = LoginPendingView;

    open spec fn view(&self) -> LoginPendingView {
        match self {
            LoginPending::Idle => LoginPendingView::Idle,
            LoginPending::Login => LoginPendingView::Login,
            LoginPending::Token(token) => LoginPendingView::Token(token@),
            LoginPending::Register => LoginPendingView::Register,
        }
    }
}

/// The login screen.
#[derive(Debug, PartialEq, Eq)]
pub struct Login {
    pub user_name_input: UserInput,
    pub password_input: UserInput,
    pub state: LoginState,
    /// Whether the renewal of the token was started.
    pub renewing: bool,
    pub pending: LoginPending,
}

/// A `Login` with its texts as sequences of characters.
pub struct LoginView {
    pub user_name_input: UserInputView,
    pub password_input: UserInputView,
    pub state: LoginState,
    pub renewing: bool,
    pub pending: LoginPendingView,
}

impl View for Login {
    type V = LoginView;

    open spec fn view(&self) -> LoginView {
        LoginView {
            user_name_input: self.user_name_input@,
            password_input: self.password_input@,
            state: self.state,
            renewing: self.renewing,
            pending: self.pending@,
        }
    }
}

/// What a key press, an action or an answer leaves behind: the screen, the
/// mode, the current user, and how the turn ended.
pub struct LoginStep {
    pub login: LoginView,
    pub mode: Mode,
    pub user: CurrentUserView,
    pub turn: TurnView,
}

/// The label of the field for the user name.
pub open spec fn user_name_label() -> Seq<char> {
    "用户名"@
}

/// The label of the field for the password.
pub open spec fn password_label() -> Seq<char> {
    "密码"@
}

/// What the alert says when neither field was committed.
pub open spec fn missing_both_msg() -> Seq<char> {
    "请输入用户名和密码"@
}

/// What the alert says when the user name was not committed.
pub open spec fn missing_user_name_msg() -> Seq<char> {
    "请输入用户名"@
}

/// What the alert says when the password was not committed.
pub open spec fn missing_password_msg() -> Seq<char> {
    "请输入密码"@
}

impl LoginView {
    /// The screen before anything was typed.
    pub open spec fn fresh() -> LoginView {
        LoginView {
            user_name_input: UserInputView::fresh(
                InputDataView::UserName { label: Some(user_name_label()), data: None },
            ),
            password_input: UserInputView::fresh(
                InputDataView::Password { label: Some(password_label()), data: None },
            ),
            state: LoginState::Normal,
            renewing: false,
            pending: LoginPendingView::Idle,
        }
    }

    /// The screen one state further: from no field to the user name, on to
    /// the password, and back to no field. The field of the state edits.
    pub open spec fn next_state(self) -> LoginView {
        match self.state {
            LoginState::Normal => LoginView {
                state: LoginState::UserNameEditing,
                user_name_input: UserInputView { is_editing: true, ..self.user_name_input },
                ..self
            },
            LoginState::UserNameEditing => LoginView {
                state: LoginState::PasswordEditing,
                user_name_input: UserInputView { is_editing: false, ..self.user_name_input },
                password_input: UserInputView { is_editing: true, ..self.password_input },
                ..self
            },
            LoginState::PasswordEditing => LoginView {
                state: LoginState::Normal,
                password_input: UserInputView { is_editing: false, ..self.password_input },
                ..self
            },
        }
    }

    /// What `key` does to a field that is edited: a character goes in,
    /// Backspace deletes, Left and Right move the cursor.
    pub open spec fn edit(field: UserInputView, key: KeyEvent) -> UserInputView {
        match key.code {
            KeyCode::Char(to_insert) => field.enter_char(to_insert),
            KeyCode::Backspace => field.delete_char(),
            KeyCode::Left => field.move_cursor_left(),
            KeyCode::Right => field.move_cursor_right(),
            _ => field,
        }
    }

    /// The screen after a key press in mode `Login`. With no field edited,
    /// `e` starts with the user name. Enter commits the field edited and
    /// moves on; the other keys edit the field.
    pub open spec fn key_pressed(self, key: KeyEvent) -> LoginView {
        match self.state {
            LoginState::Normal => if key.code == KeyCode::Char('e') {
                self.next_state()
            } else {
                self
            },
            LoginState::UserNameEditing => if key.code == KeyCode::Enter {
                LoginView {
                    user_name_input: self.user_name_input.submit_message(),
                    ..self
                }.next_state()
            } else {
                LoginView { user_name_input: Self::edit(self.user_name_input, key), ..self }
            },
            LoginState::PasswordEditing => if key.code == KeyCode::Enter {
                LoginView {
                    password_input: self.password_input.submit_message(),
                    ..self
                }.next_state()
            } else {
                LoginView { password_input: Self::edit(self.password_input, key), ..self }
            },
        }
    }

    /// The action that a key press in mode `Login` puts on the queue:
    /// `Submit` when Enter commits the password, and none otherwise.
    pub open spec fn key_action(self, key: KeyEvent) -> Option<ActionView> {
        if self.state == LoginState::PasswordEditing && key.code == KeyCode::Enter {
            Some(ActionView::Submit)
        } else {
            None
        }
    }

    /// The alert for credentials that are not complete; `None` where both
    /// the user name and the password were committed.
    pub open spec fn missing(self) -> Option<Seq<char>> {
        match (self.user_name_input.input_data.data(), self.password_input.input_data.data()) {
            (None, None) => Some(missing_both_msg()),
            (None, Some(_)) => Some(missing_user_name_msg()),
            (Some(_), None) => Some(missing_password_msg()),
            (Some(_), Some(_)) => None,
        }
    }

    /// What an action does. `Quit` tells a renewal that was started to stop.
    /// In mode `Login`, `Submit` and `Register` raise an alert where the
    /// credentials are not complete, with no request made, and ask the
    /// backend for the login or the registration where they are. Nothing
    /// else changes anything.
    pub open spec fn update(self, mode: Mode, action: ActionView) -> (LoginView, TurnView) {
        if action is Quit && self.renewing {
            (self, TurnView::Send(RequestView::StopRenewal, None))
        } else if mode != Mode::Login {
            (self, TurnView::nothing())
        } else {
            match action {
                ActionView::Submit => match self.missing() {
                    Some(msg) => (self, TurnView::alert(msg)),
                    None => (
                        LoginView { pending: LoginPendingView::Login, ..self },
                        TurnView::Call(
                            RequestView::Login {
                                name: self.user_name_input.input_data.data()->0,
                                password: self.password_input.input_data.data()->0,
                            },
                        ),
                    ),
                },
                ActionView::Register => match self.missing() {
                    Some(msg) => (self, TurnView::alert(msg)),
                    None => (
                        LoginView { pending: LoginPendingView::Register, ..self },
                        TurnView::Call(
                            RequestView::Register {
                                name: self.user_name_input.input_data.data()->0,
                                password: self.password_input.input_data.data()->0,
                            },
                        ),
                    ),
                },
                _ => (self, TurnView::nothing()),
            }
        }
    }

    /// What the backend's answer does. The token of a login is handed on to
    /// be decoded. The claims of the token make their user the current
    /// user, with the token; the renewal starts, `RecentChat` becomes the
    /// mode, and `LoginSuccess` goes on the queue. A registration that
    /// succeeded puts `Submit` on the queue, so that the same credentials
    /// log in. A failure raises an alert with the reason and changes nothing
    /// else. An answer that was not waited for is ignored.
    pub open spec fn resume(self, mode: Mode, user: CurrentUserView, response: ResponseView)
        -> LoginStep {
        let idle = LoginView { pending: LoginPendingView::Idle, ..self };
        match (self.pending, response) {
            (LoginPendingView::Idle, _) => LoginStep {
                login: self,
                mode,
                user,
                turn: TurnView::nothing(),
            },
            (_, ResponseView::Failed(reason)) => LoginStep {
                login: idle,
                mode,
                user,
                turn: TurnView::alert(reason),
            },
            (LoginPendingView::Login, ResponseView::Token(token)) => LoginStep {
                login: LoginView { pending: LoginPendingView::Token(token), ..self },
                mode,
                user,
                turn: TurnView::Call(RequestView::ParseToken { token }),
            },
            (LoginPendingView::Token(token), ResponseView::Claims(claims)) => LoginStep {
                login: LoginView { renewing: true, ..idle },
                mode: Mode::RecentChat,
                user: CurrentUserView { user: Some(claims), token: Some(token) },
                turn: TurnView::Send(RequestView::StartRenewal, Some(ActionView::LoginSuccess)),
            },
            (LoginPendingView::Register, ResponseView::Registered(_)) => LoginStep {
                login: idle,
                mode,
                user,
                turn: TurnView::Done(Some(ActionView::Submit)),
            },
            _ => LoginStep { login: idle, mode, user, turn: TurnView::nothing() },
        }
    }
}

impl Login {
    /// The screen before anything was typed.
    pub fn new() -> (login: Self)
        ensures
            login@ == LoginView::fresh(),
    {
        Login {
            user_name_input: UserInput::new(
                InputData::UserName { label: Some(String::from_str("用户名")), data: None },
            ),
            password_input: UserInput::new(
                InputData::Password { label: Some(String::from_str("密码")), data: None },
            ),
            state: LoginState::Normal,
            renewing: false,
            pending: LoginPending::Idle,
        }
    }

    /// Moves on to the next state; see `LoginView::next_state`.
    pub fn next_state(&mut self)
        ensures
            final(self)@ == old(self)@.next_state(),
    {
        match self.state {
            LoginState::Normal => {
                self.state = LoginState::UserNameEditing;
                self.user_name_input.is_editing = true;
            },
            LoginState::UserNameEditing => {
                self.state = LoginState::PasswordEditing;
                self.user_name_input.is_editing = false;
                self.password_input.is_editing = true;
            },
            LoginState::PasswordEditing => {
                self.state = LoginState::Normal;
                self.password_input.is_editing = false;
            },
        }
    }

    fn edit(field: &mut UserInput, key: KeyEvent)
        ensures
            final(field)@ == LoginView::edit(old(field)@, key),
    {
        match key.code {
            KeyCode::Char(to_insert) => field.enter_char(to_insert),
            KeyCode::Backspace => field.delete_char(),
            KeyCode::Left => field.move_cursor_left(),
            KeyCode::Right => field.move_cursor_right(),
            _ => {},
        }
    }

    /// Reacts to a key press. Outside of mode `Login` the screen ignores
    /// every key; in it, see `LoginView::key_pressed` and
    /// `LoginView::key_action`.
    pub fn handle_key_event(&mut self, mode_holder: &ModeHolderLock, key: KeyEvent) -> (action: Option<Action>)
        ensures
            mode_holder.mode() != Mode::Login ==> final(self)@ == old(self)@ && action is None,
            mode_holder.mode() == Mode::Login ==> final(self)@ == old(self)@.key_pressed(key)
                && action.deep_view() == old(self)@.key_action(key),
    {
        match mode_holder.get_mode() {
            Mode::Login => {},
            _ => {
                return None;
            },
        }
        match self.state {
            LoginState::Normal => {
                if let KeyCode::Char(c) = key.code {
                    if c == 'e' {
                        self.next_state();
                    }
                }
                None
            },
            LoginState::UserNameEditing => {
                if let KeyCode::Enter = key.code {
                    self.user_name_input.submit_message();
                    self.next_state();
                } else {
                    Self::edit(&mut self.user_name_input, key);
                }
                None
            },
            LoginState::PasswordEditing => {
                if let KeyCode::Enter = key.code {
                    self.password_input.submit_message();
                    self.next_state();
                    Some(Action::Submit)
                } else {
                    Self::edit(&mut self.password_input, key);
                    None
                }
            },
        }
    }

    /// The credentials that were committed, or the text of the alert that
    /// says which of them is missing.
    fn credentials(&self) -> (checked: Result<(String, String), String>)
        ensures
            checked matches Ok(pair) ==> self@.missing() is None && pair.0@
                == self@.user_name_input.input_data.data()->0 && pair.1@
                == self@.password_input.input_data.data()->0,
            checked matches Err(msg) ==> self@.missing() == Some(msg@),
    {
        match (self.user_name_input.data(), self.password_input.data()) {
            (None, None) => Err(String::from_str("请输入用户名和密码")),
            (None, Some(_)) => Err(String::from_str("请输入用户名")),
            (Some(_), None) => Err(String::from_str("请输入密码")),
            (Some(name), Some(password)) => Ok((name, password)),
        }
    }

    /// Reacts to an action; see `LoginView::update`.
    pub fn update(&mut self, mode_holder: &ModeHolderLock, action: &Action) -> (turn: Turn)
        ensures
            (final(self)@, turn@) == old(self)@.update(mode_holder.mode(), action@),
    {
        if let Action::Quit = action {
            if self.renewing {
                return Turn::Send(Request::StopRenewal, None);
            }
        }
        match mode_holder.get_mode() {
            Mode::Login => {},
            _ => {
                return Turn::Done(None);
            },
        }
        match action {
            Action::Submit => match self.credentials() {
                Err(msg) => Turn::alert(msg),
                Ok((name, password)) => {
                    self.pending = LoginPending::Login;
                    Turn::Call(Request::Login { name, password })
                },
            },
            Action::Register => match self.credentials() {
                Err(msg) => Turn::alert(msg),
                Ok((name, password)) => {
                    self.pending = LoginPending::Register;
                    Turn::Call(Request::Register { name, password })
                },
            },
            _ => Turn::Done(None),
        }
    }

    /// Takes the backend's answer; see `LoginView::resume`.
    pub fn resume(
        &mut self,
        mode_holder: &mut ModeHolderLock,
        current_user: &mut CurrentUserLock,
        response: Response,
    ) -> (turn: Turn)
        ensures
            (LoginStep {
                login: final(self)@,
                mode: final(mode_holder).mode(),
                user: final(current_user).current()@,
                turn: turn@,
            }) == old(self)@.resume(
                old(mode_holder).mode(),
                old(current_user).current()@,
                response@,
            ),
    {
        let mut pending = LoginPending::Idle;
        std::mem::swap(&mut self.pending, &mut pending);
        match (pending, response) {
            (LoginPending::Idle, _) => Turn::Done(None),
            (_, Response::Failed(reason)) => Turn::alert(reason),
            (LoginPending::Login, Response::Token(token)) => {
                self.pending = LoginPending::Token(token.clone());
                Turn::Call(Request::ParseToken { token })
            },
            (LoginPending::Token(token), Response::Claims(claims)) => {
                current_user.set_user(Some(claims), Some(token));
                self.renewing = true;
                mode_holder.set_mode(Mode::RecentChat);
                Turn::Send(Request::StartRenewal, Some(Action::LoginSuccess))
            },
            (LoginPending::Register, Response::Registered(_)) => Turn::Done(Some(Action::Submit)),
            _ => Turn::Done(None),
        }
    }

    /// Records where the terminal cursor belongs: in the field that is
    /// edited, drawn in its area. With no field edited nothing is recorded.
    pub fn place_cursor(&mut self, user_name_area: Rect, password_area: Rect)
        ensures
            final(self)@ == (match old(self).state {
                LoginState::Normal => old(self)@,
                LoginState::UserNameEditing => LoginView {
                    user_name_input: old(self)@.user_name_input.set_cursor_position(user_name_area),
                    ..old(self)@
                },
                LoginState::PasswordEditing => LoginView {
                    password_input: old(self)@.password_input.set_cursor_position(password_area),
                    ..old(self)@
                },
            }),
    {
        match self.state {
            LoginState::Normal => {},
            LoginState::UserNameEditing => {
                self.user_name_input.set_cursor_position(user_name_area);
            },
            LoginState::PasswordEditing => {
                self.password_input.set_cursor_position(password_area);
            },
        }
    }

    /// Whether the screen is drawn in `mode`.
    pub fn is_visible(mode: Mode) -> (visible: bool)
        ensures
            visible == (mode == Mode::Login),
    {
        match mode {
            Mode::Login => true,
            _ => false,
        }
    }
}

} // verus!
