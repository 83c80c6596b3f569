//! The settings screen, which so far only greets the user.

use crate::action::Action;
use crate::app::Mode;
use crate::key::KeyEvent;
use crate::token::User;
use vstd::prelude::*;
use vstd::string::StringExecFns;

verus! {

/// The settings screen. It holds nothing: all it shows comes from the
/// current user.
#[derive(Debug, Clone, Copy, PartialEq, Eq)]
pub struct Setting {}

/// What the screen says to the user of the given name.
pub open spec fn spec_greeting(name: Seq<char>) -> Seq<char> {
    "你好"@ + name + "，欢迎使用Chat-Tui！\n这里还没有实现哟～～～"@
}

impl Setting {
    pub fn new() -> Self {
        Setting {  }
    }

    /// The screen ignores every key.
    pub fn handle_key_event(&mut self, key: KeyEvent) -> (action: Option<Action>)
        ensures
            action is None,
    {
        None
    }

    /// The screen ignores every action.
    pub fn update(&mut self, action: &Action) -> (answer: Option<Action>)
        ensures
            answer is None,
    {
        None
    }

    /// Whether the screen is drawn in `mode`.
    pub fn is_visible(mode: Mode) -> (visible: bool)
        ensures
            visible == (mode == Mode::Setting),
    {
        match mode {
            Mode::Setting => true,
            _ => false,
        }
    }

    /// What the screen says to `user`.
    pub fn greeting(user: &User) -> (text: String)
        ensures
            text@ == spec_greeting(user@.name),
    {
        let mut text = String::from_str("你好");
        text.append(user.name.as_str());
        text.append("，欢迎使用Chat-Tui！\n这里还没有实现哟～～～");
        text
    }
}

} // verus!
