//! Interaction core of a terminal chat client: the mode state machine, the
//! action queue and its dispatcher, the text input field and the screen
//! components, each as a state machine with a verified contract.

pub mod action;
pub mod app;
pub mod components;
pub mod key;
pub mod keymap;
pub mod proxy;
pub mod text;
pub mod token;
