//! The screens of the client and what they share.

pub mod alert;
pub mod area_util;
pub mod chat;
pub mod contact;
pub mod event;
pub mod group_manager;
pub mod list_state;
pub mod login;
pub mod navigation;
pub mod recent_chat;
pub mod setting;
pub mod user_input;
