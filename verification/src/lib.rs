//! Core of a floating desktop widget that shows how much of a usage limit is
//! left.
//!
//! The library holds the state of the program ([`state::App`]) and every
//! decision about it. A shell around it hands over what happens (messages, the
//! answers of servers, the time) and performs the [`action::Action`]s that come
//! back.
pub mod action;
pub mod command;
pub mod geometry;
pub mod history;
pub mod install;
pub mod launch;
pub mod locale;
pub mod menu;
pub mod message;
pub mod paint;
pub mod poll;
pub mod replace;
pub mod settings;
pub mod startup;
pub mod state;
pub mod text;
pub mod update;
pub mod updater;
pub mod version;
pub mod wide;
pub mod window;
