//! Verified core of a command-line Matrix client: option parsing rules,
//! room and user identifier handling, profile configuration and the
//! decisions that drive logging, messaging and login.

pub mod actions;
pub mod base;
pub mod text;
pub mod help;
pub mod identifiers;
pub mod input;
pub mod logging;
pub mod login;
pub mod messages;
pub mod options;
pub mod config;
pub mod error;
pub mod output;
pub mod paths;
pub mod settings;
