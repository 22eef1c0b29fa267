//! Core rules of a chat bot that browses a catalog of games and mods:
//! per-guild settings, identifier parsing, credential selection and
//! command routing.

pub mod commands;
pub mod config;
pub mod decimal;
pub mod dispatch;
pub mod identifier;
pub mod settings;
pub mod text;
pub mod timestamp;
pub mod words;
