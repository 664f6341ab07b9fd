//! Core logic of a general purpose Discord bot: message encodings, identifier
//! parsing, per-server settings, role list management and the text of every
//! reply the bot sends. Discord, the database and the clock stay outside; the
//! functions here take and return plain values.

pub mod bot;
pub mod bottom;
pub mod checks;
pub mod commands;
pub mod config;
pub mod database;
pub mod db;
pub mod db_structs;
pub mod embed;
pub mod error;
pub mod events;
pub mod interaction;
pub mod options;
pub mod opts;
pub mod order;
pub mod rewind;
pub mod setup;
pub mod shared;
pub mod snap;
pub mod rolelist;
pub mod roles;
pub mod templates;
pub mod text;
pub mod utils;
