//! The decision logic of a Discord bot that keeps per-user word counters and a
//! shared store of text tags: argument parsing, reply texts, paging of stored
//! lists, and the steps each command takes between its database requests.

pub mod commands;
pub mod components;
pub mod handler;
pub mod interactions;
pub mod messages;
pub mod outside;
pub mod paging;
pub mod text;
