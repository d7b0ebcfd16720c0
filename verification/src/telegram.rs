//! The chat platform: its objects and methods, and how the bot uses them.

pub mod bot;
pub mod commands;
pub mod format;
pub mod listing;
pub mod methods;
pub mod objects;
pub mod render;
pub mod response;
pub mod retry;
pub mod start;
