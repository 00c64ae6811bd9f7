//! A Telegram bot that announces the newest stories of a feed: what it answers,
//! whom it tells, and what it remembers. Reading and sending is left to the
//! program around it.
pub mod bot;
pub mod broadcast;
pub mod config;
pub mod context;
pub mod feed;
pub mod reply;
pub mod store;
pub mod story;
pub mod summary;
pub mod telegram;
pub mod text;
