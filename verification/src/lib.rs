//! Schedule bot for Splatoon 3: turns the published map rotation into the
//! text of a Mastodon post, and keeps the small amount of state that posting
//! needs.

pub mod api;
pub mod bot;
pub mod config;
pub mod mastodon;
pub mod strings;
pub mod time;
