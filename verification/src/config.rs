//! What the bot is configured with: the Mastodon application's credentials
//! and the custom emotes that decorate a post. Reading the configuration file
//! happens outside the library.

use vstd::prelude::*;

verus! {

/// The whole configuration.
#[derive(Debug, PartialEq, Eq)]
pub struct ConfigurationFile {
    pub credentials: Credentials,
    pub emotes: Emotes,
}

/// The Mastodon application the bot posts as.
#[derive(Debug, PartialEq, Eq)]
pub struct Credentials {
    pub client_id: String,
    pub client_secret: String,
    /// The instance's base URI, such as `https://mastodon.example`.
    pub instance_uri: String,
    /// An access token obtained earlier; without one the bot asks for an
    /// authorization code.
    pub auth_code: Option<String>,
}

/// The emote shortcodes that decorate a post.
#[derive(Debug, PartialEq, Eq)]
pub struct Emotes {
    pub turf_war: String,
    pub ranked: String,
    pub salmon_run: String,

    pub rainmaker: String,
    pub clam_blitz: String,
    pub splat_zones: String,
    pub tower_control: String,
}

} // verus!
