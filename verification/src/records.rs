//! Flat records of the gateway payloads. Their fields are what the service
//! sent, one for one.

use vstd::prelude::*;
use crate::ids::EmojiId;

verus! {

/// How many sessions may still be started within the current window.
#[derive(Clone, Debug)]
pub struct SessionStartLimit {
    /// Sessions that may still be started within the window.
    pub remaining: u64,
    /// Milliseconds until the window starts anew.
    pub reset_after: u64,
    /// Sessions that one window allows.
    pub total: u64,
    /// Identify requests allowed within five seconds.
    pub max_concurrency: u64,
}

/// The gateway endpoint as a bot account is told it, with the number of
/// shards the service recommends.
#[derive(Clone, Debug)]
pub struct BotGateway {
    /// The sessions that may still be started.
    pub session_start_limit: SessionStartLimit,
    /// The recommended number of shards.
    pub shards: u64,
    /// The address to connect to.
    pub url: String,
}

/// The gateway endpoint.
#[derive(Clone, Debug)]
pub struct Gateway {
    /// The address to connect to.
    pub url: String,
}

/// Images of an activity and the texts shown over them.
#[derive(Clone, Debug)]
pub struct ActivityAssets {
    pub large_image: Option<String>,
    pub large_text: Option<String>,
    pub small_image: Option<String>,
    pub small_text: Option<String>,
}

/// The party of an activity.
#[derive(Clone, Debug)]
pub struct ActivityParty {
    /// Identifier of the party.
    pub id: Option<String>,
    /// Current and greatest size of the party.
    pub size: Option<[u64; 2]>,
}

/// Secrets for joining and spectating an activity.
#[derive(Clone, Debug)]
pub struct ActivitySecrets {
    /// Secret for joining a party.
    pub join: Option<String>,
    /// Secret for one instanced match; `match` on the wire.
    pub match_: Option<String>,
    /// Secret for spectating.
    pub spectate: Option<String>,
}

/// The emoji of a custom status.
#[derive(Clone, Debug)]
pub struct ActivityEmoji {
    pub name: String,
    pub id: Option<EmojiId>,
    pub animated: Option<bool>,
}

/// When an activity started and when it ends, in Unix time.
#[derive(Clone, Debug)]
pub struct ActivityTimestamps {
    pub end: Option<u64>,
    pub start: Option<u64>,
}

} // verus!
