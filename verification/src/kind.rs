//! The kind of an activity and its numeric wire code.

use vstd::prelude::*;

verus! {

/// What an account is doing. `Unknown` stands for every wire code that has no
/// named kind yet.
#[derive(Clone, Copy, Debug, PartialEq, Eq, Structural)]
#[non_exhaustive]
pub enum ActivityType {
    /// The account is playing a game.
    Playing,
    /// The account is streaming to a service.
    Streaming,
    /// The account is listening to something.
    Listening,
    /// The account is watching something.
    Watching,
    /// The account shows a custom status.
    Custom,
    /// The account is competing somewhere.
    Competing,
    /// The wire code names no kind known here.
    Unknown,
}

/// Number of named kinds; their codes are `0 .. KNOWN_KINDS`.
pub const KNOWN_KINDS: u64 = 6;

/// The kind that a wire code stands for.
pub open spec fn kind_of_code(code: u64) -> ActivityType {
    if code == 0 {
        ActivityType::Playing
    } else if code == 1 {
        ActivityType::Streaming
    } else if code == 2 {
        ActivityType::Listening
    } else if code == 3 {
        ActivityType::Watching
    } else if code == 4 {
        ActivityType::Custom
    } else if code == 5 {
        ActivityType::Competing
    } else {
        ActivityType::Unknown
    }
}

/// The wire code of a kind; `Unknown` has none.
pub open spec fn code_of_kind(kind: ActivityType) -> Option<u64> {
    match kind {
        ActivityType::Playing => Some(0u64),
        ActivityType::Streaming => Some(1u64),
        ActivityType::Listening => Some(2u64),
        ActivityType::Watching => Some(3u64),
        ActivityType::Custom => Some(4u64),
        ActivityType::Competing => Some(5u64),
        ActivityType::Unknown => None,
    }
}

impl ActivityType {
    /// Decodes a wire code. Every code decodes; one outside the named range
    /// gives `Unknown`.
    pub fn from_code(code: u64) -> (kind: ActivityType)
        ensures
            kind == kind_of_code(code),
            (kind == ActivityType::Unknown) <==> code >= KNOWN_KINDS,
    {
        match code {
            0 => ActivityType::Playing,
            1 => ActivityType::Streaming,
            2 => ActivityType::Listening,
            3 => ActivityType::Watching,
            4 => ActivityType::Custom,
            5 => ActivityType::Competing,
            _ => ActivityType::Unknown,
        }
    }

    /// The wire code of a named kind, its position in the declaration.
    /// `Unknown` cannot be sent and gives `None`.
    pub fn code(&self) -> (code: Option<u64>)
        ensures
            code == code_of_kind(*self),
            code.is_none() <==> *self == ActivityType::Unknown,
    {
        match self {
            ActivityType::Playing => Some(0),
            ActivityType::Streaming => Some(1),
            ActivityType::Listening => Some(2),
            ActivityType::Watching => Some(3),
            ActivityType::Custom => Some(4),
            ActivityType::Competing => Some(5),
            ActivityType::Unknown => None,
        }
    }

    /// Whether the kind is one of the named ones.
    pub fn is_known(&self) -> (known: bool)
        ensures
            known == (*self != ActivityType::Unknown),
    {
        !matches!(self, ActivityType::Unknown)
    }
}

impl Default for ActivityType {
    /// The kind of an activity whose payload names none: `Playing`.
    fn default() -> (kind: ActivityType)
        ensures
            kind == ActivityType::Playing,
    {
        ActivityType::Playing
    }
}

/// Decodes the kind field of an activity, absent or present: an absent field
/// is the default kind, a present one is decoded by its code.
pub fn decode_kind(code: Option<u64>) -> (kind: ActivityType)
    ensures
        kind == match code {
            Some(c) => kind_of_code(c),
            None => ActivityType::Playing,
        },
{
    match code {
        Some(c) => ActivityType::from_code(c),
        None => ActivityType::Playing,
    }
}

/// A code in the named range decodes to a named kind whose code it is; every
/// other code decodes to `Unknown`.
pub proof fn lemma_code_decodes_to_its_kind(code: u64)
    ensures
        code < KNOWN_KINDS ==> code_of_kind(kind_of_code(code)) == Some(code),
        code >= KNOWN_KINDS ==> kind_of_code(code) == ActivityType::Unknown,
{
}

/// A named kind is what its own code decodes to.
pub proof fn lemma_kind_survives_its_code(kind: ActivityType)
    requires
        kind != ActivityType::Unknown,
    ensures
        code_of_kind(kind).is_some(),
        code_of_kind(kind).unwrap() < KNOWN_KINDS,
        kind_of_code(code_of_kind(kind).unwrap()) == kind,
{
}

} // verus!
