//! What the service sends once after a session was negotiated.

use vstd::prelude::*;
use std::collections::HashMap;
use crate::error::DecodeError;
use crate::ids::ApplicationId;
use crate::ids::ChannelId;
use crate::ids::GuildId;
use crate::keyed::decode_keyed;
use crate::keyed::decode_keyed_field;
use crate::keyed::keyed;
use crate::keyed::Keyed;
use crate::presence::is_presence_of;
use crate::presence::presence_failure;
use crate::presence::Presence;
use crate::presence::PresencePayload;
use crate::user::CurrentUser;
use crate::user::User;

verus! {

/// The application of the session, as far as the session start tells.
#[derive(Clone, Debug)]
pub struct PartialCurrentApplicationInfo {
    pub id: ApplicationId,
    pub flags: u64,
}

/// A guild that the session will fill in later.
#[derive(Clone, Copy, Debug)]
pub struct UnavailableGuild {
    pub id: GuildId,
    pub unavailable: bool,
}

/// A private channel of the account.
#[derive(Clone, Debug)]
pub struct Channel {
    pub id: ChannelId,
    pub last_message_id: Option<u64>,
    pub recipient: User,
}

impl Keyed for Channel {
    /// A channel is filed under its own identifier.
    open spec fn key_of(&self) -> u64 {
        self.id.0
    }

    fn key(&self) -> (k: u64) {
        self.id.0
    }
}

/// The first set of information of a session.
#[derive(Clone, Debug)]
pub struct Ready {
    pub application: PartialCurrentApplicationInfo,
    pub guilds: Vec<UnavailableGuild>,
    /// The presences, by the identifier of their user.
    pub presences: HashMap<u64, Presence>,
    /// The private channels, by their identifier.
    pub private_channels: HashMap<u64, Channel>,
    /// The token by which the session is resumed.
    pub session_id: String,
    /// Index and count of the shard.
    pub shard: Option<[u64; 2]>,
    /// Diagnostic trace; `_trace` on the wire.
    pub trace: Vec<String>,
    pub user: CurrentUser,
    /// The version of the protocol; `v` on the wire.
    pub version: u64,
}

/// The first set of information of a session as the service writes it: the
/// two mappings as lists, and every field possibly absent.
#[derive(Debug)]
pub struct ReadyPayload {
    pub application: Option<PartialCurrentApplicationInfo>,
    pub guilds: Option<Vec<UnavailableGuild>>,
    pub presences: Option<Vec<PresencePayload>>,
    pub private_channels: Option<Vec<Channel>>,
    pub session_id: Option<String>,
    pub shard: Option<[u64; 2]>,
    pub trace: Option<Vec<String>>,
    pub user: Option<CurrentUser>,
    pub version: Option<u64>,
}

/// Why a list of payloads decodes to no list of presences, if it does not:
/// the failure of the first payload that fails.
pub open spec fn presences_failure(payloads: Seq<PresencePayload>) -> Option<DecodeError>
    decreases payloads.len(),
{
    if payloads.len() == 0 {
        None
    } else {
        match presences_failure(payloads.drop_last()) {
            Some(e) => Some(e),
            None => presence_failure(payloads.last()),
        }
    }
}

/// Whether a list of presences is what a list of payloads decodes to, item
/// by item.
pub open spec fn are_presences_of(presences: Seq<Presence>, payloads: Seq<PresencePayload>) -> bool {
    &&& presences.len() == payloads.len()
    &&& forall|i: int|
        0 <= i < presences.len() ==> is_presence_of(#[trigger] presences[i], payloads[i])
}

/// The payloads of the presences of a session start; an absent field holds
/// none.
pub open spec fn presence_payloads(payload: ReadyPayload) -> Seq<PresencePayload> {
    match payload.presences {
        Some(list) => list@,
        None => Seq::empty(),
    }
}

/// The private channels of a session start as written; an absent field
/// holds none.
pub open spec fn listed_channels(payload: ReadyPayload) -> Seq<Channel> {
    match payload.private_channels {
        Some(list) => list@,
        None => Seq::empty(),
    }
}

/// Whether one of the fields that have no default is absent.
pub open spec fn lacks_required_field(payload: ReadyPayload) -> bool {
    ||| payload.application.is_none()
    ||| payload.guilds.is_none()
    ||| payload.session_id.is_none()
    ||| payload.user.is_none()
    ||| payload.version.is_none()
}

/// Why a payload decodes to no session start, if it does not.
pub open spec fn ready_failure(payload: ReadyPayload) -> Option<DecodeError> {
    if lacks_required_field(payload) {
        Some(DecodeError::MissingRequiredField)
    } else {
        presences_failure(presence_payloads(payload))
    }
}

/// Whether a session start is what a payload decodes to: the fields as
/// written, absent lists empty, and the two mappings made of the lists, a
/// later item in place of an earlier one with the same identifier.
pub open spec fn is_ready_of(ready: Ready, payload: ReadyPayload) -> bool {
    &&& Some(ready.application) == payload.application
    &&& Some(ready.guilds) == payload.guilds
    &&& exists|listed: Seq<Presence>|
        are_presences_of(listed, presence_payloads(payload)) && ready.presences@ == keyed(listed)
    &&& ready.private_channels@ == keyed(listed_channels(payload))
    &&& Some(ready.session_id) == payload.session_id
    &&& ready.shard == payload.shard
    &&& match payload.trace {
        Some(trace) => ready.trace == trace,
        None => ready.trace@.len() == 0,
    }
    &&& Some(ready.user) == payload.user
    &&& Some(ready.version) == payload.version
}

/// A list whose beginning fails, fails in the same way.
pub proof fn lemma_presences_failure_stays(payloads: Seq<PresencePayload>, n: int)
    requires
        0 <= n <= payloads.len(),
        presences_failure(payloads.take(n)).is_some(),
    ensures
        presences_failure(payloads) == presences_failure(payloads.take(n)),
    decreases payloads.len(),
{
    if n == payloads.len() {
        assert(payloads.take(n) =~= payloads);
    } else {
        assert(payloads.drop_last().take(n) =~= payloads.take(n));
        lemma_presences_failure_stays(payloads.drop_last(), n);
    }
}

/// Decodes the presences of a session start, in their order. The first
/// payload that fails, fails the list.
pub fn decode_presences(payloads: Vec<PresencePayload>) -> (presences: Result<
    Vec<Presence>,
    DecodeError,
>)
    ensures
        match presences {
            Ok(list) => presences_failure(payloads@).is_none() && are_presences_of(
                list@,
                payloads@,
            ),
            Err(e) => presences_failure(payloads@) == Some(e),
        },
{
    let ghost all = payloads@;
    let mut out: Vec<Presence> = Vec::new();
    for payload in it: payloads.into_iter()
        invariant
            it.seq() == all,
            presences_failure(all.take(it.index() as int)).is_none(),
            are_presences_of(out@, all.take(it.index() as int)),
    {
        let ghost n = it.index() as int;
        let ghost before = out@;
        proof {
            assert(all.take(n + 1).drop_last() =~= all.take(n));
            assert(all.take(n + 1).last() == payload);
        }
        match Presence::from_payload(payload) {
            Ok(presence) => {
                out.push(presence);
                proof {
                    assert forall|i: int| 0 <= i < out@.len() implies is_presence_of(
                        #[trigger] out@[i],
                        all.take(n + 1)[i],
                    ) by {
                        if i < n {
                            assert(out@[i] == before[i]);
                            assert(all.take(n + 1)[i] == all.take(n)[i]);
                        }
                    }
                }
            },
            Err(e) => {
                proof {
                    lemma_presences_failure_stays(all, n + 1);
                }
                return Err(e);
            },
        }
    }
    proof {
        assert(all.take(all.len() as int) =~= all);
    }
    Ok(out)
}

impl Ready {
    /// Decodes the session start from its payload. Fails with
    /// `MissingRequiredField` where the application, the guilds, the session
    /// token, the user or the version is absent, and as the first presence
    /// fails that does. Absent presences, channels and trace are empty.
    pub fn from_payload(payload: ReadyPayload) -> (ready: Result<Ready, DecodeError>)
        ensures
            match ready {
                Ok(r) => ready_failure(payload).is_none() && is_ready_of(r, payload),
                Err(e) => ready_failure(payload) == Some(e),
            },
    {
        let application = match payload.application {
            Some(application) => application,
            None => {
                return Err(DecodeError::MissingRequiredField);
            },
        };
        let guilds = match payload.guilds {
            Some(guilds) => guilds,
            None => {
                return Err(DecodeError::MissingRequiredField);
            },
        };
        let session_id = match payload.session_id {
            Some(session_id) => session_id,
            None => {
                return Err(DecodeError::MissingRequiredField);
            },
        };
        let user = match payload.user {
            Some(user) => user,
            None => {
                return Err(DecodeError::MissingRequiredField);
            },
        };
        let version = match payload.version {
            Some(version) => version,
            None => {
                return Err(DecodeError::MissingRequiredField);
            },
        };
        let listed = match payload.presences {
            Some(list) => match decode_presences(list) {
                Ok(listed) => listed,
                Err(e) => {
                    return Err(e);
                },
            },
            None => Vec::new(),
        };
        let ghost listed_seq = listed@;
        let presences = decode_keyed(listed);
        let private_channels = decode_keyed_field(payload.private_channels);
        let trace = match payload.trace {
            Some(trace) => trace,
            None => Vec::new(),
        };
        let ready = Ready {
            application,
            guilds,
            presences,
            private_channels,
            session_id,
            shard: payload.shard,
            trace,
            user,
            version,
        };
        proof {
            assert(are_presences_of(listed_seq, presence_payloads(payload)));
            assert(ready.presences@ == keyed(listed_seq));
            assert(keyed(Seq::<Channel>::empty()) == Map::<u64, Channel>::empty());
        }
        Ok(ready)
    }
}

} // verus!
