//! The presence of a user: whether the account is online, on which devices,
//! and what it is doing.

use vstd::prelude::*;
use crate::activity::activity_failure;
use crate::activity::is_activity_of;
use crate::activity::Activity;
use crate::activity::ActivityPayload;
use crate::error::DecodeError;
use crate::ids::GuildId;
use crate::keyed::Keyed;
use crate::user::presence_user_of;
use crate::user::PresenceUser;
use crate::user::PresenceUserPayload;

verus! {

/// Whether and how an account is online.
#[derive(Clone, Copy, Debug, PartialEq, Eq, Structural, Hash)]
#[non_exhaustive]
pub enum OnlineStatus {
    DoNotDisturb,
    Idle,
    Invisible,
    Offline,
    Online,
}

/// The status of an account on each kind of device.
#[derive(Clone, Debug)]
pub struct ClientStatus {
    pub desktop: Option<OnlineStatus>,
    pub mobile: Option<OnlineStatus>,
    pub web: Option<OnlineStatus>,
}

/// The presence of one user.
#[derive(Clone, Debug)]
pub struct Presence {
    /// What the user is doing, possibly nothing.
    pub activities: Vec<Activity>,
    /// The devices on which the user is active, where known.
    pub client_status: Option<ClientStatus>,
    /// The guild that the update came from.
    pub guild_id: Option<GuildId>,
    /// The status of the user.
    pub status: OnlineStatus,
    /// The user, as far as the update tells.
    pub user: PresenceUser,
}

impl Keyed for Presence {
    /// A presence is filed under the identifier of its user.
    open spec fn key_of(&self) -> u64 {
        self.user.id.0
    }

    fn key(&self) -> (k: u64) {
        self.user.id.0
    }
}

/// A presence as the service writes it.
#[derive(Debug)]
pub struct PresencePayload {
    pub activities: Option<Vec<ActivityPayload>>,
    pub client_status: Option<ClientStatus>,
    pub guild_id: Option<u64>,
    pub status: Option<OnlineStatus>,
    pub user: Option<PresenceUserPayload>,
}

/// Why a list of payloads decodes to no list of activities, if it does not:
/// the failure of the first payload that fails.
pub open spec fn activities_failure(payloads: Seq<ActivityPayload>) -> Option<DecodeError>
    decreases payloads.len(),
{
    if payloads.len() == 0 {
        None
    } else {
        match activities_failure(payloads.drop_last()) {
            Some(e) => Some(e),
            None => activity_failure(payloads.last()),
        }
    }
}

/// Whether a list of activities is what a list of payloads decodes to, item
/// by item.
pub open spec fn are_activities_of(activities: Seq<Activity>, payloads: Seq<ActivityPayload>) -> bool {
    &&& activities.len() == payloads.len()
    &&& forall|i: int|
        0 <= i < activities.len() ==> is_activity_of(#[trigger] activities[i], payloads[i])
}

/// The payloads of the activities of a presence; an absent field holds none.
pub open spec fn activity_payloads(payload: PresencePayload) -> Seq<ActivityPayload> {
    match payload.activities {
        Some(list) => list@,
        None => Seq::empty(),
    }
}

/// Why a payload decodes to no presence, if it does not. The status and the
/// user have to be there; then the user has to decode, then each activity.
pub open spec fn presence_failure(payload: PresencePayload) -> Option<DecodeError> {
    if payload.status.is_none() || payload.user.is_none() {
        Some(DecodeError::MissingRequiredField)
    } else {
        match presence_user_of(payload.user.unwrap()) {
            Err(e) => Some(e),
            Ok(_) => activities_failure(activity_payloads(payload)),
        }
    }
}

/// Whether a presence is what a payload decodes to.
pub open spec fn is_presence_of(presence: Presence, payload: PresencePayload) -> bool {
    &&& are_activities_of(presence.activities@, activity_payloads(payload))
    &&& presence.client_status == payload.client_status
    &&& presence.guild_id == match payload.guild_id {
        Some(id) => Some(GuildId(id)),
        None => None,
    }
    &&& Some(presence.status) == payload.status
    &&& payload.user.is_some()
    &&& Ok::<PresenceUser, DecodeError>(presence.user) == presence_user_of(payload.user.unwrap())
}

/// A list whose beginning fails, fails in the same way.
pub proof fn lemma_activities_failure_stays(payloads: Seq<ActivityPayload>, n: int)
    requires
        0 <= n <= payloads.len(),
        activities_failure(payloads.take(n)).is_some(),
    ensures
        activities_failure(payloads) == activities_failure(payloads.take(n)),
    decreases payloads.len(),
{
    if n == payloads.len() {
        assert(payloads.take(n) =~= payloads);
    } else {
        assert(payloads.drop_last().take(n) =~= payloads.take(n));
        lemma_activities_failure_stays(payloads.drop_last(), n);
    }
}

/// Decodes the activities of a presence, in their order. The first payload
/// that fails, fails the list.
pub fn decode_activities(payloads: Vec<ActivityPayload>) -> (activities: Result<
    Vec<Activity>,
    DecodeError,
>)
    ensures
        match activities {
            Ok(list) => activities_failure(payloads@).is_none() && are_activities_of(
                list@,
                payloads@,
            ),
            Err(e) => activities_failure(payloads@) == Some(e),
        },
{
    let ghost all = payloads@;
    let mut out: Vec<Activity> = Vec::new();
    for payload in it: payloads.into_iter()
        invariant
            it.seq() == all,
            activities_failure(all.take(it.index() as int)).is_none(),
            are_activities_of(out@, all.take(it.index() as int)),
    {
        let ghost n = it.index() as int;
        let ghost before = out@;
        proof {
            assert(all.take(n + 1).drop_last() =~= all.take(n));
            assert(all.take(n + 1).last() == payload);
        }
        match Activity::from_payload(payload) {
            Ok(activity) => {
                out.push(activity);
                proof {
                    assert forall|i: int| 0 <= i < out@.len() implies is_activity_of(
                        #[trigger] out@[i],
                        all.take(n + 1)[i],
                    ) by {
                        if i < n {
                            assert(out@[i] == before[i]);
                            assert(all.take(n + 1)[i] == all.take(n)[i]);
                        }
                    }
                }
            },
            Err(e) => {
                proof {
                    lemma_activities_failure_stays(all, n + 1);
                }
                return Err(e);
            },
        }
    }
    proof {
        assert(all.take(all.len() as int) =~= all);
    }
    Ok(out)
}

impl Presence {
    /// Decodes a presence from its payload. Fails with
    /// `MissingRequiredField` where the status or the user is absent, and as
    /// the user or one of the activities fails. Absent activities are none.
    pub fn from_payload(payload: PresencePayload) -> (presence: Result<Presence, DecodeError>)
        ensures
            match presence {
                Ok(p) => presence_failure(payload).is_none() && is_presence_of(p, payload),
                Err(e) => presence_failure(payload) == Some(e),
            },
    {
        let status = match payload.status {
            Some(status) => status,
            None => {
                return Err(DecodeError::MissingRequiredField);
            },
        };
        let user = match payload.user {
            Some(user) => match PresenceUser::from_payload(user) {
                Ok(user) => user,
                Err(e) => {
                    return Err(e);
                },
            },
            None => {
                return Err(DecodeError::MissingRequiredField);
            },
        };
        let activities = match payload.activities {
            Some(list) => match decode_activities(list) {
                Ok(activities) => activities,
                Err(e) => {
                    return Err(e);
                },
            },
            None => Vec::new(),
        };
        Ok(
            Presence {
                activities,
                client_status: payload.client_status,
                guild_id: match payload.guild_id {
                    Some(id) => Some(GuildId(id)),
                    None => None,
                },
                status,
                user,
            },
        )
    }
}

} // verus!
