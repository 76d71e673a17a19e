//! What an account is doing, and the constructors for the activities that a
//! client sets itself.

use vstd::pervasive::unreached;
use vstd::prelude::*;
use vstd::string::StringExecFns;
use crate::buttons::button_views;
use crate::buttons::buttons_of;
use crate::buttons::decode_buttons;
use crate::buttons::encode_buttons;
use crate::error::DecodeError;
use crate::flags::flags_of_bits;
use crate::flags::lemma_flags_round_trip;
use crate::flags::ActivityFlags;
use crate::ids::ApplicationId;
use crate::kind::code_of_kind;
use crate::kind::decode_kind;
use crate::kind::kind_of_code;
use crate::kind::lemma_kind_survives_its_code;
use crate::kind::ActivityType;
use crate::records::ActivityAssets;
use crate::records::ActivityEmoji;
use crate::records::ActivityParty;
use crate::records::ActivitySecrets;
use crate::records::ActivityTimestamps;
use crate::stream_url::parsed_url_text;
use crate::stream_url::StreamUrl;
use crate::wire::WireValue;

verus! {

/// A button of an activity.
#[derive(Clone, Debug)]
pub struct ActivityButton {
    /// The text on the button.
    pub label: String,
    /// The address that the button opens. The service does not tell it to
    /// bots, so it is mostly empty.
    pub url: String,
}

/// A button as its two texts.
pub struct ButtonView {
    pub label: Seq<char>,
    pub url: Seq<char>,
}

impl View for ActivityButton {
    type V = ButtonView;

    open spec fn view(&self) -> ButtonView {
        ButtonView { label: self.label@, url: self.url@ }
    }
}

/// What an account is doing.
#[derive(Clone, Debug)]
pub struct Activity {
    /// The application behind the activity.
    pub application_id: Option<ApplicationId>,
    /// Images and the texts over them.
    pub assets: Option<ActivityAssets>,
    /// What the account is doing, in its own words.
    pub details: Option<String>,
    /// What the payload says the activity allows.
    pub flags: Option<ActivityFlags>,
    /// Whether the activity is an instanced session.
    pub instance: Option<bool>,
    /// The kind of the activity; `type` on the wire.
    pub kind: ActivityType,
    /// The name of the activity, at most 128 characters by the service's
    /// convention.
    pub name: String,
    /// The party of the account.
    pub party: Option<ActivityParty>,
    /// Secrets for joining and spectating.
    pub secrets: Option<ActivitySecrets>,
    /// The state of the party.
    pub state: Option<String>,
    /// The emoji of a custom status.
    pub emoji: Option<ActivityEmoji>,
    /// Start and end of the activity.
    pub timestamps: Option<ActivityTimestamps>,
    /// The address of the stream, for the streaming kind.
    pub url: Option<StreamUrl>,
    /// The buttons, two at most.
    pub buttons: Vec<ActivityButton>,
}

/// An activity as the service writes it: the kind as its code, the flags as
/// an integer, the address as a text, the buttons in whichever shape they
/// came, and every field possibly absent.
#[derive(Debug)]
pub struct ActivityPayload {
    pub application_id: Option<u64>,
    pub assets: Option<ActivityAssets>,
    pub details: Option<String>,
    pub flags: Option<u64>,
    pub instance: Option<bool>,
    /// The code of the kind; `type` on the wire.
    pub kind: Option<u64>,
    pub name: Option<String>,
    pub party: Option<ActivityParty>,
    pub secrets: Option<ActivitySecrets>,
    pub state: Option<String>,
    pub emoji: Option<ActivityEmoji>,
    pub timestamps: Option<ActivityTimestamps>,
    pub url: Option<String>,
    pub buttons: Option<WireValue>,
}

/// The kind that the field of a payload stands for: an absent field is the
/// default kind, a code without a name the unknown kind.
pub open spec fn kind_of_field(code: Option<u64>) -> ActivityType {
    match code {
        Some(c) => kind_of_code(c),
        None => ActivityType::Playing,
    }
}

/// The address that the field of a payload stands for, as the URL parser
/// writes it.
pub open spec fn url_of_field(text: Option<String>) -> Option<Seq<char>> {
    match text {
        Some(t) => parsed_url_text(t@),
        None => None,
    }
}

/// Why a payload decodes to no activity, if it does not. The name is
/// looked at first, then the address, then the buttons.
pub open spec fn activity_failure(payload: ActivityPayload) -> Option<DecodeError> {
    if payload.name.is_none() {
        Some(DecodeError::MissingRequiredField)
    } else if payload.url.is_some() && url_of_field(payload.url).is_none() {
        Some(DecodeError::WrongShape)
    } else {
        match buttons_of(payload.buttons) {
            Err(e) => Some(e),
            Ok(_) => None,
        }
    }
}

/// Whether an activity is what a payload decodes to.
pub open spec fn is_activity_of(activity: Activity, payload: ActivityPayload) -> bool {
    &&& activity.application_id == match payload.application_id {
        Some(id) => Some(ApplicationId(id)),
        None => None,
    }
    &&& activity.assets == payload.assets
    &&& activity.details == payload.details
    &&& activity.flags == match payload.flags {
        Some(bits) => Some(flags_of_bits(bits)),
        None => None,
    }
    &&& activity.instance == payload.instance
    &&& activity.kind == kind_of_field(payload.kind)
    &&& Some(activity.name) == payload.name
    &&& activity.party == payload.party
    &&& activity.secrets == payload.secrets
    &&& activity.state == payload.state
    &&& activity.emoji == payload.emoji
    &&& activity.timestamps == payload.timestamps
    &&& url_text(activity) == url_of_field(payload.url)
    &&& Ok::<Seq<ButtonView>, DecodeError>(button_views(activity.buttons@))
        == buttons_of(payload.buttons)
}

/// Whether a payload is what an activity encodes to. The kind has to have a
/// code.
pub open spec fn is_payload_of(payload: ActivityPayload, activity: Activity) -> bool {
    &&& payload.application_id == match activity.application_id {
        Some(id) => Some(id.0),
        None => None,
    }
    &&& payload.assets == activity.assets
    &&& payload.details == activity.details
    &&& payload.flags == match activity.flags {
        Some(f) => Some(f@),
        None => None,
    }
    &&& payload.instance == activity.instance
    &&& payload.kind.is_some()
    &&& payload.kind == code_of_kind(activity.kind)
    &&& payload.name == Some(activity.name)
    &&& payload.party == activity.party
    &&& payload.secrets == activity.secrets
    &&& payload.state == activity.state
    &&& payload.emoji == activity.emoji
    &&& payload.timestamps == activity.timestamps
    &&& match activity.url {
        Some(u) => payload.url.is_some() && payload.url.unwrap()@ == u@,
        None => payload.url.is_none(),
    }
    &&& buttons_of(payload.buttons) == Ok::<Seq<ButtonView>, DecodeError>(
        button_views(activity.buttons@),
    )
}

/// The address of an activity's stream as text.
pub open spec fn url_text(activity: Activity) -> Option<Seq<char>> {
    match activity.url {
        Some(u) => Some(u@),
        None => None,
    }
}

/// Whether an activity holds a name, a kind and a stream address, and
/// nothing else.
pub open spec fn is_bare(
    activity: Activity,
    name: Seq<char>,
    kind: ActivityType,
    url: Option<Seq<char>>,
) -> bool {
    &&& activity.name@ == name
    &&& activity.kind == kind
    &&& url_text(activity) == url
    &&& activity.application_id.is_none()
    &&& activity.assets.is_none()
    &&& activity.details.is_none()
    &&& activity.flags.is_none()
    &&& activity.instance.is_none()
    &&& activity.party.is_none()
    &&& activity.secrets.is_none()
    &&& activity.state.is_none()
    &&& activity.emoji.is_none()
    &&& activity.timestamps.is_none()
    &&& activity.buttons@.len() == 0
}

impl Activity {
    /// Decodes an activity from its payload. Fails with
    /// `MissingRequiredField` where the name is absent, with `WrongShape`
    /// where the address is written and the URL parser refuses it, and as the
    /// buttons fail. A code of the kind or a bit of the flags that has no
    /// name is no failure.
    pub fn from_payload(payload: ActivityPayload) -> (activity: Result<Activity, DecodeError>)
        ensures
            match activity {
                Ok(a) => activity_failure(payload).is_none() && is_activity_of(a, payload),
                Err(e) => activity_failure(payload) == Some(e),
            },
    {
        let name = match payload.name {
            Some(name) => name,
            None => {
                return Err(DecodeError::MissingRequiredField);
            },
        };
        let url = match &payload.url {
            Some(text) => match StreamUrl::parse(text.as_str()) {
                Some(parsed) => Some(parsed),
                None => {
                    return Err(DecodeError::WrongShape);
                },
            },
            None => None,
        };
        let buttons = match decode_buttons(payload.buttons.as_ref()) {
            Ok(buttons) => buttons,
            Err(e) => {
                return Err(e);
            },
        };
        Ok(
            Activity {
                application_id: match payload.application_id {
                    Some(id) => Some(ApplicationId(id)),
                    None => None,
                },
                assets: payload.assets,
                details: payload.details,
                flags: match payload.flags {
                    Some(bits) => Some(ActivityFlags::from_bits_retain(bits)),
                    None => None,
                },
                instance: payload.instance,
                kind: decode_kind(payload.kind),
                name,
                party: payload.party,
                secrets: payload.secrets,
                state: payload.state,
                emoji: payload.emoji,
                timestamps: payload.timestamps,
                url,
                buttons,
            },
        )
    }

    /// Encodes the activity as its payload. An activity of the unknown kind
    /// has no code to be sent under and gives `None`; every other activity
    /// encodes.
    pub fn into_payload(self) -> (payload: Option<ActivityPayload>)
        ensures
            payload.is_some() <==> self.kind != ActivityType::Unknown,
            payload.is_some() ==> is_payload_of(payload.unwrap(), self),
    {
        let code = match self.kind.code() {
            Some(code) => code,
            None => {
                return None;
            },
        };
        Some(
            ActivityPayload {
                application_id: match self.application_id {
                    Some(id) => Some(id.0),
                    None => None,
                },
                assets: self.assets,
                details: self.details,
                flags: match self.flags {
                    Some(f) => Some(f.bits()),
                    None => None,
                },
                instance: self.instance,
                kind: Some(code),
                name: Some(self.name),
                party: self.party,
                secrets: self.secrets,
                state: self.state,
                emoji: self.emoji,
                timestamps: self.timestamps,
                url: match self.url {
                    Some(u) => Some(u.into_string()),
                    None => None,
                },
                buttons: Some(encode_buttons(self.buttons)),
            },
        )
    }

    /// An activity of the given kind that holds its name and nothing else.
    fn new(name: String, kind: ActivityType) -> (activity: Activity)
        ensures
            is_bare(activity, name@, kind, None),
            activity.name == name,
    {
        Activity {
            application_id: None,
            assets: None,
            details: None,
            flags: None,
            instance: None,
            kind,
            name,
            party: None,
            secrets: None,
            state: None,
            emoji: None,
            timestamps: None,
            url: None,
            buttons: Vec::new(),
        }
    }

    /// An activity shown as "Playing `name`".
    pub fn playing(name: &str) -> (activity: Activity)
        ensures
            is_bare(activity, name@, ActivityType::Playing, None),
    {
        Activity::new(String::from_str(name), ActivityType::Playing)
    }

    /// An activity shown as "Streaming `name`", with the address of the
    /// stream. The address has to be one that the URL parser accepts;
    /// `try_streaming` tests that first.
    pub fn streaming(name: &str, url: &str) -> (activity: Activity)
        requires
            parsed_url_text(url@).is_some(),
        ensures
            is_bare(activity, name@, ActivityType::Streaming, parsed_url_text(url@)),
    {
        match StreamUrl::parse(url) {
            Some(parsed) => Activity::streaming_at(name, parsed),
            None => unreached(),
        }
    }

    /// An activity shown as "Streaming `name`" at an address that was parsed
    /// before.
    pub fn streaming_at(name: &str, url: StreamUrl) -> (activity: Activity)
        ensures
            is_bare(activity, name@, ActivityType::Streaming, Some(url@)),
    {
        let bare = Activity::new(String::from_str(name), ActivityType::Streaming);
        Activity {
            application_id: bare.application_id,
            assets: bare.assets,
            details: bare.details,
            flags: bare.flags,
            instance: bare.instance,
            kind: bare.kind,
            name: bare.name,
            party: bare.party,
            secrets: bare.secrets,
            state: bare.state,
            emoji: bare.emoji,
            timestamps: bare.timestamps,
            url: Some(url),
            buttons: bare.buttons,
        }
    }

    /// As `streaming`, for an address that may not be a URL: gives `None`
    /// exactly where the URL parser refuses it.
    pub fn try_streaming(name: &str, url: &str) -> (activity: Option<Activity>)
        ensures
            activity.is_some() <==> parsed_url_text(url@).is_some(),
            activity.is_some() ==> is_bare(
                activity.unwrap(),
                name@,
                ActivityType::Streaming,
                parsed_url_text(url@),
            ),
    {
        match StreamUrl::parse(url) {
            Some(_) => Some(Activity::streaming(name, url)),
            None => None,
        }
    }

    /// An activity shown as "Listening to `name`".
    pub fn listening(name: &str) -> (activity: Activity)
        ensures
            is_bare(activity, name@, ActivityType::Listening, None),
    {
        Activity::new(String::from_str(name), ActivityType::Listening)
    }

    /// An activity shown as "Watching `name`".
    pub fn watching(name: &str) -> (activity: Activity)
        ensures
            is_bare(activity, name@, ActivityType::Watching, None),
    {
        Activity::new(String::from_str(name), ActivityType::Watching)
    }

    /// An activity shown as "Competing in `name`".
    pub fn competing(name: &str) -> (activity: Activity)
        ensures
            is_bare(activity, name@, ActivityType::Competing, None),
    {
        Activity::new(String::from_str(name), ActivityType::Competing)
    }
}

/// What an activity encodes to, decodes, and to an activity of the same
/// fields: kind, flags and buttons come back as they were. The address
/// comes back where the URL parser writes it as it stands.
pub proof fn lemma_payload_round_trip(activity: Activity, payload: ActivityPayload, back: Activity)
    requires
        is_payload_of(payload, activity),
        activity.url.is_some() ==> parsed_url_text(activity.url.unwrap()@) == Some(
            activity.url.unwrap()@,
        ),
        is_activity_of(back, payload),
    ensures
        activity_failure(payload).is_none(),
        back.application_id == activity.application_id,
        back.assets == activity.assets,
        back.details == activity.details,
        back.flags == activity.flags,
        back.instance == activity.instance,
        back.kind == activity.kind,
        back.name == activity.name,
        back.party == activity.party,
        back.secrets == activity.secrets,
        back.state == activity.state,
        back.emoji == activity.emoji,
        back.timestamps == activity.timestamps,
        url_text(back) == url_text(activity),
        button_views(back.buttons@) == button_views(activity.buttons@),
{
    lemma_kind_survives_its_code(activity.kind);
    if let Some(f) = activity.flags {
        lemma_flags_round_trip(f);
    }
}

} // verus!
