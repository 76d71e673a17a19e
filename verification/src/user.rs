//! The two records of a user: the complete one, and the partial one that a
//! presence update carries.

use vstd::prelude::*;
use crate::discriminator::decode_option;
use crate::discriminator::decoded;
use crate::discriminator::encode_option;
use crate::discriminator::encoded;
use crate::discriminator::lemma_encode_then_decode;
use crate::error::DecodeError;
use crate::ids::GuildId;
use crate::ids::UserId;

verus! {

/// Public badges of a user, kept as the integer the service sent.
#[derive(Clone, Copy, Debug, PartialEq, Eq, Structural, Hash)]
pub struct UserPublicFlags {
    pub bits: u32,
}

/// What a user is within one guild, as far as a message or an interaction
/// carries it along with the user.
#[derive(Clone, Debug)]
pub struct PartialMember {
    pub guild_id: Option<GuildId>,
    pub nick: Option<String>,
    pub deaf: bool,
    pub mute: bool,
}

/// The complete record of a user.
#[derive(Clone, Debug)]
pub struct User {
    pub id: UserId,
    pub avatar: Option<String>,
    pub bot: bool,
    pub discriminator: u16,
    pub name: String,
    pub public_flags: Option<UserPublicFlags>,
    pub banner: Option<String>,
    pub accent_colour: Option<u32>,
    pub member: Option<PartialMember>,
}

/// The record of a user inside a presence update. Only the identifier is
/// always there: an update carries the fields that changed.
#[derive(Clone, Debug)]
pub struct PresenceUser {
    pub id: UserId,
    pub avatar: Option<String>,
    pub bot: Option<bool>,
    pub discriminator: Option<u16>,
    pub email: Option<String>,
    pub mfa_enabled: Option<bool>,
    pub name: Option<String>,
    pub verified: Option<bool>,
    pub public_flags: Option<UserPublicFlags>,
}

/// The account that a session belongs to.
#[derive(Clone, Debug)]
pub struct CurrentUser {
    pub id: UserId,
    pub avatar: Option<String>,
    pub bot: bool,
    pub discriminator: u16,
    pub email: Option<String>,
    pub mfa_enabled: bool,
    pub name: String,
    pub verified: Option<bool>,
    pub public_flags: Option<UserPublicFlags>,
}

/// The record of a user inside a presence update as the service writes it:
/// every field may be absent, and the discriminator is a text of digits.
#[derive(Clone, Debug)]
pub struct PresenceUserPayload {
    pub id: Option<u64>,
    pub avatar: Option<String>,
    pub bot: Option<bool>,
    pub discriminator: Option<String>,
    pub email: Option<String>,
    pub mfa_enabled: Option<bool>,
    /// The name; `username` on the wire.
    pub username: Option<String>,
    pub verified: Option<bool>,
    pub public_flags: Option<u32>,
}

/// The discriminator that the field of a payload stands for; an absent field
/// stands for none.
pub open spec fn discriminator_of(text: Option<String>) -> Option<u16> {
    match text {
        Some(t) => decoded(t@),
        None => None,
    }
}

/// The record that a payload decodes to. Only a discriminator that is
/// written and is no number fails; absent fields stay absent, and an absent
/// identifier is zero.
pub open spec fn presence_user_of(payload: PresenceUserPayload) -> Result<
    PresenceUser,
    DecodeError,
> {
    if payload.discriminator.is_some() && discriminator_of(payload.discriminator).is_none() {
        Err(DecodeError::WrongShape)
    } else {
        Ok(
            PresenceUser {
                id: UserId(
                    match payload.id {
                        Some(id) => id,
                        None => 0,
                    },
                ),
                avatar: payload.avatar,
                bot: payload.bot,
                discriminator: discriminator_of(payload.discriminator),
                email: payload.email,
                mfa_enabled: payload.mfa_enabled,
                name: payload.username,
                verified: payload.verified,
                public_flags: match payload.public_flags {
                    Some(bits) => Some(UserPublicFlags { bits }),
                    None => None,
                },
            },
        )
    }
}

/// Whether a payload is what a record encodes to: the discriminator as its
/// digits or left out, every other field as it is.
pub open spec fn is_payload_of(payload: PresenceUserPayload, view: PresenceUser) -> bool {
    &&& payload.id == Some(view.id.0)
    &&& payload.avatar == view.avatar
    &&& payload.bot == view.bot
    &&& match view.discriminator {
        Some(d) => payload.discriminator.is_some() && payload.discriminator.unwrap()@ == encoded(d),
        None => payload.discriminator.is_none(),
    }
    &&& payload.email == view.email
    &&& payload.mfa_enabled == view.mfa_enabled
    &&& payload.username == view.name
    &&& payload.verified == view.verified
    &&& payload.public_flags == match view.public_flags {
        Some(f) => Some(f.bits),
        None => None,
    }
}

/// What a record encodes to, decodes to the record.
pub proof fn lemma_payload_round_trip(payload: PresenceUserPayload, view: PresenceUser)
    requires
        is_payload_of(payload, view),
    ensures
        presence_user_of(payload) == Ok::<PresenceUser, DecodeError>(view),
{
    if let Some(d) = view.discriminator {
        lemma_encode_then_decode(d);
    }
}

/// Whether a partial record holds all that a complete record needs.
pub open spec fn is_complete(view: PresenceUser) -> bool {
    view.bot.is_some() && view.discriminator.is_some() && view.name.is_some()
}

/// The complete record that a partial one narrows to, where it holds enough.
pub open spec fn narrowed(view: PresenceUser) -> Option<User> {
    if is_complete(view) {
        Some(
            User {
                id: view.id,
                avatar: view.avatar,
                bot: view.bot.unwrap(),
                discriminator: view.discriminator.unwrap(),
                name: view.name.unwrap(),
                public_flags: view.public_flags,
                banner: None,
                accent_colour: None,
                member: None,
            },
        )
    } else {
        None
    }
}

/// A partial record after a complete one was merged into it. An absent avatar
/// or absent badges in the complete record mean "no change".
pub open spec fn merged(view: PresenceUser, user: User) -> PresenceUser {
    PresenceUser {
        id: user.id,
        avatar: if user.avatar.is_some() {
            user.avatar
        } else {
            view.avatar
        },
        bot: Some(user.bot),
        discriminator: Some(user.discriminator),
        email: view.email,
        mfa_enabled: view.mfa_enabled,
        name: Some(user.name),
        verified: view.verified,
        public_flags: if user.public_flags.is_some() {
            user.public_flags
        } else {
            view.public_flags
        },
    }
}

impl PresenceUser {
    /// Decodes the record from its payload. Fails exactly where the
    /// discriminator is written and is not a number of sixteen bits in
    /// decimal digits.
    pub fn from_payload(payload: PresenceUserPayload) -> (view: Result<PresenceUser, DecodeError>)
        ensures
            view == presence_user_of(payload),
    {
        let discriminator = match &payload.discriminator {
            Some(text) => match decode_option(Some(text.as_str())) {
                Ok(d) => d,
                Err(e) => {
                    return Err(e);
                },
            },
            None => None,
        };
        Ok(
            PresenceUser {
                id: UserId(
                    match payload.id {
                        Some(id) => id,
                        None => 0,
                    },
                ),
                avatar: payload.avatar,
                bot: payload.bot,
                discriminator,
                email: payload.email,
                mfa_enabled: payload.mfa_enabled,
                name: payload.username,
                verified: payload.verified,
                public_flags: match payload.public_flags {
                    Some(bits) => Some(UserPublicFlags { bits }),
                    None => None,
                },
            },
        )
    }

    /// Encodes the record as its payload. An absent discriminator is left
    /// out; a present one is written as its digits, padded to four.
    pub fn into_payload(self) -> (payload: PresenceUserPayload)
        ensures
            is_payload_of(payload, self),
    {
        PresenceUserPayload {
            id: Some(self.id.0),
            avatar: self.avatar,
            bot: self.bot,
            discriminator: encode_option(self.discriminator),
            email: self.email,
            mfa_enabled: self.mfa_enabled,
            username: self.name,
            verified: self.verified,
            public_flags: match self.public_flags {
                Some(f) => Some(f.bits),
                None => None,
            },
        }
    }

    /// Narrows the record to a complete one. Gives `None` where the bot
    /// flag, the discriminator or the name is absent: the update did not
    /// carry enough, which is no error.
    #[must_use]
    pub fn into_user(self) -> (user: Option<User>)
        ensures
            user == narrowed(self),
            user.is_some() <==> is_complete(self),
    {
        let bot = match self.bot {
            Some(bot) => bot,
            None => {
                return None;
            },
        };
        let discriminator = match self.discriminator {
            Some(discriminator) => discriminator,
            None => {
                return None;
            },
        };
        let name = match self.name {
            Some(name) => name,
            None => {
                return None;
            },
        };
        Some(
            User {
                avatar: self.avatar,
                bot,
                discriminator,
                id: self.id,
                name,
                public_flags: self.public_flags,
                banner: None,
                accent_colour: None,
                member: None,
            },
        )
    }

    /// Narrows as `into_user` does and leaves the record in place: the
    /// fields are copied.
    #[must_use]
    pub fn to_user(&self) -> (user: Option<User>)
        ensures
            user == narrowed(*self),
            user.is_some() <==> is_complete(*self),
    {
        let bot = match self.bot {
            Some(bot) => bot,
            None => {
                return None;
            },
        };
        let discriminator = match self.discriminator {
            Some(discriminator) => discriminator,
            None => {
                return None;
            },
        };
        let name = match &self.name {
            Some(name) => name.clone(),
            None => {
                return None;
            },
        };
        let avatar = match &self.avatar {
            Some(avatar) => Some(avatar.clone()),
            None => None,
        };
        Some(
            User {
                avatar,
                bot,
                discriminator,
                id: self.id,
                name,
                public_flags: self.public_flags,
                banner: None,
                accent_colour: None,
                member: None,
            },
        )
    }

    /// Merges a complete record into this one. Identifier, bot flag,
    /// discriminator and name are taken over; avatar and badges only where
    /// the complete record has them; the other fields stay.
    pub fn update_with_user(&mut self, user: User)
        ensures
            *final(self) == merged(*old(self), user),
    {
        self.id = user.id;
        if let Some(avatar) = user.avatar {
            self.avatar = Some(avatar);
        }
        self.bot = Some(user.bot);
        self.discriminator = Some(user.discriminator);
        self.name = Some(user.name);
        if let Some(public_flags) = user.public_flags {
            self.public_flags = Some(public_flags);
        }
    }
}

impl Default for PresenceUser {
    /// The record of an update that carries no field.
    fn default() -> (view: PresenceUser)
        ensures
            view == (PresenceUser {
                id: UserId(0),
                avatar: None,
                bot: None,
                discriminator: None,
                email: None,
                mfa_enabled: None,
                name: None,
                verified: None,
                public_flags: None,
            }),
    {
        PresenceUser {
            id: UserId(0),
            avatar: None,
            bot: None,
            discriminator: None,
            email: None,
            mfa_enabled: None,
            name: None,
            verified: None,
            public_flags: None,
        }
    }
}

/// Merging a complete record makes the partial one complete: it then
/// narrows to a record with the identifier, bot flag, discriminator and name
/// of the one merged in.
pub proof fn lemma_merged_is_complete(view: PresenceUser, user: User)
    ensures
        is_complete(merged(view, user)),
        narrowed(merged(view, user)).unwrap().id == user.id,
        narrowed(merged(view, user)).unwrap().bot == user.bot,
        narrowed(merged(view, user)).unwrap().discriminator == user.discriminator,
        narrowed(merged(view, user)).unwrap().name == user.name,
{
}

/// An absent avatar in the complete record leaves the avatar of the partial
/// one as it was; a present one takes its place. The same holds of the
/// badges.
pub proof fn lemma_merge_keeps_what_is_absent(view: PresenceUser, user: User)
    ensures
        user.avatar.is_none() ==> merged(view, user).avatar == view.avatar,
        user.avatar.is_some() ==> merged(view, user).avatar == user.avatar,
        user.public_flags.is_none() ==> merged(view, user).public_flags == view.public_flags,
        user.public_flags.is_some() ==> merged(view, user).public_flags == user.public_flags,
        merged(view, user).email == view.email,
        merged(view, user).mfa_enabled == view.mfa_enabled,
        merged(view, user).verified == view.verified,
{
}

/// Merging the same complete record a second time changes nothing.
pub proof fn lemma_merge_twice(view: PresenceUser, user: User)
    ensures
        merged(merged(view, user), user) == merged(view, user),
{
}

/// A partial record that narrows, narrows to a record that merges back into
/// it without a change.
pub proof fn lemma_narrow_then_merge(view: PresenceUser)
    requires
        is_complete(view),
    ensures
        merged(view, narrowed(view).unwrap()) == view,
{
    let user = narrowed(view).unwrap();
    let back = merged(view, user);
    assert(back.avatar == view.avatar);
    assert(back.public_flags == view.public_flags);
    assert(back.bot == view.bot);
    assert(back.discriminator == view.discriminator);
    assert(back.name == view.name);
}

} // verus!
