use std::collections::HashMap;

use gateway_model::activity::ActivityPayload;
use gateway_model::error::DecodeError;
use gateway_model::ids::ApplicationId;
use gateway_model::ids::ChannelId;
use gateway_model::ids::GuildId;
use gateway_model::ids::UserId;
use gateway_model::keyed::decode_keyed;
use gateway_model::keyed::decode_keyed_field;
use gateway_model::keyed::encode_keyed;
use gateway_model::keyed::Keyed;
use gateway_model::kind::ActivityType;
use gateway_model::presence::decode_activities;
use gateway_model::presence::ClientStatus;
use gateway_model::presence::OnlineStatus;
use gateway_model::presence::Presence;
use gateway_model::presence::PresencePayload;
use gateway_model::ready::decode_presences;
use gateway_model::ready::Channel;
use gateway_model::ready::PartialCurrentApplicationInfo;
use gateway_model::ready::Ready;
use gateway_model::ready::ReadyPayload;
use gateway_model::ready::UnavailableGuild;
use gateway_model::user::CurrentUser;
use gateway_model::user::PresenceUser;
use gateway_model::user::PresenceUserPayload;
use gateway_model::user::User;

fn presence(id: u64, status: OnlineStatus) -> Presence {
    let mut user = PresenceUser::default();
    user.id = UserId(id);
    Presence { activities: vec![], client_status: None, guild_id: None, status, user }
}

fn user_payload(id: u64) -> PresenceUserPayload {
    PresenceUserPayload {
        id: Some(id),
        avatar: None,
        bot: None,
        discriminator: None,
        email: None,
        mfa_enabled: None,
        username: None,
        verified: None,
        public_flags: None,
    }
}

fn presence_payload(id: u64, status: OnlineStatus) -> PresencePayload {
    PresencePayload {
        activities: None,
        client_status: None,
        guild_id: None,
        status: Some(status),
        user: Some(user_payload(id)),
    }
}

fn activity_payload(name: Option<&str>, kind: Option<u64>) -> ActivityPayload {
    ActivityPayload {
        application_id: None,
        assets: None,
        details: None,
        flags: None,
        instance: None,
        kind,
        name: name.map(String::from),
        party: None,
        secrets: None,
        state: None,
        emoji: None,
        timestamps: None,
        url: None,
        buttons: None,
    }
}

fn channel(id: u64, last: Option<u64>) -> Channel {
    Channel {
        id: ChannelId(id),
        last_message_id: last,
        recipient: User {
            id: UserId(1),
            avatar: None,
            bot: false,
            discriminator: 1,
            name: String::from("friend"),
            public_flags: None,
            banner: None,
            accent_colour: None,
            member: None,
        },
    }
}

fn current_user() -> CurrentUser {
    CurrentUser {
        id: UserId(99),
        avatar: None,
        bot: true,
        discriminator: 1234,
        email: None,
        mfa_enabled: false,
        name: String::from("bot"),
        verified: Some(true),
        public_flags: None,
    }
}

fn bootstrap() -> ReadyPayload {
    ReadyPayload {
        application: Some(PartialCurrentApplicationInfo { id: ApplicationId(5), flags: 0 }),
        guilds: Some(vec![]),
        presences: Some(vec![]),
        private_channels: Some(vec![]),
        session_id: Some(String::from("abcdef")),
        shard: Some([0, 1]),
        trace: Some(vec![String::from("gateway-1")]),
        user: Some(current_user()),
        version: Some(10),
    }
}

#[test]
fn list_with_a_repeated_identifier_keeps_the_last_occurrence() {
    let list = vec![
        presence(7, OnlineStatus::Online),
        presence(3, OnlineStatus::Idle),
        presence(7, OnlineStatus::DoNotDisturb),
    ];
    let map = decode_keyed(list);
    assert_eq!(map.len(), 2);
    assert_eq!(map[&7].status, OnlineStatus::DoNotDisturb);
    assert_eq!(map[&7].user.id, UserId(7));
    assert_eq!(map[&3].status, OnlineStatus::Idle);
}

#[test]
fn list_without_repeats_is_filed_item_by_item() {
    let map = decode_keyed(vec![channel(10, Some(1)), channel(20, None), channel(30, Some(3))]);
    assert_eq!(map.len(), 3);
    assert_eq!(map[&10].last_message_id, Some(1));
    assert_eq!(map[&20].last_message_id, None);
    assert_eq!(map[&30].last_message_id, Some(3));
    assert_eq!(map[&20].key(), 20);
    assert!(!map.contains_key(&0));
}

#[test]
fn absent_and_empty_lists_are_empty_mappings() {
    let none: HashMap<u64, Presence> = decode_keyed_field(None);
    assert!(none.is_empty());
    let empty: HashMap<u64, Presence> = decode_keyed_field(Some(vec![]));
    assert!(empty.is_empty());
    let empty: HashMap<u64, Channel> = decode_keyed(vec![]);
    assert!(empty.is_empty());
    let one = decode_keyed_field(Some(vec![channel(4, None)]));
    assert_eq!(one.len(), 1);
    assert_eq!(one[&4].id, ChannelId(4));
}

#[test]
fn mapping_is_written_out_with_each_value_once() {
    let map = decode_keyed(vec![channel(10, Some(1)), channel(20, None), channel(30, Some(3))]);
    let list = encode_keyed(map);
    assert_eq!(list.len(), 3);
    let mut ids: Vec<u64> = list.iter().map(|c| c.id.0).collect();
    ids.sort();
    assert_eq!(ids, vec![10, 20, 30]);
    let none: Vec<Channel> = encode_keyed(HashMap::new());
    assert!(none.is_empty());
}

#[test]
fn mapping_survives_being_written_out_and_read_back() {
    let map = decode_keyed(vec![
        presence(7, OnlineStatus::Online),
        presence(3, OnlineStatus::Idle),
        presence(7, OnlineStatus::Offline),
        presence(u64::MAX, OnlineStatus::Invisible),
    ]);
    let back = decode_keyed(encode_keyed(map.clone()));
    assert_eq!(back.len(), 3);
    for (id, presence) in map.iter() {
        assert_eq!(back[id].status, presence.status);
        assert_eq!(back[id].user.id, presence.user.id);
    }
}

#[test]
fn values_are_written_out_under_whatever_key_they_stand() {
    let mut map: HashMap<u64, Channel> = HashMap::new();
    map.insert(1, channel(100, None));
    map.insert(2, channel(100, Some(5)));
    let list = encode_keyed(map);
    assert_eq!(list.len(), 2);
    assert!(list.iter().all(|c| c.id == ChannelId(100)));
    assert_eq!(list.iter().filter(|c| c.last_message_id == Some(5)).count(), 1);
}

#[test]
fn bootstrap_with_empty_lists_has_empty_mappings() {
    let ready = Ready::from_payload(bootstrap()).unwrap();
    assert!(ready.presences.is_empty());
    assert!(ready.private_channels.is_empty());
    assert!(ready.guilds.is_empty());
    assert_eq!(ready.version, 10);
    assert_eq!(ready.session_id, "abcdef");
    assert_eq!(ready.user.id, UserId(99));
    assert_eq!(ready.user.name, "bot");
    assert_eq!(ready.user.discriminator, 1234);
    assert!(ready.user.bot);
    assert_eq!(ready.application.id, ApplicationId(5));
    assert_eq!(ready.shard, Some([0, 1]));
    assert_eq!(ready.trace, vec![String::from("gateway-1")]);
}

#[test]
fn bootstrap_without_lists_has_empty_mappings() {
    let mut payload = bootstrap();
    payload.presences = None;
    payload.private_channels = None;
    payload.trace = None;
    payload.shard = None;
    let ready = Ready::from_payload(payload).unwrap();
    assert!(ready.presences.is_empty());
    assert!(ready.private_channels.is_empty());
    assert!(ready.trace.is_empty());
    assert!(ready.shard.is_none());
}

#[test]
fn bootstrap_files_presences_and_channels_by_identifier() {
    let mut payload = bootstrap();
    payload.guilds = Some(vec![UnavailableGuild { id: GuildId(1), unavailable: true }]);
    payload.presences = Some(vec![
        presence_payload(7, OnlineStatus::Online),
        presence_payload(3, OnlineStatus::Idle),
        presence_payload(7, OnlineStatus::Offline),
    ]);
    payload.private_channels = Some(vec![channel(50, None), channel(50, Some(2)), channel(60, None)]);
    let ready = Ready::from_payload(payload).unwrap();
    assert_eq!(ready.guilds.len(), 1);
    assert_eq!(ready.guilds[0].id, GuildId(1));
    assert_eq!(ready.presences.len(), 2);
    assert_eq!(ready.presences[&7].status, OnlineStatus::Offline);
    assert_eq!(ready.presences[&3].status, OnlineStatus::Idle);
    assert_eq!(ready.private_channels.len(), 2);
    assert_eq!(ready.private_channels[&50].last_message_id, Some(2));
    assert_eq!(ready.private_channels[&60].id, ChannelId(60));
}

#[test]
fn bootstrap_without_a_required_field_fails() {
    let mut payload = bootstrap();
    payload.application = None;
    assert_eq!(Ready::from_payload(payload).err(), Some(DecodeError::MissingRequiredField));
    let mut payload = bootstrap();
    payload.guilds = None;
    assert_eq!(Ready::from_payload(payload).err(), Some(DecodeError::MissingRequiredField));
    let mut payload = bootstrap();
    payload.session_id = None;
    assert_eq!(Ready::from_payload(payload).err(), Some(DecodeError::MissingRequiredField));
    let mut payload = bootstrap();
    payload.user = None;
    assert_eq!(Ready::from_payload(payload).err(), Some(DecodeError::MissingRequiredField));
    let mut payload = bootstrap();
    payload.version = None;
    assert_eq!(Ready::from_payload(payload).err(), Some(DecodeError::MissingRequiredField));
}

#[test]
fn bootstrap_fails_as_its_first_failing_presence() {
    let mut bad = presence_payload(3, OnlineStatus::Idle);
    bad.user.as_mut().unwrap().discriminator = Some(String::from("oops"));
    let mut lacking = presence_payload(4, OnlineStatus::Idle);
    lacking.status = None;
    let mut payload = bootstrap();
    payload.presences = Some(vec![presence_payload(7, OnlineStatus::Online), bad, lacking]);
    assert_eq!(Ready::from_payload(payload).err(), Some(DecodeError::WrongShape));
}

#[test]
fn presence_needs_status_and_user() {
    let mut payload = presence_payload(1, OnlineStatus::Online);
    payload.status = None;
    assert_eq!(Presence::from_payload(payload).err(), Some(DecodeError::MissingRequiredField));
    let mut payload = presence_payload(1, OnlineStatus::Online);
    payload.user = None;
    assert_eq!(Presence::from_payload(payload).err(), Some(DecodeError::MissingRequiredField));
}

#[test]
fn presence_decodes_its_fields() {
    let mut payload = presence_payload(12, OnlineStatus::DoNotDisturb);
    payload.guild_id = Some(77);
    payload.client_status =
        Some(ClientStatus { desktop: Some(OnlineStatus::Online), mobile: None, web: None });
    payload.activities =
        Some(vec![activity_payload(Some("chess"), None), activity_payload(Some("tv"), Some(3))]);
    let presence = Presence::from_payload(payload).unwrap();
    assert_eq!(presence.key(), 12);
    assert_eq!(presence.user.id, UserId(12));
    assert_eq!(presence.status, OnlineStatus::DoNotDisturb);
    assert_eq!(presence.guild_id, Some(GuildId(77)));
    assert_eq!(presence.client_status.as_ref().and_then(|c| c.desktop), Some(OnlineStatus::Online));
    assert_eq!(presence.client_status.as_ref().and_then(|c| c.web), None);
    assert_eq!(presence.activities.len(), 2);
    assert_eq!(presence.activities[0].name, "chess");
    assert_eq!(presence.activities[0].kind, ActivityType::Playing);
    assert_eq!(presence.activities[1].name, "tv");
    assert_eq!(presence.activities[1].kind, ActivityType::Watching);
}

#[test]
fn presence_without_activities_has_none() {
    let presence = Presence::from_payload(presence_payload(1, OnlineStatus::Online)).unwrap();
    assert!(presence.activities.is_empty());
    assert!(presence.client_status.is_none());
    assert!(presence.guild_id.is_none());
}

#[test]
fn presence_fails_as_its_user_or_its_first_failing_activity() {
    let mut payload = presence_payload(1, OnlineStatus::Online);
    payload.user.as_mut().unwrap().discriminator = Some(String::from("x"));
    payload.activities = Some(vec![activity_payload(None, None)]);
    assert_eq!(Presence::from_payload(payload).err(), Some(DecodeError::WrongShape));
    let mut payload = presence_payload(1, OnlineStatus::Online);
    payload.activities = Some(vec![activity_payload(Some("fine"), None), activity_payload(None, None)]);
    assert_eq!(Presence::from_payload(payload).err(), Some(DecodeError::MissingRequiredField));
}

#[test]
fn lists_decode_in_order_or_fail_at_the_first_failure() {
    let activities = decode_activities(vec![
        activity_payload(Some("a"), Some(0)),
        activity_payload(Some("b"), Some(5)),
        activity_payload(Some("c"), Some(6)),
    ])
    .unwrap();
    let names: Vec<&str> = activities.iter().map(|a| a.name.as_str()).collect();
    assert_eq!(names, vec!["a", "b", "c"]);
    assert_eq!(activities[2].kind, ActivityType::Unknown);
    assert!(decode_activities(vec![]).unwrap().is_empty());
    let presences = decode_presences(vec![
        presence_payload(2, OnlineStatus::Online),
        presence_payload(1, OnlineStatus::Idle),
        presence_payload(2, OnlineStatus::Offline),
    ])
    .unwrap();
    let ids: Vec<u64> = presences.iter().map(|p| p.user.id.0).collect();
    assert_eq!(ids, vec![2, 1, 2]);
    let mut lacking = presence_payload(4, OnlineStatus::Idle);
    lacking.user = None;
    assert_eq!(
        decode_presences(vec![presence_payload(2, OnlineStatus::Online), lacking]).err(),
        Some(DecodeError::MissingRequiredField)
    );
}

#[test]
fn failures_say_what_went_wrong() {
    assert_eq!(DecodeError::WrongShape.message(), "value has none of the accepted shapes");
    assert_eq!(DecodeError::MissingRequiredField.message(), "required field is absent");
}
