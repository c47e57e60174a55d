use discors::models::traits::BitFlag;
use discors::permissions::{PermissionInteger, Permissions};
use discors::utilities::serde::WireValue;

fn all() -> Permissions {
    Permissions::ALL()
}

fn empty() -> Permissions {
    Permissions::EMPTY()
}

// example from the API documentation (Send Messages (0x800) and Add Reactions (0x40))
fn my_perms() -> Permissions {
    Permissions::new(0x40 | 0x800)
}

fn to_wire(value: &serde_json::Value) -> WireValue {
    if let Some(n) = value.as_u64() {
        WireValue::Number(n)
    } else if let Some(text) = value.as_str() {
        WireValue::Text(text.to_string())
    } else {
        WireValue::Other
    }
}

fn from_wire(wire: WireValue) -> serde_json::Value {
    match wire {
        WireValue::Number(n) => serde_json::Value::from(n),
        WireValue::Text(text) => serde_json::Value::from(text),
        WireValue::Other => serde_json::Value::Null,
    }
}

#[test]
fn permissions_value() {
    assert_eq!(all().0, PermissionInteger::MAX);
    assert_eq!(empty().0, 0);
    assert_eq!(my_perms().0, 0x840);
}

#[test]
fn includes() {
    // all has anything
    assert!(all().includes(Permissions::REACT()));
    assert!(all().includes(Permissions::SEND_MESSAGES() | Permissions::CREATE_PUBLIC_THREADS()));

    // empty has nothing
    assert!(!empty().includes(Permissions::BAN_MEMBERS()));
    // except nothing
    assert!(empty().includes(Permissions::EMPTY()));

    // my_perms has send messages
    assert!(my_perms().includes(Permissions::SEND_MESSAGES()));
    // and reactions
    assert!(my_perms().includes(Permissions::ADD_REACTIONS()));

    // but not admin
    assert!(!my_perms().includes(Permissions::ADMINISTRATOR()));
}

#[test]
fn includes_any() {
    // all has anything
    assert!(all().includes_any(Permissions::REACT()));
    assert!(all().includes_any(Permissions::SEND_MESSAGES() | Permissions::CREATE_PUBLIC_THREADS()));

    // empty has nothing, out of everything
    assert!(!empty().includes_any(Permissions::ALL()));
    // except nothing
    assert!(empty().includes_any(Permissions::EMPTY()));

    // my_perms has send messages
    assert!(my_perms().includes_any(Permissions::SEND_MESSAGES() | Permissions::BAN_MEMBERS()));
    // and reactions
    assert!(my_perms().includes_any(Permissions::ADMINISTRATOR() | Permissions::ADD_REACTIONS()));
    // and any of all permissions
    assert!(my_perms().includes_any(Permissions::ALL()));

    // but not admin or change nickname
    assert!(!my_perms().includes_any(Permissions::ADMINISTRATOR() | Permissions::CHANGE_NICKNAME()));
}

#[test]
fn from() {
    assert_eq!(Permissions::new(0x804), 0x804.into());
    assert_eq!(Permissions::from(0x840), my_perms());
    assert_eq!(PermissionInteger::from(my_perms()), 0x840);
}

#[test]
fn permissions_deserialize() {
    let value: serde_json::Value = serde_json::from_str("2112").unwrap();
    let perms = Permissions::deserialize(&to_wire(&value)).unwrap();
    let value2: serde_json::Value =
        serde_json::from_str(&format!("\"{}\"", u64::MAX)).unwrap();
    let perms2 = Permissions::deserialize(&to_wire(&value2)).unwrap();
    assert_eq!(perms, my_perms());
    assert_eq!(perms2, all());
}

#[test]
fn permissions_serialize() {
    let perms = serde_json::to_string(&from_wire(my_perms().serialize())).unwrap();
    assert_eq!(perms, "2112");
    let perms2 = serde_json::to_string(&from_wire(all().serialize())).unwrap();
    assert_eq!(perms2, format!("\"{}\"", u64::MAX));
}

#[test]
fn permissions_table() {
    let table: [(Permissions, u32); 41] = [
        (Permissions::CREATE_INSTANT_INVITE(), 0),
        (Permissions::KICK_MEMBERS(), 1),
        (Permissions::BAN_MEMBERS(), 2),
        (Permissions::ADMINISTRATOR(), 3),
        (Permissions::MANAGE_CHANNELS(), 4),
        (Permissions::MANAGE_GUILD(), 5),
        (Permissions::ADD_REACTIONS(), 6),
        (Permissions::VIEW_AUDIT_LOG(), 7),
        (Permissions::PRIORITY_SPEAKER(), 8),
        (Permissions::STREAM(), 9),
        (Permissions::VIEW_CHANNEL(), 10),
        (Permissions::SEND_MESSAGES(), 11),
        (Permissions::SEND_TTS_MESSAGES(), 12),
        (Permissions::MANAGE_MESSAGES(), 13),
        (Permissions::EMBED_LINKS(), 14),
        (Permissions::ATTACH_FILES(), 15),
        (Permissions::READ_MESSAGE_HISTORY(), 16),
        (Permissions::MENTION_EVERYONE(), 17),
        (Permissions::USE_EXTERNAL_EMOJIS(), 18),
        (Permissions::VIEW_GUILD_INSIGHTS(), 19),
        (Permissions::CONNECT(), 20),
        (Permissions::SPEAK(), 21),
        (Permissions::MUTE_MEMBERS(), 22),
        (Permissions::DEAFEN_MEMBERS(), 23),
        (Permissions::MOVE_MEMBERS(), 24),
        (Permissions::USE_VAD(), 25),
        (Permissions::CHANGE_NICKNAME(), 26),
        (Permissions::MANAGE_NICKNAMES(), 27),
        (Permissions::MANAGE_ROLES(), 28),
        (Permissions::MANAGE_WEBHOOKS(), 29),
        (Permissions::MANAGE_EMOJIS_AND_STICKERS(), 30),
        (Permissions::USE_APPLICATION_COMMANDS(), 31),
        (Permissions::REQUEST_TO_SPEAK(), 32),
        (Permissions::MANAGE_EVENTS(), 33),
        (Permissions::MANAGE_THREADS(), 34),
        (Permissions::CREATE_PUBLIC_THREADS(), 35),
        (Permissions::CREATE_PRIVATE_THREADS(), 36),
        (Permissions::USE_EXTERNAL_STICKERS(), 37),
        (Permissions::SEND_MESSAGES_IN_THREADS(), 38),
        (Permissions::USE_EMBEDDED_ACTIVITIES(), 39),
        (Permissions::MODERATE_MEMBERS(), 40),
    ];
    for (permission, position) in table {
        assert_eq!(permission.0, 1u64 << position);
    }
}

#[test]
fn permissions_aliases() {
    let aliases: [(Permissions, Permissions); 30] = [
        (Permissions::CREATE_INVITE(), Permissions::CREATE_INSTANT_INVITE()),
        (Permissions::INVITE(), Permissions::CREATE_INSTANT_INVITE()),
        (Permissions::KICK(), Permissions::KICK_MEMBERS()),
        (Permissions::BAN(), Permissions::BAN_MEMBERS()),
        (Permissions::ADMIN(), Permissions::ADMINISTRATOR()),
        (Permissions::EDIT_CHANNELS(), Permissions::MANAGE_CHANNELS()),
        (Permissions::MANAGE_SERVER(), Permissions::MANAGE_GUILD()),
        (Permissions::REACT(), Permissions::ADD_REACTIONS()),
        (Permissions::AUDIT_LOG(), Permissions::VIEW_AUDIT_LOG()),
        (Permissions::VIDEO(), Permissions::STREAM()),
        (Permissions::READ_MESSAGES(), Permissions::VIEW_CHANNEL()),
        (Permissions::SHOW_GIFS(), Permissions::EMBED_LINKS()),
        (Permissions::FILES(), Permissions::ATTACH_FILES()),
        (Permissions::MESSAGE_HISTORY(), Permissions::READ_MESSAGE_HISTORY()),
        (Permissions::MENTION_ALL_ROLES(), Permissions::MENTION_EVERYONE()),
        (Permissions::EXTERNAL_EMOJIS(), Permissions::USE_EXTERNAL_EMOJIS()),
        (Permissions::VIEW_SERVER_INSIGHTS(), Permissions::VIEW_GUILD_INSIGHTS()),
        (Permissions::GUILD_INSIGHTS(), Permissions::VIEW_GUILD_INSIGHTS()),
        (Permissions::SERVER_INSIGHTS(), Permissions::VIEW_GUILD_INSIGHTS()),
        (Permissions::JOIN_VOICE(), Permissions::CONNECT()),
        (Permissions::VOICE_ACTIVITY(), Permissions::USE_VAD()),
        (Permissions::MANAGE_EMOJIS(), Permissions::MANAGE_EMOJIS_AND_STICKERS()),
        (Permissions::USE_COMMANDS(), Permissions::USE_APPLICATION_COMMANDS()),
        (Permissions::EXTERNAL_STICKERS(), Permissions::USE_EXTERNAL_STICKERS()),
        (Permissions::USE_ACTIVITIES(), Permissions::USE_EMBEDDED_ACTIVITIES()),
        (Permissions::ACTIVITIES(), Permissions::USE_EMBEDDED_ACTIVITIES()),
        (Permissions::TIMEOUT_MEMBERS(), Permissions::MODERATE_MEMBERS()),
        (Permissions::new(0x802), Permissions::SEND_MESSAGES() | Permissions::KICK_MEMBERS()),
        (Permissions::default(), Permissions::EMPTY()),
        (Permissions::ALL(), !Permissions::EMPTY()),
    ];
    for (alias, name) in aliases {
        assert_eq!(alias, name);
    }
}
