use discors::client::intents::Intents;
use discors::models::traits::BitFlag;

#[test]
fn intents_value() {
    assert_eq!(Intents::EMPTY().0, 0);
    assert_eq!(Intents::GUILD_EMOJIS_AND_STICKERS().0, 1 << 3);
}

#[test]
fn bitor() {
    assert_eq!(
        Intents::GUILD_BANS() | Intents::GUILD_MEMBERS(),
        Intents::GUILD_MEMBERS() | Intents::GUILD_BANS()
    );

    assert_eq!(
        (Intents::DIRECT_MESSAGE_REACTIONS()
            | Intents::GUILD_SCHEDULED_EVENTS()
            | Intents::GUILD_BANS())
        .0,
        0b10010000000000100 // 1 << 13 | 1 << 16 | 1 << 2
    )
}

#[test]
fn special() {
    assert_eq!(Intents::privileged().0, 1 << 1 | 1 << 8);
    assert_eq!(
        Intents::non_privileged().0,
        !(u64::MAX & (1 << 1 | 1 << 8))
    );
    assert_eq!(
        Intents::privileged() | Intents::non_privileged(),
        Intents::ALL()
    );
}

#[test]
fn intents_table() {
    let table: [(Intents, u32); 19] = [
        (Intents::GUILDS(), 0),
        (Intents::GUILD_MEMBERS(), 1),
        (Intents::GUILD_BANS(), 2),
        (Intents::GUILD_EMOJIS_AND_STICKERS(), 3),
        (Intents::GUILD_INTEGRATIONS(), 4),
        (Intents::GUILD_WEBHOOKS(), 5),
        (Intents::GUILD_INVITES(), 6),
        (Intents::GUILD_VOICE_STATES(), 7),
        (Intents::GUILD_PRESENCES(), 8),
        (Intents::GUILD_MESSAGES(), 9),
        (Intents::GUILD_MESSAGE_REACTIONS(), 10),
        (Intents::GUILD_MESSAGE_TYPING(), 11),
        (Intents::DIRECT_MESSAGES(), 12),
        (Intents::DIRECT_MESSAGE_REACTIONS(), 13),
        (Intents::DIRECT_MESSAGE_TYPING(), 14),
        (Intents::MESSAGE_CONTENT(), 15),
        (Intents::GUILD_SCHEDULED_EVENTS(), 16),
        (Intents::AUTO_MODERATION_CONFIGURATION(), 20),
        (Intents::AUTO_MODERATION_EXECUTION(), 21),
    ];
    for (intent, position) in table {
        assert_eq!(intent.0, 1u64 << position);
    }
}

#[test]
fn intents_privileged_partition() {
    assert_eq!(
        Intents::privileged() & Intents::non_privileged(),
        Intents::EMPTY()
    );
    assert_eq!(
        Intents::privileged(),
        Intents::GUILD_MEMBERS() | Intents::GUILD_PRESENCES()
    );
    assert_eq!(Intents::default(), Intents::non_privileged());
    assert!(!Intents::default().includes(Intents::GUILD_MEMBERS()));
    assert!(Intents::default().includes(Intents::MESSAGE_CONTENT()));
}

#[test]
fn intents_operators() {
    let a = Intents::new(0b1100);
    let b = Intents::new(0b1010);
    assert_eq!((a | b).0, 0b1110);
    assert_eq!((a & b).0, 0b1000);
    assert_eq!((a ^ b).0, 0b0110);
    assert_eq!((!a).0, !0b1100u64);
    let mut c = a;
    c |= b;
    assert_eq!(c.0, 0b1110);
    let mut c = a;
    c &= b;
    assert_eq!(c.0, 0b1000);
    let mut c = a;
    c ^= b;
    assert_eq!(c.0, 0b0110);
    assert_eq!(Intents::from(12u64), a);
    assert_eq!(u64::from(b), 10);
}

#[test]
fn intents_not_complements_reserved_bits() {
    let flipped = !Intents::GUILDS();
    assert_eq!(flipped.0, u64::MAX - 1);
    assert!(flipped.includes(Intents::new(1 << 63)));
}

#[test]
fn intents_order_by_mask() {
    assert!(Intents::GUILDS() < Intents::GUILD_MEMBERS());
    assert!(Intents::ALL() > Intents::non_privileged());
    assert!(Intents::EMPTY() <= Intents::EMPTY());
    assert_eq!(
        Intents::new(3).partial_cmp(&Intents::new(3)),
        Some(std::cmp::Ordering::Equal)
    );
    assert_eq!(
        Intents::new(2).partial_cmp(&Intents::new(3)),
        Some(std::cmp::Ordering::Less)
    );
    assert_eq!(
        Intents::new(4).partial_cmp(&Intents::new(3)),
        Some(std::cmp::Ordering::Greater)
    );
    let mut sets = [Intents::new(5), Intents::new(1), Intents::new(3)];
    sets.sort();
    assert_eq!(sets, [Intents::new(1), Intents::new(3), Intents::new(5)]);
}
