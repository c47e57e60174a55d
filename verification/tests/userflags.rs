use discors::models::traits::BitFlag;
use discors::models::user::{NitroSubscription, Userflags};
use discors::presence::{ActivityAssets, ActivityTimestamps, Status};

#[test]
fn userflags_table() {
    let table: [(Userflags, u32); 14] = [
        (Userflags::STAFF(), 0),
        (Userflags::PARTNER(), 1),
        (Userflags::HYPESQUAD(), 2),
        (Userflags::BUG_HUNTER_LEVEL_1(), 3),
        (Userflags::HYPESQUAD_ONLINE_HOUSE_1(), 6),
        (Userflags::HYPESQUAD_ONLINE_HOUSE_2(), 7),
        (Userflags::HYPESQUAD_ONLINE_HOUSE_3(), 8),
        (Userflags::PREMIUM_EARLY_SUPPORTER(), 9),
        (Userflags::TEAM_PSEUDO_USER(), 10),
        (Userflags::BUG_HUNTER_LEVEL_2(), 14),
        (Userflags::VERIFIED_BOT(), 16),
        (Userflags::VERIFIED_DEVELOPER(), 17),
        (Userflags::CERTIFIED_MODERATOR(), 18),
        (Userflags::BOT_HTTP_INTERACTIONS(), 19),
    ];
    for (flag, position) in table {
        assert_eq!(flag.0, 1u32 << position);
    }
    assert_eq!(Userflags::EMPTY().0, 0);
    assert_eq!(Userflags::HYPESQUAD_BRAVERY(), Userflags::HYPESQUAD_ONLINE_HOUSE_1());
    assert_eq!(Userflags::HYPESQUAD_BRILLIANCE(), Userflags::HYPESQUAD_ONLINE_HOUSE_2());
    assert_eq!(Userflags::HYPESQUAD_BALANCE(), Userflags::HYPESQUAD_ONLINE_HOUSE_3());
    assert_eq!(Userflags::EARLY_SUPPORTER(), Userflags::PREMIUM_EARLY_SUPPORTER());
}

#[test]
fn userflags_queries() {
    let flags = Userflags::STAFF() | Userflags::PARTNER();
    assert!(flags.includes(Userflags::STAFF()));
    assert!(flags.includes(Userflags::EMPTY()));
    assert!(!flags.includes(Userflags::STAFF() | Userflags::HYPESQUAD()));
    assert!(flags.includes_any(Userflags::STAFF() | Userflags::HYPESQUAD()));
    assert!(flags.includes_any(Userflags::EMPTY()));
    assert!(!flags.includes_any(Userflags::HYPESQUAD()));
    assert!(!Userflags::EMPTY().includes_any(flags));
    assert!(Userflags::EMPTY().includes_any(Userflags::EMPTY()));
    assert!((!Userflags::EMPTY()).includes(Userflags(u32::MAX)));
}

#[test]
fn userflags_operators() {
    let a = Userflags(0b1100);
    let b = Userflags(0b1010);
    assert_eq!((a | b).0, 0b1110);
    assert_eq!((a & b).0, 0b1000);
    assert_eq!((a ^ b).0, 0b0110);
    assert_eq!((!a).0, !0b1100u32);
    let mut c = a;
    c |= b;
    c &= Userflags(0b0110);
    c ^= Userflags(0b0001);
    assert_eq!(c.0, 0b0111);
    assert_eq!(Userflags::from(5u32), Userflags(5));
    assert_eq!(u32::from(Userflags(5)), 5);
}

#[test]
fn plain_models() {
    assert_ne!(NitroSubscription::NoSubscription, NitroSubscription::Nitro);
    assert_eq!(NitroSubscription::NoSubscription.value(), 0);
    assert_eq!(NitroSubscription::Classic.value(), 1);
    assert_eq!(NitroSubscription::Nitro.value(), 2);
    assert!(matches!(Status::DND(), Status::DoNotDisturb));
    assert!(matches!(Status::Invlisible(), Status::Offline));
    assert!(ActivityTimestamps::default().start.is_none());
    assert!(ActivityAssets::default().large_image.is_none());
    assert_eq!(discors::API_VERSION, 10);
    assert_eq!(discors::BASE_URL, "https://discordapp.com/api/v10");
}
