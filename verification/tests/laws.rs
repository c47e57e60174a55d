use discors::client::intents::Intents;
use discors::models::traits::BitFlag;
use discors::permissions::Permissions;

fn samples() -> [Permissions; 7] {
    [
        Permissions::EMPTY(),
        Permissions::ALL(),
        Permissions::new(0x840),
        Permissions::ADMINISTRATOR(),
        Permissions::new(1 << 63),
        Permissions::new(0xdead_beef_0000_ffff),
        Permissions::MODERATE_MEMBERS() | Permissions::KICK(),
    ]
}

#[test]
fn operators_commute() {
    for a in samples() {
        for b in samples() {
            assert_eq!(a | b, b | a);
            assert_eq!(a & b, b & a);
            assert_eq!(a ^ b, b ^ a);
        }
    }
}

#[test]
fn operators_associate() {
    for a in samples() {
        for b in samples() {
            for c in samples() {
                assert_eq!((a | b) | c, a | (b | c));
                assert_eq!((a & b) & c, a & (b & c));
                assert_eq!((a ^ b) ^ c, a ^ (b ^ c));
            }
        }
    }
}

#[test]
fn de_morgan() {
    for a in samples() {
        for b in samples() {
            assert_eq!(!(a | b), !a & !b);
            assert_eq!(!(a & b), !a | !b);
        }
    }
}

#[test]
fn includes_is_containment_of_bits() {
    for a in samples() {
        for b in samples() {
            let every_bit = (0..64).all(|i| (b.0 >> i) & 1 == 0 || (a.0 >> i) & 1 == 1);
            assert_eq!(a.includes(b), every_bit);
            let some_bit = (0..64).any(|i| (b.0 >> i) & 1 == 1 && (a.0 >> i) & 1 == 1);
            assert_eq!(a.includes_any(b), some_bit || b.0 == 0);
        }
    }
}

#[test]
fn empty_and_all() {
    let empty = Permissions::EMPTY();
    let all = Permissions::ALL();
    assert!(empty.includes(empty));
    assert!(empty.includes_any(empty));
    assert!(all.includes_any(empty));
    for x in samples() {
        assert!(all.includes(x));
        assert!(x.includes_any(empty));
        if x != empty {
            assert!(!empty.includes(x));
            assert!(!empty.includes_any(x));
        }
    }
}

#[test]
fn empty_query_is_always_included() {
    // asking for any flag out of none succeeds, on purpose
    assert!(Intents::EMPTY().includes_any(Intents::EMPTY()));
    assert!(Intents::ALL().includes_any(Intents::EMPTY()));
    assert!(Intents::GUILDS().includes_any(Intents::EMPTY()));
    assert!(!Intents::EMPTY().includes_any(Intents::GUILDS()));
    assert!(!Intents::EMPTY().includes_any(Intents::ALL()));
}
