use discors::timestamp::Timestamp;

#[test]
fn timestamp_units() {
    assert_eq!(Timestamp::new(1526299321302).to_unix_millis(), 1526299321302);
    assert_eq!(Timestamp::new(1526299321302).to_unix_seconds(), 1526299321);
    assert_eq!(Timestamp::new(999).to_unix_seconds(), 0);
    assert_eq!(Timestamp::new(1000).to_unix_seconds(), 1);
    assert_eq!(Timestamp::from_unix_secs(1420070400).to_unix_millis(), 1420070400000);
    assert_eq!(Timestamp::from_unix_secs(0), Timestamp::new(0));
    assert_eq!(
        Timestamp::from_unix_secs(u64::MAX / 1000).to_unix_millis(),
        18446744073709551000
    );
}

#[test]
fn timestamp_order() {
    assert!(Timestamp::new(1) < Timestamp::new(2));
    assert_eq!(Timestamp::new(5), Timestamp::new(5));
    assert_ne!(Timestamp::new(5), Timestamp::new(6));
}
