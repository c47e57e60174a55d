use discors::error::{DecodeError, Error};
use discors::models::user::{User, Userflags};
use discors::snowflake::Snowflake;
use discors::utilities::serde::{
    decode_text_u32, decode_text_u64, deserialize_u32, deserialize_u64, serialize_u32,
    serialize_u64, WireValue, SAFE_INTEGER_LIMIT,
};

fn text(s: &str) -> WireValue {
    WireValue::Text(s.to_string())
}

#[test]
fn encode_small_number_is_native() {
    assert_eq!(serialize_u64(&42), WireValue::Number(42));
    assert_eq!(serialize_u64(&0), WireValue::Number(0));
}

#[test]
fn encode_at_the_limit_is_text() {
    assert_eq!(SAFE_INTEGER_LIMIT, 1u64 << 53);
    assert_eq!(
        serialize_u64(&9007199254740992),
        text("9007199254740992")
    );
    assert_eq!(
        serialize_u64(&9007199254740991),
        WireValue::Number(9007199254740991)
    );
    assert_eq!(serialize_u64(&u64::MAX), text("18446744073709551615"));
}

#[test]
fn encode_u32_is_always_native() {
    assert_eq!(serialize_u32(&0), WireValue::Number(0));
    assert_eq!(serialize_u32(&u32::MAX), WireValue::Number(4294967295));
}

#[test]
fn wire_round_trip_u64() {
    for value in [
        0u64,
        1,
        42,
        (1 << 53) - 1,
        1 << 53,
        (1 << 53) + 1,
        445556389532925952,
        u64::MAX - 1,
        u64::MAX,
    ] {
        assert_eq!(deserialize_u64(&serialize_u64(&value)), Ok(value));
    }
}

#[test]
fn wire_round_trip_u32() {
    for value in [0u32, 1, 2112, u32::MAX] {
        assert_eq!(deserialize_u32(&serialize_u32(&value)), Ok(value));
    }
}

#[test]
fn decode_accepts_both_forms() {
    assert_eq!(deserialize_u64(&WireValue::Number(2112)), Ok(2112));
    assert_eq!(deserialize_u64(&text("2112")), Ok(2112));
    assert_eq!(deserialize_u64(&text("0002112")), Ok(2112));
    assert_eq!(deserialize_u32(&WireValue::Number(2112)), Ok(2112));
    assert_eq!(deserialize_u32(&text("2112")), Ok(2112));
}

#[test]
fn decode_strips_one_layer_of_quotes() {
    assert_eq!(decode_text_u64("\"2112\""), Ok(2112));
    assert_eq!(
        decode_text_u64("\"18446744073709551615\""),
        Ok(u64::MAX)
    );
    assert_eq!(decode_text_u32("\"4294967295\""), Ok(u32::MAX));
    // one layer, not two
    assert_eq!(
        decode_text_u64("\"\"2112\"\""),
        Err(Error::Decode(DecodeError::InvalidText))
    );
    // both quotes, or none
    assert_eq!(
        decode_text_u64("\"2112"),
        Err(Error::Decode(DecodeError::InvalidText))
    );
    assert_eq!(
        decode_text_u64("2112\""),
        Err(Error::Decode(DecodeError::InvalidText))
    );
    assert_eq!(
        decode_text_u64("'2112'"),
        Err(Error::Decode(DecodeError::InvalidText))
    );
    assert_eq!(
        decode_text_u64("\"\""),
        Err(Error::Decode(DecodeError::InvalidText))
    );
    assert_eq!(
        decode_text_u64("\""),
        Err(Error::Decode(DecodeError::InvalidText))
    );
}

#[test]
fn decode_rejects_what_is_no_integer() {
    let invalid = Err(Error::Decode(DecodeError::InvalidText));
    assert_eq!(deserialize_u64(&text("")), invalid);
    assert_eq!(deserialize_u64(&text("abc")), invalid);
    assert_eq!(deserialize_u64(&text("-1")), invalid);
    assert_eq!(deserialize_u64(&text("1.5")), invalid);
    assert_eq!(deserialize_u64(&text("12 ")), invalid);
    assert_eq!(deserialize_u64(&text("١٢")), invalid);
    assert_eq!(deserialize_u64(&text("\"é\"")), invalid);
    assert_eq!(deserialize_u64(&text("18446744073709551616")), invalid);
    assert_eq!(deserialize_u64(&text("\"18446744073709551616\"")), invalid);
    assert_eq!(
        deserialize_u64(&WireValue::Other),
        Err(Error::Decode(DecodeError::WrongShape))
    );
    assert_eq!(
        deserialize_u32(&WireValue::Other),
        Err(Error::Decode(DecodeError::WrongShape))
    );
}

#[test]
fn decode_u32_checks_the_width() {
    assert_eq!(
        deserialize_u32(&WireValue::Number(4294967295)),
        Ok(u32::MAX)
    );
    assert_eq!(
        deserialize_u32(&WireValue::Number(4294967296)),
        Err(Error::Decode(DecodeError::OutOfRange))
    );
    assert_eq!(deserialize_u32(&text("4294967295")), Ok(u32::MAX));
    assert_eq!(
        deserialize_u32(&text("4294967296")),
        Err(Error::Decode(DecodeError::InvalidText))
    );
    assert_eq!(
        decode_text_u32("\"4294967296\""),
        Err(Error::Decode(DecodeError::InvalidText))
    );
}

#[test]
fn snowflake_wire_forms() {
    let id = Snowflake::<User>::new(445556389532925952);
    assert_eq!(id.serialize(), text("445556389532925952"));
    assert_eq!(Snowflake::<User>::deserialize(&id.serialize()), Ok(id));
    let small = Snowflake::<User>::new(42);
    assert_eq!(small.serialize(), WireValue::Number(42));
    assert_eq!(
        Snowflake::<User>::deserialize(&text("42")),
        Ok(small)
    );
    assert_eq!(
        Snowflake::<User>::deserialize(&WireValue::Other),
        Err(Error::Decode(DecodeError::WrongShape))
    );
}

#[test]
fn userflags_wire_forms() {
    let flags = Userflags::STAFF() | Userflags::VERIFIED_BOT();
    assert_eq!(flags.serialize(), WireValue::Number(65537));
    assert_eq!(Userflags::deserialize(&flags.serialize()), Ok(flags));
    assert_eq!(Userflags::deserialize(&text("65537")), Ok(flags));
    assert_eq!(
        Userflags::deserialize(&WireValue::Number(1 << 32)),
        Err(Error::Decode(DecodeError::OutOfRange))
    );
}

#[test]
fn errors_convert() {
    assert_eq!(
        Error::from(DecodeError::WrongShape),
        Error::Decode(DecodeError::WrongShape)
    );
    assert_eq!(
        Error::from(discors::error::ParseIntError::Empty),
        Error::ParseInt(discors::error::ParseIntError::Empty)
    );
}
