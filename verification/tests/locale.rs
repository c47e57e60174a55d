use discors::locale::Locale::{self, Danish, Korean, Polish, Russian, Ukrainian};

#[test]
fn locale_eq() {
    assert_eq!(Russian, Russian);
    assert_ne!(Danish, Ukrainian);
    let x = Korean;
    assert_eq!(Korean, x);
}

#[test]
fn locale_serialize() {
    let mut my_struct = serde_json::Map::new();
    my_struct.insert(
        "locale".to_string(),
        serde_json::Value::from(Russian.code()),
    );
    assert_eq!(
        serde_json::ser::to_string(&my_struct).unwrap(),
        "{\"locale\":\"ru\"}"
    );
}

#[test]
fn locale_deserialize() {
    let korean = "{\"locale\":\"ko\"}";
    let value = serde_json::from_str::<serde_json::Value>(korean).unwrap();
    assert_eq!(
        Locale::from_code(value["locale"].as_str().unwrap()),
        Some(Korean)
    );
    let polish = "{
            \"locale\": \"pl\"
        }";
    let value = serde_json::from_str::<serde_json::Value>(polish).unwrap();
    assert_eq!(
        Locale::from_code(value["locale"].as_str().unwrap()).unwrap(),
        Polish
    );
}

#[test]
fn locale_codes() {
    let table: [(&str, Locale); 30] = [
        ("da", Locale::Danish),
        ("de", Locale::German),
        ("en-GB", Locale::EnglishUK),
        ("en-US", Locale::EnglishUS),
        ("es-ES", Locale::Spanish),
        ("fr", Locale::French),
        ("hr", Locale::Croatian),
        ("it", Locale::Italian),
        ("lt", Locale::Lithuanian),
        ("hu", Locale::Hungarian),
        ("nl", Locale::Dutch),
        ("no", Locale::Norwegian),
        ("pl", Locale::Polish),
        ("pt-BR", Locale::PortugueseBrazil),
        ("ro", Locale::Romanian),
        ("fi", Locale::Finnish),
        ("sv-SE", Locale::Swedish),
        ("vi", Locale::Vietnamese),
        ("tr", Locale::Turkish),
        ("cz", Locale::Czech),
        ("el", Locale::Greek),
        ("bg", Locale::Bulgarian),
        ("ru", Locale::Russian),
        ("uk", Locale::Ukrainian),
        ("hi", Locale::Hindi),
        ("th", Locale::Thai),
        ("zh-CN", Locale::ChineseChina),
        ("ja", Locale::Japanese),
        ("zh-TW", Locale::ChineseTaiwan),
        ("ko", Locale::Korean),
    ];
    for (code, locale) in table {
        assert_eq!(locale.code(), code);
        assert_eq!(Locale::from_code(code), Some(locale));
    }
}

#[test]
fn locale_unknown_codes() {
    for code in ["", "d", "DA", "en", "en-gb", "en-GB ", "xx", "zh", "zh-cn", "日本"] {
        assert_eq!(Locale::from_code(code), None);
    }
}
