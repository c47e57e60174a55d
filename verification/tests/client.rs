use discors::client::intents::Intents;
use discors::client::state::{Build, Starting};
use discors::client::transport::{authorization, transport_builder};
use discors::client::Client;
use discors::error::Error;

#[test]
fn start_without_token_fails() {
    let client = Client::<Build>::new();
    match client.start() {
        Err(Error::ConfigurationError(message)) => {
            assert_eq!(message, "No token was set.");
            assert!(message.contains("token"));
        }
        other => panic!("expected a configuration error, got {:?}", other),
    }
    match Build::default().start() {
        Err(Error::ConfigurationError(message)) => assert_eq!(message, "No token was set."),
        other => panic!("expected a configuration error, got {:?}", other),
    }
}

#[test]
fn start_with_token_succeeds() {
    let mut client = Client::<Build>::new();
    client.token("abc".to_string());
    let started = client.start().unwrap();
    assert_eq!(started.state().token, "abc");
    assert_eq!(started.state().intents, Intents::non_privileged());
}

#[test]
fn default_intents_are_the_non_privileged() {
    let client = Client::<Build>::new();
    assert_eq!(client.state().intents, Intents::non_privileged());
    assert!(client.state().token.is_none());
    let client = Client::<Build>::default();
    assert_eq!(client.state().intents, Intents::non_privileged());
    assert!(client.state().token.is_none());
    let build = Build::default();
    assert_eq!(build.intents, Intents::non_privileged());
    assert!(build.token.is_none());
}

#[test]
fn setters_chain() {
    let mut client = Client::<Build>::new();
    client
        .token("first".to_string())
        .intents(Intents::EMPTY())
        .intent(Intents::GUILDS())
        .intent(Intents::GUILD_MESSAGES())
        .token("second".to_string());
    assert_eq!(client.state().token.as_deref(), Some("second"));
    assert_eq!(
        client.state().intents,
        Intents::GUILDS() | Intents::GUILD_MESSAGES()
    );
    let started = client.start().unwrap();
    assert_eq!(started.state().token, "second");
    assert_eq!(started.state().intents.0, 1 | 1 << 9);
}

#[test]
fn intent_adds_to_the_default() {
    let mut client = Client::<Build>::new();
    client.intent(Intents::GUILD_MEMBERS());
    assert_eq!(
        client.state().intents,
        Intents::non_privileged() | Intents::GUILD_MEMBERS()
    );
    client.intents(Intents::GUILD_PRESENCES());
    assert_eq!(client.state().intents, Intents::GUILD_PRESENCES());
}

#[test]
fn build_setters() {
    let mut build = Build::default();
    build
        .token("t".to_string())
        .intents(Intents::new(0b100))
        .intent(Intents::new(0b001));
    assert_eq!(build.token.as_deref(), Some("t"));
    assert_eq!(build.intents.0, 0b101);
    let starting = build.start().unwrap();
    assert_eq!(starting.token, "t");
    assert_eq!(starting.intents.0, 0b101);
}

#[test]
fn token_that_is_no_header_value_fails() {
    for token in ["bad\ntoken", "\r", "a\0b", "del\u{7f}", "\u{1b}[0m"] {
        let mut client = Client::<Build>::new();
        client.token(token.to_string());
        match client.start() {
            Err(Error::ConfigurationError(message)) => {
                assert_eq!(message, "Invalid token passed.")
            }
            other => panic!("expected a configuration error, got {:?}", other),
        }
        assert!(authorization(token).is_err());
        assert!(transport_builder(token).is_err());
    }
}

#[test]
fn token_that_is_a_header_value_starts() {
    for token in ["abc", "", "Bot a.b-c_d", "with\ttab", "tökén", "日本語", "~ !"] {
        let started = Client::<Starting>::new(Starting {
            token: token.to_string(),
            intents: Intents::EMPTY(),
        })
        .unwrap();
        assert_eq!(started.state().token, token);
        assert_eq!(started.state().intents, Intents::EMPTY());
        assert_eq!(authorization(token).unwrap().as_bytes(), token.as_bytes());
        assert!(transport_builder(token).is_ok());
    }
}

#[test]
fn transport_sends_the_token() {
    let builder = transport_builder("Bot abc").unwrap();
    let shown = format!("{:?}", builder);
    assert!(shown.contains("authorization"));
    assert!(shown.contains("Bot abc"));
}
