//! The phases of a client.
//!
//! A client is first built, then started. What a client can do depends on its
//! phase, and the phase is part of its type: a client that is being built can
//! be configured, one that is starting cannot.
use crate::client::intents::Intents;
use crate::error::Error;
use core::fmt::Debug;
use vstd::prelude::*;

mod private;

verus! {

/// A phase of a client.
pub trait State: private::PrivatizedState + Debug {

}

/// The phase in which a client is configured.
#[derive(Debug)]
pub struct Build {
    /// The token of the bot, once it has been set.
    pub token: Option<String>,
    /// The intents to ask the gateway for.
    pub intents: Intents,
}

impl private::PrivatizedState for Build {

}

impl State for Build {

}

/// The phase in which a client sets up its transport. Its configuration is
/// complete and does not change any more.
#[derive(Debug)]
pub struct Starting {
    /// The token of the bot.
    pub token: String,
    /// The intents to ask the gateway for.
    pub intents: Intents,
}

impl private::PrivatizedState for Starting {

}

impl State for Starting {

}

impl Default for Build {
    /// No token, and the intents that are not privileged.
    fn default() -> (r: Self)
        ensures
            r.token is None,
            r.intents.0 == !Intents::privileged_mask(),
    {
        Build { token: None, intents: Intents::non_privileged() }
    }
}

impl Build {
    /// What [`Build::start`] reports where no token was set.
    pub open spec fn missing_token() -> Seq<char> {
        "No token was set."@
    }

    /// Sets the token.
    pub fn token(&mut self, token: String) -> (r: &mut Self)
        ensures
            *r == (Build { token: Some(token), intents: old(self).intents }),
            *final(self) == *final(r),
    {
        self.token = Some(token);
        self
    }

    /// Adds the intents to those that are set already.
    pub fn intent(&mut self, intent: Intents) -> (r: &mut Self)
        ensures
            *r == (Build {
                token: old(self).token,
                intents: Intents(old(self).intents.0 | intent.0),
            }),
            *final(self) == *final(r),
    {
        self.intents.0 = self.intents.0 | intent.0;
        self
    }

    /// Sets the intents, in place of those that were set.
    pub fn intents(&mut self, intents: Intents) -> (r: &mut Self)
        ensures
            *r == (Build { token: old(self).token, intents }),
            *final(self) == *final(r),
    {
        self.intents = intents;
        self
    }

    /// Ends the configuration. Without a token there is nothing to start
    /// with: the error names the token. With one, the token and the intents
    /// move on as they are.
    pub fn start(self) -> (r: Result<Starting, Error>)
        ensures
            match self.token {
                Some(token) => r matches Ok(next) && next == (Starting {
                    token,
                    intents: self.intents,
                }),
                None => r matches Err(Error::ConfigurationError(message)) && message@
                    == Self::missing_token(),
            },
    {
        match self.token {
            Some(token) => Ok(Starting { token, intents: self.intents }),
            None => Err(Error::ConfigurationError("No token was set.")),
        }
    }
}

} // verus!
