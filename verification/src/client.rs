//! The staged client and the gateway intents it is configured with.
use crate::client::intents::Intents;
use crate::client::state::{Build, Starting, State};
use crate::client::transport::{invalid_token, is_header_value, transport_builder};
use crate::error::Error;
use vstd::prelude::*;

pub mod intents;
pub mod state;
pub mod transport;

verus! {

/// A client in the phase `S`.
///
/// A client begins in the phase [`Build`], in which it is configured, and
/// [`Client::start`] takes it to the phase [`Starting`]. There is no way back,
/// and a client that has left a phase cannot be used in it again.
#[derive(Debug)]
pub struct Client<S> where S: State {
    state: S,
}

impl<S> View for Client<S> where S: State {
    type V = S;

    /// What the client holds in its phase.
    closed spec fn view(&self) -> S {
        self.state
    }
}

impl<S> Client<S> where S: State {
    /// What the client holds in its phase.
    pub fn state(&self) -> (r: &S)
        ensures
            *r == self@,
    {
        &self.state
    }
}

impl Default for Client<Build> {
    fn default() -> (r: Self)
        ensures
            r@.token is None,
            r@.intents.0 == !Intents::privileged_mask(),
    {
        Self::new()
    }
}

impl Client<Build> {
    /// Creates a client in the phase [`Build`], with no token and the intents
    /// that are not privileged.
    pub fn new() -> (r: Self)
        ensures
            r@.token is None,
            r@.intents.0 == !Intents::privileged_mask(),
    {
        Client { state: Build::default() }
    }

    /// Sets the token for the client's connection.
    pub fn token(&mut self, token: String) -> (r: &mut Self)
        ensures
            r@ == (Build { token: Some(token), intents: old(self)@.intents }),
            *final(self) == *final(r),
    {
        self.state.token(token);
        self
    }

    /// Adds the intents to those that are set already.
    pub fn intent(&mut self, intent: Intents) -> (r: &mut Self)
        ensures
            r@ == (Build {
                token: old(self)@.token,
                intents: Intents(old(self)@.intents.0 | intent.0),
            }),
            *final(self) == *final(r),
    {
        self.state.intent(intent);
        self
    }

    /// Sets the intents, in place of those that were set.
    pub fn intents(&mut self, intents: Intents) -> (r: &mut Self)
        ensures
            r@ == (Build { token: old(self)@.token, intents }),
            *final(self) == *final(r),
    {
        self.state.intents(intents);
        self
    }

    /// Takes the client to the phase [`Starting`].
    ///
    /// It fails where no token was set, and where the token cannot be sent as
    /// the value of a header; the error names which. Otherwise the client
    /// that starts holds the token and the intents of the one that was built.
    pub fn start(self) -> (r: Result<Client<Starting>, Error>)
        ensures
            match self@.token {
                Some(token) => if is_header_value(token@) {
                    r matches Ok(next) && next@ == (Starting { token, intents: self@.intents })
                } else {
                    r matches Err(Error::ConfigurationError(message)) && message@
                        == invalid_token()
                },
                None => r matches Err(Error::ConfigurationError(message)) && message@
                    == Build::missing_token(),
            },
    {
        match self.state.start() {
            Ok(state) => Client::<Starting>::new(state),
            Err(e) => Err(e),
        }
    }
}

impl Client<Starting> {
    /// A client in the phase [`Starting`], which it enters with its transport
    /// set up: the token has to be one that can be sent as the value of the
    /// `Authorization` header.
    pub fn new(state: Starting) -> (r: Result<Self, Error>)
        ensures
            if is_header_value(state.token@) {
                r matches Ok(client) && client@ == state
            } else {
                r matches Err(Error::ConfigurationError(message)) && message@ == invalid_token()
            },
    {
        match transport_builder(state.token.as_str()) {
            Ok(_) => Ok(Self { state }),
            Err(e) => Err(e),
        }
    }
}

} // verus!
