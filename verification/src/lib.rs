//! The data layer of a Discord API client: typed bit-flag sets, snowflakes
//! that know the kind of entity they name, the wire forms of both, and a
//! client whose configuration is checked before it starts.
use vstd::prelude::*;

pub mod bits;
/// The client that connects to Discord, and its phases.
pub mod client;
/// Colors in Discord, held as their hex value (24-bit RGB).
pub mod color;
pub use self::color as colour;
/// The error type of the library.
pub mod error;
/// The locale of a Discord user: on the client side, the language and region.
pub mod locale;
/// The models around Discord data, like users and channels.
pub mod models;
/// Discord permissions, for channels and for whole servers.
pub mod permissions;
/// A way to tell presences to the Discord API.
pub mod presence;
/// A snowflake, the identifier of an entity on Discord.
pub mod snowflake;
/// A timestamp, a point in time in unix milliseconds.
pub mod timestamp;
pub mod utilities;

pub use self::client::Client;

verus! {

/// The version of the Discord API that the library speaks.
pub const API_VERSION: u8 = 10;

/// The address below which every route of the Discord API lies.
pub const BASE_URL: &'static str = "https://discordapp.com/api/v10";

/// A direct alias to [`self::snowflake::Snowflake`].
pub type Snowflake<T> = self::snowflake::Snowflake<T>;

/// A direct alias to [`self::color::Color`].
pub type Color = self::color::Color;

/// A direct alias to [`self::color::Color`].
pub type Colour = self::colour::Colour;

} // verus!
