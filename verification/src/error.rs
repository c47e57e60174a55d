//! The error type of the library.
use vstd::prelude::*;

verus! {

/// Why a text does not hold a decimal integer of the width asked for.
#[derive(Debug, Clone, Copy, PartialEq, Eq, Structural)]
pub enum ParseIntError {
    /// The text is empty.
    Empty,
    /// The text holds a character other than `0` to `9`.
    InvalidDigit,
    /// The text is made of digits, and the number is too large for the width.
    PosOverflow,
}

/// Why a wire value does not hold an integer of the width asked for.
#[derive(Debug, Clone, Copy, PartialEq, Eq, Structural)]
pub enum DecodeError {
    /// The wire value is neither a number nor a string.
    WrongShape,
    /// The wire value is a number too large for the width.
    OutOfRange,
    /// The wire value is a string that holds no integer of the width, neither
    /// as it is nor inside one layer of quotes.
    InvalidText,
}

/// An error of the library.
#[derive(Debug, Clone, Copy, PartialEq, Eq)]
#[non_exhaustive]
pub enum Error {
    /// A text that should be a decimal integer is none.
    ParseInt(ParseIntError),
    /// A wire value that should hold an integer holds none.
    Decode(DecodeError),
    /// The client's configuration is incomplete or cannot be used. The text
    /// names what is wrong.
    ConfigurationError(&'static str),
}

impl From<ParseIntError> for Error {
    fn from(err: ParseIntError) -> (r: Error)
        ensures
            r == Error::ParseInt(err),
    {
        Error::ParseInt(err)
    }
}

impl vstd::std_specs::convert::FromSpecImpl<ParseIntError> for Error {
    open spec fn obeys_from_spec() -> bool {
        true
    }

    open spec fn from_spec(err: ParseIntError) -> Error {
        Error::ParseInt(err)
    }
}

impl From<DecodeError> for Error {
    fn from(err: DecodeError) -> (r: Error)
        ensures
            r == Error::Decode(err),
    {
        Error::Decode(err)
    }
}

impl vstd::std_specs::convert::FromSpecImpl<DecodeError> for Error {
    open spec fn obeys_from_spec() -> bool {
        true
    }

    open spec fn from_spec(err: DecodeError) -> Error {
        Error::Decode(err)
    }
}

} // verus!
