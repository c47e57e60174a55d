//! The HTTP transport of a client, as far as it follows from its configuration.
//!
//! The transport is `reqwest`'s. This module holds what the library believes
//! of `reqwest` without proof, and the verified steps from a token to a
//! builder of HTTP clients that send the token with every request.
use crate::error::Error;
use reqwest::header::{HeaderMap, HeaderValue, InvalidHeaderValue};
use reqwest::ClientBuilder;
use vstd::prelude::*;
use vstd::string::*;
use vstd::utf8::{encode_scalar, encode_utf8};

verus! {

/// `reqwest::header::HeaderValue`, the value of one HTTP header. Nothing of
/// what it holds is known here.
#[verifier::external_type_specification]
#[verifier::external_body]
pub struct ExHeaderValue(HeaderValue);

/// `reqwest::header::InvalidHeaderValue`, the error of a text that cannot be
/// the value of a header.
#[verifier::external_type_specification]
#[verifier::external_body]
pub struct ExInvalidHeaderValue(InvalidHeaderValue);

/// `reqwest::ClientBuilder`, the configuration from which an HTTP client is
/// built.
#[verifier::external_type_specification]
#[verifier::external_body]
pub struct ExClientBuilder(ClientBuilder);

/// `reqwest::header::HeaderMap`, the headers of a request or a response: a
/// map from header names to the values sent under each name.
#[verifier::external_type_specification]
#[verifier::external_body]
#[verifier::reject_recursive_types(T)]
pub struct ExHeaderMap<T>(HeaderMap<T>);

/// The bytes that the value of a header holds: what `HeaderValue::as_bytes`
/// gives.
pub uninterp spec fn header_value_bytes(value: HeaderValue) -> Seq<u8>;

/// What a map of headers holds: under each of its names, in lower case, the
/// bytes of the value that comes last under that name.
pub uninterp spec fn header_entries(map: HeaderMap<HeaderValue>) -> Map<Seq<char>, Seq<u8>>;

/// The headers that the clients of a builder send with every request: under
/// each name, in lower case, the bytes of the value that comes last under
/// that name.
pub uninterp spec fn default_headers_of(builder: ClientBuilder) -> Map<Seq<char>, Seq<u8>>;

/// A number of names that a map of headers holds with room to spare.
pub const MAX_HEADERS: usize = 1024;

/// Whether the value of a header may hold the byte `b`: a tab, or any byte
/// from the space on but for the delete character.
pub open spec fn is_header_value_byte(b: u8) -> bool {
    b >= 32 && b != 127 || b == 9
}

/// Whether a text can be the value of a header: every byte of its UTF-8
/// form is one that the value of a header may hold.
pub open spec fn is_header_value(text: Seq<char>) -> bool {
    forall|i: int|
        0 <= i < encode_utf8(text).len() ==> is_header_value_byte(#[trigger] encode_utf8(text)[i])
}

/// Whether the value of a header may hold the character `c`: a tab, or any
/// character from the space on but for the delete character.
pub open spec fn is_header_value_char(c: char) -> bool {
    c == '\t' || (c >= ' ' && c != '\u{7f}')
}

/// The bytes of one character in UTF-8 are bytes that the value of a header
/// may hold exactly where the character is one that it may hold.
proof fn lemma_header_value_scalar(c: char)
    ensures
        is_header_value_char(c) <==> forall|i: int|
            0 <= i < encode_scalar(c as u32).len() ==> is_header_value_byte(
                #[trigger] encode_scalar(c as u32)[i],
            ),
{
    let scalar = c as u32;
    let bytes = encode_scalar(scalar);
    if scalar <= 0x7f {
        assert((scalar & 0x7f) as u8 == scalar) by (bit_vector)
            requires
                scalar <= 0x7f,
        ;
        assert(bytes[0] == scalar);
    } else {
        assert forall|b: u8|
            (0x80u8 | b) >= 0x80 && (0xc0u8 | b) >= 0x80 && (0xe0u8 | b) >= 0x80 && (0xf0u8 | b)
                >= 0x80 by {
            assert((0x80u8 | b) >= 0x80 && (0xc0u8 | b) >= 0x80 && (0xe0u8 | b) >= 0x80 && (0xf0u8
                | b) >= 0x80) by (bit_vector);
        }
    }
}

/// A text can be the value of a header exactly where each of its characters
/// is one that the value of a header may hold: characters beyond ASCII are,
/// control characters other than the tab are not.
pub proof fn law_header_value_chars(text: Seq<char>)
    ensures
        is_header_value(text) <==> forall|i: int|
            0 <= i < text.len() ==> is_header_value_char(#[trigger] text[i]),
    decreases text.len(),
{
    if text.len() > 0 {
        let head = encode_scalar(text[0] as u32);
        let rest = text.drop_first();
        let tail = encode_utf8(rest);
        let bytes = encode_utf8(text);
        lemma_header_value_scalar(text[0]);
        law_header_value_chars(rest);
        if is_header_value(text) {
            assert forall|i: int| 0 <= i < head.len() implies is_header_value_byte(
                #[trigger] head[i],
            ) by {
                assert(head[i] == bytes[i]);
            }
            assert forall|i: int| 0 <= i < tail.len() implies is_header_value_byte(
                #[trigger] tail[i],
            ) by {
                assert(tail[i] == bytes[head.len() + i]);
            }
            assert forall|i: int| 0 <= i < text.len() implies is_header_value_char(
                #[trigger] text[i],
            ) by {
                if i > 0 {
                    assert(text[i] == rest[i - 1]);
                }
            }
        }
        if forall|i: int| 0 <= i < text.len() ==> is_header_value_char(#[trigger] text[i]) {
            assert forall|i: int| 0 <= i < rest.len() implies is_header_value_char(
                #[trigger] rest[i],
            ) by {}
            assert forall|i: int| 0 <= i < bytes.len() implies is_header_value_byte(
                #[trigger] bytes[i],
            ) by {}
        }
    }
}

/// Whether a text is the name of a header in its plainest form: up to 64
/// letters, digits and hyphens, and at least one.
pub open spec fn is_plain_header_name(name: Seq<char>) -> bool {
    &&& 1 <= name.len() <= 64
    &&& forall|i: int|
        0 <= i < name.len() ==> {
            let c = #[trigger] name[i];
            'a' <= c <= 'z' || 'A' <= c <= 'Z' || '0' <= c <= '9' || c == '-'
        }
}

/// A text with its capital letters from `A` to `Z` in lower case.
pub open spec fn lower_case(text: Seq<char>) -> Seq<char> {
    text.map_values(
        |c: char|
            if 'A' <= c <= 'Z' {
                ((c as u8) + 32) as char
            } else {
                c
            },
    )
}

/// The name under which a client sends its token, as a map of headers holds
/// it.
pub open spec fn authorization_name() -> Seq<char> {
    "authorization"@
}

/// What the transport reports where the token cannot be the value of a header.
pub open spec fn invalid_token() -> Seq<char> {
    "Invalid token passed."@
}

/// `HeaderValue::from_str` of `reqwest::header`. It goes through the bytes of
/// the text and fails at the first that the value of a header may not hold;
/// where there is none, it succeeds with a value that holds a copy of the
/// bytes.
#[verifier::external_body]
fn header_value_from_str(src: &str) -> (r: Result<HeaderValue, InvalidHeaderValue>)
    ensures
        r is Ok <==> is_header_value(src@),
        r matches Ok(value) ==> header_value_bytes(value) == encode_utf8(src@),
{
    HeaderValue::from_str(src)
}

/// `HeaderMap::new` of `reqwest::header`: a map that holds no header.
#[verifier::external_body]
fn header_map_new() -> (r: HeaderMap<HeaderValue>)
    ensures
        header_entries(r).dom() == Set::<Seq<char>>::empty(),
{
    HeaderMap::new()
}

/// `HeaderMap::insert` of `reqwest::header`, with a name given as text. The
/// map then holds `value`, and nothing else, under the name in lower case.
///
/// The call panics where the text is no header name, and where the map
/// cannot grow any more, which is far beyond [`MAX_HEADERS`] names: both are
/// kept out.
#[verifier::external_body]
fn header_map_insert(map: &mut HeaderMap<HeaderValue>, name: &'static str, value: HeaderValue)
    requires
        is_plain_header_name(name@),
        header_entries(*old(map)).dom().finite(),
        header_entries(*old(map)).dom().len() < MAX_HEADERS,
    ensures
        header_entries(*final(map)) == header_entries(*old(map)).insert(
            lower_case(name@),
            header_value_bytes(value),
        ),
{
    map.insert(name, value);
}

/// `ClientBuilder::new` of `reqwest`: the configuration of an HTTP client
/// with every setting at its default. Its default headers are a fresh map
/// into which it inserts one header, so they hold one name at most.
#[verifier::external_body]
fn client_builder_new() -> (r: ClientBuilder)
    ensures
        default_headers_of(r).dom().finite(),
        default_headers_of(r).dom().len() <= 1,
{
    ClientBuilder::new()
}

/// `ClientBuilder::default_headers` of `reqwest`: the same configuration,
/// with the headers of the map sent with every request. It inserts them into
/// the builder's own default headers, one by one and each in place of what
/// was held under the name. That map panics where it cannot grow any more,
/// so the names that the builder holds already and those of `headers` are
/// kept to [`MAX_HEADERS`] together.
#[verifier::external_body]
fn client_builder_default_headers(builder: ClientBuilder, headers: HeaderMap<HeaderValue>) -> (r:
    ClientBuilder)
    requires
        header_entries(headers).dom().finite(),
        default_headers_of(builder).dom().finite(),
        default_headers_of(builder).dom().len() + header_entries(headers).dom().len()
            <= MAX_HEADERS,
    ensures
        forall|name: Seq<char>| #[trigger]
            header_entries(headers).contains_key(name) ==> default_headers_of(r).contains_key(
                name,
            ) && default_headers_of(r)[name] == header_entries(headers)[name],
{
    builder.default_headers(headers)
}

/// The value of the authorization header for a token: the token itself, byte
/// for byte, where it can be the value of a header.
pub fn authorization(token: &str) -> (r: Result<HeaderValue, Error>)
    ensures
        r is Ok <==> is_header_value(token@),
        r matches Ok(value) ==> header_value_bytes(value) == encode_utf8(token@),
        r matches Err(e) ==> (e matches Error::ConfigurationError(message) && message@
            == invalid_token()),
{
    match header_value_from_str(token) {
        Ok(value) => Ok(value),
        Err(_) => Err(Error::ConfigurationError("Invalid token passed.")),
    }
}

/// A builder of HTTP clients that send `token` as the `Authorization` header
/// of every request.
pub fn transport_builder(token: &str) -> (r: Result<ClientBuilder, Error>)
    ensures
        r is Ok <==> is_header_value(token@),
        r matches Ok(builder) ==> default_headers_of(builder).contains_key(authorization_name())
            && default_headers_of(builder)[authorization_name()] == encode_utf8(token@),
        r matches Err(e) ==> (e matches Error::ConfigurationError(message) && message@
            == invalid_token()),
{
    match authorization(token) {
        Ok(value) => {
            proof {
                reveal_strlit("Authorization");
            }
            let mut headers = header_map_new();
            header_map_insert(&mut headers, "Authorization", value);
            proof {
                reveal_strlit("authorization");
                assert(lower_case("Authorization"@) =~= authorization_name());
                assert(header_entries(headers).contains_key(authorization_name()));
            }
            Ok(client_builder_default_headers(client_builder_new(), headers))
        },
        Err(e) => Err(e),
    }
}

} // verus!
