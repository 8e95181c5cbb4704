//! The header set that every request carries, built from a [`Config`].

use crate::config::{Config, ConfigView};
use crate::error::{Error, ErrorView};
use http::header::{HeaderMap, HeaderName, HeaderValue, InvalidHeaderName, InvalidHeaderValue};
use std::str::FromStr;
use vstd::prelude::*;
use vstd::utf8::*;

verus! {

#[verifier::external_type_specification]
#[verifier::external_body]
#[verifier::reject_recursive_types(T)]
pub struct ExHeaderMap<T>(HeaderMap<T>);

#[verifier::external_type_specification]
#[verifier::external_body]
pub struct ExHeaderName(HeaderName);

#[verifier::external_type_specification]
#[verifier::external_body]
pub struct ExHeaderValue(HeaderValue);

#[verifier::external_type_specification]
#[verifier::external_body]
pub struct ExInvalidHeaderName(InvalidHeaderName);

#[verifier::external_type_specification]
#[verifier::external_body]
pub struct ExInvalidHeaderValue(InvalidHeaderValue);

/// The bytes of a header name, as `HeaderName::as_str` gives them.
pub uninterp spec fn header_name_bytes(name: HeaderName) -> Seq<u8>;

/// The bytes of a header value, as `HeaderValue::as_bytes` gives them.
pub uninterp spec fn header_value_bytes(value: HeaderValue) -> Seq<u8>;

/// What a header map holds: for each name in it, the values stored under that
/// name, in the order in which `HeaderMap::get_all` yields them.
pub uninterp spec fn header_map_entries(map: HeaderMap<HeaderValue>) -> Map<Seq<u8>, Seq<Seq<u8>>>;

/// A number of names up to which a header map surely takes one more.
pub const HEADER_MAP_ROOM: usize = 4096;

/// The byte that a header name holds for the byte `b` of its source: a letter
/// in lower case, any other character of a token as it is, and 0 for a byte
/// that no header name may hold.
pub open spec fn name_byte(b: u8) -> u8 {
    if 0x41 <= b <= 0x5a {
        (b + 0x20) as u8
    } else if 0x61 <= b <= 0x7a || 0x30 <= b <= 0x39 {
        b
    } else if b == 0x21 || b == 0x23 || b == 0x24 || b == 0x25 || b == 0x26 || b == 0x27 || b
        == 0x2a || b == 0x2b || b == 0x2d || b == 0x2e || b == 0x5e || b == 0x5f || b == 0x60 || b
        == 0x7c || b == 0x7e {
        b
    } else {
        0
    }
}

/// Whether the bytes can be a header name: between 1 and 65535 bytes, each a
/// character of a token.
pub open spec fn valid_header_name(bytes: Seq<u8>) -> bool {
    &&& 1 <= bytes.len() <= 65535
    &&& forall|i: int| 0 <= i < bytes.len() ==> name_byte(#[trigger] bytes[i]) != 0
}

/// The name under which a header is stored: the source with its letters in
/// lower case.
pub open spec fn normal_name(bytes: Seq<u8>) -> Seq<u8> {
    Seq::new(bytes.len(), |i: int| name_byte(bytes[i]))
}

/// Whether a header value may hold the byte: anything but a control
/// character, the horizontal tab excepted.
pub open spec fn value_byte(b: u8) -> bool {
    (b >= 32 && b != 127) || b == 9
}

/// Whether the bytes can be a header value.
pub open spec fn valid_header_value(bytes: Seq<u8>) -> bool {
    forall|i: int| 0 <= i < bytes.len() ==> value_byte(#[trigger] bytes[i])
}

/// The header set that holds nothing.
pub open spec fn no_headers() -> Map<Seq<u8>, Seq<Seq<u8>>> {
    Map::empty()
}

/// `HeaderMap::new`: a map that holds nothing.
#[verifier::external_body]
fn new_header_map() -> (headers: HeaderMap<HeaderValue>)
    ensures
        header_map_entries(headers) == no_headers(),
{
    HeaderMap::new()
}

/// `HeaderName::from_str`: accepts exactly the sources that are 1 to 65535
/// bytes long and hold characters of a token only; the name it gives is the
/// source with its letters in lower case.
#[verifier::external_body]
fn parse_header_name(text: &str) -> (parsed: Result<HeaderName, InvalidHeaderName>)
    ensures
        parsed is Ok <==> valid_header_name(encode_utf8(text@)),
        parsed matches Ok(name) ==> header_name_bytes(name) == normal_name(encode_utf8(text@)),
{
    HeaderName::from_str(text)
}

/// `HeaderValue::from_str`: accepts exactly the sources without control
/// characters other than the tab, and keeps their bytes as they are.
#[verifier::external_body]
fn parse_header_value(text: &str) -> (parsed: Result<HeaderValue, InvalidHeaderValue>)
    ensures
        parsed is Ok <==> valid_header_value(encode_utf8(text@)),
        parsed matches Ok(value) ==> header_value_bytes(value) == encode_utf8(text@),
{
    HeaderValue::from_str(text)
}

/// `HeaderMap::insert`: afterwards the name has the one value given, whatever
/// it had before, and every other name has what it had. The call panics only
/// where the table would have to grow beyond 32768 slots, and a table grows
/// only when it is at least a fifth full: a map of fewer than
/// `HEADER_MAP_ROOM` names is far from that.
#[verifier::external_body]
fn insert_header(map: &mut HeaderMap<HeaderValue>, name: HeaderName, value: HeaderValue)
    requires
        header_map_entries(*old(map)).dom().finite(),
        header_map_entries(*old(map)).dom().len() < HEADER_MAP_ROOM,
    ensures
        header_map_entries(*final(map)) == header_map_entries(*old(map)).insert(
            header_name_bytes(name),
            seq![header_value_bytes(value)],
        ),
{
    map.insert(name, value);
}

/// The header set with one more header, where there is a token to carry.
pub open spec fn with_token(
    headers: Map<Seq<u8>, Seq<Seq<u8>>>,
    name: Seq<char>,
    token: Option<Seq<char>>,
) -> Map<Seq<u8>, Seq<Seq<u8>>> {
    match token {
        Some(t) => headers.insert(normal_name(encode_utf8(name)), seq![encode_utf8(t)]),
        None => headers,
    }
}

/// The headers of every request under the given settings: the content type,
/// then the authentication token and the authorization token where they are
/// set, a later header replacing an earlier one of the same name.
pub open spec fn header_set(config: ConfigView) -> Map<Seq<u8>, Seq<Seq<u8>>> {
    with_token(
        with_token(
            no_headers().insert(
                encode_utf8("content-type"@),
                seq![encode_utf8("application/json"@)],
            ),
            config.authentication_header_name,
            config.authentication_token,
        ),
        config.authorization_header_name,
        config.authorization_token,
    )
}

/// What is wrong with a header made of `name` and `token`, if anything: the
/// name is looked at first.
pub open spec fn token_fault(name: Seq<char>, token: Option<Seq<char>>) -> Option<ErrorView> {
    match token {
        Some(t) => if !valid_header_name(encode_utf8(name)) {
            Some(ErrorView::HeaderName(name))
        } else if !valid_header_value(encode_utf8(t)) {
            Some(ErrorView::HeaderValue(t))
        } else {
            None
        },
        None => None,
    }
}

/// The first thing that keeps the settings from giving a header set, if
/// anything: the authentication header is looked at before the authorization
/// header. A name without a token is never looked at.
pub open spec fn header_fault(config: ConfigView) -> Option<ErrorView> {
    match token_fault(config.authentication_header_name, config.authentication_token) {
        Some(fault) => Some(fault),
        None => token_fault(config.authorization_header_name, config.authorization_token),
    }
}

/// The bytes of a text of ASCII characters are its characters.
proof fn lemma_ascii_bytes(text: Seq<char>)
    requires
        is_ascii_chars(text),
    ensures
        encode_utf8(text).len() == text.len(),
        forall|i: int| 0 <= i < text.len() ==> encode_utf8(text)[i] == text[i] as u8,
{
    is_ascii_chars_encode_utf8(text);
}

/// Reads a header name, or says which text was refused.
pub fn header_name(text: &str) -> (parsed: Result<HeaderName, Error>)
    ensures
        match parsed {
            Ok(name) => valid_header_name(encode_utf8(text@)) && header_name_bytes(name)
                == normal_name(encode_utf8(text@)),
            Err(error) => !valid_header_name(encode_utf8(text@)) && error@
                == ErrorView::HeaderName(text@),
        },
{
    match parse_header_name(text) {
        Ok(name) => Ok(name),
        Err(_) => Err(Error::HeaderName(text.to_owned())),
    }
}

/// Reads a header value, or says which text was refused.
pub fn header_value(text: &str) -> (parsed: Result<HeaderValue, Error>)
    ensures
        match parsed {
            Ok(value) => valid_header_value(encode_utf8(text@)) && header_value_bytes(value)
                == encode_utf8(text@),
            Err(error) => !valid_header_value(encode_utf8(text@)) && error@
                == ErrorView::HeaderValue(text@),
        },
{
    match parse_header_value(text) {
        Ok(value) => Ok(value),
        Err(_) => Err(Error::HeaderValue(text.to_owned())),
    }
}

/// Adds the header that carries `token` under `name`, where there is a token.
fn insert_token(map: &mut HeaderMap<HeaderValue>, name: &String, token: &Option<String>) -> (done:
    Result<(), Error>)
    requires
        header_map_entries(*old(map)).dom().finite(),
        header_map_entries(*old(map)).dom().len() < HEADER_MAP_ROOM,
    ensures
        match done {
            Ok(_) => token_fault(name@, crate::config::optional_text(*token)) is None
                && header_map_entries(*final(map)) == with_token(
                header_map_entries(*old(map)),
                name@,
                crate::config::optional_text(*token),
            ),
            Err(error) => token_fault(name@, crate::config::optional_text(*token)) == Some(
                error@,
            ),
        },
{
    match token {
        Some(t) => {
            let parsed_name = match header_name(name.as_str()) {
                Ok(n) => n,
                Err(error) => {
                    return Err(error);
                },
            };
            let parsed_value = match header_value(t.as_str()) {
                Ok(v) => v,
                Err(error) => {
                    return Err(error);
                },
            };
            insert_header(map, parsed_name, parsed_value);
            Ok(())
        },
        None => Ok(()),
    }
}

/// Builds the header set of every request under the given settings, or says
/// which configured text cannot stand in a header.
pub fn build_headers(config: &Config) -> (built: Result<HeaderMap<HeaderValue>, Error>)
    ensures
        match built {
            Ok(headers) => header_fault(config@) is None && header_map_entries(headers)
                == header_set(config@),
            Err(error) => header_fault(config@) == Some(error@),
        },
{
    let mut headers = new_header_map();
    proof {
        reveal_strlit("content-type");
        reveal_strlit("application/json");
        lemma_ascii_bytes("content-type"@);
        lemma_ascii_bytes("application/json"@);
    }
    let content_type = match parse_header_name("content-type") {
        Ok(name) => name,
        Err(_) => vstd::pervasive::unreached(),
    };
    let json = match parse_header_value("application/json") {
        Ok(value) => value,
        Err(_) => vstd::pervasive::unreached(),
    };
    proof {
        assert(normal_name(encode_utf8("content-type"@)) =~= encode_utf8("content-type"@));
    }
    insert_header(&mut headers, content_type, json);
    match insert_token(
        &mut headers,
        &config.authentication_header_name,
        &config.authentication_token,
    ) {
        Ok(_) => {},
        Err(error) => {
            return Err(error);
        },
    }
    match insert_token(
        &mut headers,
        &config.authorization_header_name,
        &config.authorization_token,
    ) {
        Ok(_) => {},
        Err(error) => {
            return Err(error);
        },
    }
    Ok(headers)
}

} // verus!
