//! What holds of header names, header values and header sets, whatever the
//! settings.

use crate::client::Client;
use crate::config::ConfigView;
use crate::error::{Error, ErrorView};
use crate::header::{
    header_map_entries, header_set, name_byte, normal_name, token_fault, valid_header_name,
    valid_header_value, value_byte,
};
use crate::request::{BodyView, Method, Request};
use vstd::prelude::*;
use vstd::utf8::*;

verus! {

/// Whether the character may stand in a header name: a letter, a digit, or
/// one of the marks that a token admits.
pub open spec fn token_char(c: char) -> bool {
    ||| 'a' <= c <= 'z'
    ||| 'A' <= c <= 'Z'
    ||| '0' <= c <= '9'
    ||| c == '!' || c == '#' || c == '$' || c == '%' || c == '&' || c == '\'' || c == '*'
    ||| c == '+' || c == '-' || c == '.' || c == '^' || c == '_' || c == '`' || c == '|'
    ||| c == '~'
}

/// Whether the character is a control character other than the tab.
pub open spec fn control_char(c: char) -> bool {
    (c < ' ' && c != '\t') || c == '\u{7f}'
}

/// Whether every character of the text may stand in a header name.
pub open spec fn token_text(text: Seq<char>) -> bool {
    forall|i: int| 0 <= i < text.len() ==> token_char(#[trigger] text[i])
}

/// Whether the text is free of control characters other than the tab.
pub open spec fn plain_text(text: Seq<char>) -> bool {
    forall|i: int| 0 <= i < text.len() ==> !control_char(#[trigger] text[i])
}

/// Whether a header name may hold each of the bytes.
pub open spec fn name_bytes(bytes: Seq<u8>) -> bool {
    forall|i: int| 0 <= i < bytes.len() ==> name_byte(#[trigger] bytes[i]) != 0
}

proof fn lemma_low_scalar(v: u32)
    requires
        v < 0x80,
    ensures
        encode_scalar(v) =~= seq![v as u8],
{
    assert(leading_byte_width_1(v) == v as u8) by (bit_vector)
        requires
            v < 0x80,
    ;
}

proof fn lemma_high_scalar(v: u32)
    requires
        v >= 0x80,
    ensures
        encode_scalar(v).len() >= 2,
        forall|j: int| 0 <= j < encode_scalar(v).len() ==> #[trigger] encode_scalar(v)[j] >= 0x80,
{
    assert(leading_byte_width_2(v) >= 0x80) by (bit_vector);
    assert(leading_byte_width_3(v) >= 0x80) by (bit_vector);
    assert(leading_byte_width_4(v) >= 0x80) by (bit_vector);
    assert(last_continuation_byte(v) >= 0x80) by (bit_vector);
    assert(second_last_continuation_byte(v) >= 0x80) by (bit_vector);
    assert(third_last_continuation_byte(v) >= 0x80) by (bit_vector);
}

/// The bytes of one character are judged as the character is.
proof fn lemma_char_bytes(c: char)
    ensures
        valid_header_value(encode_scalar(c as u32)) <==> !control_char(c),
        name_bytes(encode_scalar(c as u32)) <==> token_char(c),
{
    let v = c as u32;
    let bytes = encode_scalar(v);
    if c <= '\u{7f}' {
        lemma_low_scalar(v);
        assert(bytes[0] == c as u8);
        assert forall|j: int| 0 <= j < bytes.len() implies bytes[j] == c as u8 by {
            assert(j == 0);
        }
    } else {
        lemma_high_scalar(v);
        assert(bytes[0] >= 0x80);
        assert forall|j: int| 0 <= j < bytes.len() implies value_byte(#[trigger] bytes[j]) by {
            assert(bytes[j] >= 0x80);
        }
    }
}

/// A header value is judged by its characters: the bytes of a text can be a
/// header value exactly if the text holds no control character but the tab.
pub proof fn law_value_text(text: Seq<char>)
    ensures
        valid_header_value(encode_utf8(text)) <==> plain_text(text),
    decreases text.len(),
{
    if text.len() > 0 {
        let c = text[0];
        let rest = text.drop_first();
        let head = encode_scalar(c as u32);
        let tail = encode_utf8(rest);
        law_value_text(rest);
        assert(encode_utf8(text) == head + tail);
        lemma_char_bytes(c);
        if valid_header_value(head + tail) {
            assert forall|j: int| 0 <= j < head.len() implies value_byte(#[trigger] head[j]) by {
                assert((head + tail)[j] == head[j]);
            }
            assert forall|j: int| 0 <= j < tail.len() implies value_byte(#[trigger] tail[j]) by {
                assert((head + tail)[head.len() + j] == tail[j]);
            }
            assert forall|i: int| 0 <= i < text.len() implies !control_char(#[trigger] text[i]) by {
                if i > 0 {
                    assert(text[i] == rest[i - 1]);
                }
            }
        }
        if plain_text(text) {
            assert(!control_char(text[0]));
            assert forall|i: int| 0 <= i < rest.len() implies !control_char(#[trigger] rest[i]) by {
                assert(rest[i] == text[i + 1]);
            }
            assert forall|j: int| 0 <= j < (head + tail).len() implies value_byte(
                #[trigger] (head + tail)[j],
            ) by {
                if j < head.len() {
                    assert((head + tail)[j] == head[j]);
                } else {
                    assert((head + tail)[j] == tail[j - head.len()]);
                }
            }
        }
    }
}

proof fn lemma_name_bytes(text: Seq<char>)
    ensures
        name_bytes(encode_utf8(text)) <==> token_text(text),
    decreases text.len(),
{
    if text.len() > 0 {
        let c = text[0];
        let rest = text.drop_first();
        let head = encode_scalar(c as u32);
        let tail = encode_utf8(rest);
        lemma_name_bytes(rest);
        assert(encode_utf8(text) == head + tail);
        lemma_char_bytes(c);
        if name_bytes(head + tail) {
            assert forall|j: int| 0 <= j < head.len() implies name_byte(#[trigger] head[j])
                != 0 by {
                assert((head + tail)[j] == head[j]);
            }
            assert forall|j: int| 0 <= j < tail.len() implies name_byte(#[trigger] tail[j])
                != 0 by {
                assert((head + tail)[head.len() + j] == tail[j]);
            }
            assert forall|i: int| 0 <= i < text.len() implies token_char(#[trigger] text[i]) by {
                if i > 0 {
                    assert(text[i] == rest[i - 1]);
                }
            }
        }
        if token_text(text) {
            assert(token_char(text[0]));
            assert forall|i: int| 0 <= i < rest.len() implies token_char(#[trigger] rest[i]) by {
                assert(rest[i] == text[i + 1]);
            }
            assert forall|j: int| 0 <= j < (head + tail).len() implies name_byte(
                #[trigger] (head + tail)[j],
            ) != 0 by {
                if j < head.len() {
                    assert((head + tail)[j] == head[j]);
                } else {
                    assert((head + tail)[j] == tail[j - head.len()]);
                }
            }
        }
    }
}

/// A header name is judged by its characters: the bytes of a text can be a
/// header name exactly if the text holds between 1 and 65535 characters, all
/// of them characters of a token. Such a text has one byte for each
/// character.
pub proof fn law_name_text(text: Seq<char>)
    ensures
        valid_header_name(encode_utf8(text)) <==> 1 <= text.len() <= 65535 && token_text(text),
        token_text(text) ==> encode_utf8(text).len() == text.len(),
        token_text(text) ==> forall|i: int|
            0 <= i < text.len() ==> #[trigger] encode_utf8(text)[i] == text[i] as u8,
{
    lemma_name_bytes(text);
    if token_text(text) {
        assert(is_ascii_chars(text)) by {
            assert forall|i: int| 0 <= i < text.len() implies '\0' <= #[trigger] text[i]
                <= '\u{7f}' by {
                assert(token_char(text[i]));
            }
        }
        is_ascii_chars_encode_utf8(text);
    }
}


/// A letter in lower case, any other character as it is.
pub open spec fn lower(c: char) -> char {
    if 'A' <= c <= 'Z' {
        ((c as u8) + 0x20) as char
    } else {
        c
    }
}

/// The text with its letters in lower case.
pub open spec fn lowered(text: Seq<char>) -> Seq<char> {
    Seq::new(text.len(), |i: int| lower(text[i]))
}

/// A header is stored under its name in lower case: for a text that can be
/// a header name, the name it is stored under is the text in lower case.
pub proof fn law_name_lowered(text: Seq<char>)
    requires
        token_text(text),
    ensures
        normal_name(encode_utf8(text)) == encode_utf8(lowered(text)),
{
    law_name_text(text);
    let low = lowered(text);
    assert(token_text(low)) by {
        assert forall|i: int| 0 <= i < low.len() implies token_char(#[trigger] low[i]) by {
            assert(token_char(text[i]));
        }
    }
    law_name_text(low);
    assert forall|i: int| 0 <= i < text.len() implies normal_name(encode_utf8(text))[i]
        == encode_utf8(low)[i] by {
        assert(token_char(text[i]));
        assert(encode_utf8(text)[i] == text[i] as u8);
        assert(encode_utf8(low)[i] == low[i] as u8);
    }
    assert(normal_name(encode_utf8(text)) =~= encode_utf8(low));
}

/// The names under which the tokens travel where the settings keep the
/// initial header names.
pub proof fn law_initial_names()
    ensures
        normal_name(encode_utf8("X-Auth-Token"@)) == encode_utf8("x-auth-token"@),
        normal_name(encode_utf8("X-Auth-User"@)) == encode_utf8("x-auth-user"@),
        encode_utf8("x-auth-token"@) != encode_utf8("content-type"@),
        encode_utf8("x-auth-user"@) != encode_utf8("content-type"@),
        encode_utf8("x-auth-user"@) != encode_utf8("x-auth-token"@),
{
    reveal_strlit("X-Auth-Token");
    reveal_strlit("x-auth-token");
    reveal_strlit("X-Auth-User");
    reveal_strlit("x-auth-user");
    reveal_strlit("content-type");
    assert(token_text("X-Auth-Token"@));
    assert(token_text("X-Auth-User"@));
    assert(token_text("x-auth-token"@));
    assert(token_text("x-auth-user"@));
    assert(token_text("content-type"@));
    law_name_lowered("X-Auth-Token"@);
    law_name_lowered("X-Auth-User"@);
    assert(lowered("X-Auth-Token"@) =~= "x-auth-token"@);
    assert(lowered("X-Auth-User"@) =~= "x-auth-user"@);
    law_name_text("x-auth-token"@);
    law_name_text("x-auth-user"@);
    law_name_text("content-type"@);
    assert(encode_utf8("x-auth-token"@)[0] != encode_utf8("content-type"@)[0]);
    assert(encode_utf8("x-auth-user"@)[0] != encode_utf8("content-type"@)[0]);
    assert(encode_utf8("x-auth-user"@).len() != encode_utf8("x-auth-token"@).len());
}

/// Every header set names the content type, unless a token travels under
/// that very name.
pub proof fn law_content_type(config: ConfigView)
    requires
        config.authentication_token is Some ==> normal_name(
            encode_utf8(config.authentication_header_name),
        ) != encode_utf8("content-type"@),
        config.authorization_token is Some ==> normal_name(
            encode_utf8(config.authorization_header_name),
        ) != encode_utf8("content-type"@),
    ensures
        header_set(config).dom().contains(encode_utf8("content-type"@)),
        header_set(config)[encode_utf8("content-type"@)] == seq![
            encode_utf8("application/json"@),
        ],
{
}

/// Where the settings hold an authentication token, the header set holds it
/// under the authentication header's name, as that name's one value, unless
/// the authorization token travels under the same name.
pub proof fn law_authentication_sent(config: ConfigView, token: Seq<char>)
    requires
        config.authentication_token == Some(token),
        config.authorization_token is Some ==> normal_name(
            encode_utf8(config.authorization_header_name),
        ) != normal_name(encode_utf8(config.authentication_header_name)),
    ensures
        header_set(config).dom().contains(
            normal_name(encode_utf8(config.authentication_header_name)),
        ),
        header_set(config)[normal_name(encode_utf8(config.authentication_header_name))] == seq![
            encode_utf8(token),
        ],
{
}

/// Where the settings hold an authorization token, the header set holds it
/// under the authorization header's name, as that name's one value.
pub proof fn law_authorization_sent(config: ConfigView, token: Seq<char>)
    requires
        config.authorization_token == Some(token),
    ensures
        header_set(config).dom().contains(
            normal_name(encode_utf8(config.authorization_header_name)),
        ),
        header_set(config)[normal_name(encode_utf8(config.authorization_header_name))] == seq![
            encode_utf8(token),
        ],
{
}

/// The header set names nothing but the content type and the headers of the
/// tokens that are set: a header without a token is left out.
pub proof fn law_nothing_else(config: ConfigView, name: Seq<u8>)
    requires
        name != encode_utf8("content-type"@),
        config.authentication_token is Some ==> name != normal_name(
            encode_utf8(config.authentication_header_name),
        ),
        config.authorization_token is Some ==> name != normal_name(
            encode_utf8(config.authorization_header_name),
        ),
    ensures
        !header_set(config).dom().contains(name),
{
}

/// With the initial name of the authentication header and a token set, every
/// request that a client makes, whatever the operation, carries the token
/// as the one value of the header `x-auth-token`; the one exception is a
/// configuration that sends the authorization token under that name too.
/// Without an authentication token no request carries that header, unless
/// the authorization token travels under its name.
pub proof fn law_authentication_header(
    client: Client,
    made: Result<Request, Error>,
    method: Method,
    address: Seq<char>,
    body: BodyView,
)
    requires
        client.plans(made, method, address, body),
        client.settings().authentication_header_name == "X-Auth-Token"@,
        client.settings().authorization_token is Some ==> normal_name(
            encode_utf8(client.settings().authorization_header_name),
        ) != encode_utf8("x-auth-token"@),
    ensures
        made matches Ok(request) ==> match client.settings().authentication_token {
            Some(token) => header_map_entries(request.headers).dom().contains(
                encode_utf8("x-auth-token"@),
            ) && header_map_entries(request.headers)[encode_utf8("x-auth-token"@)] == seq![
                encode_utf8(token),
            ],
            None => !header_map_entries(request.headers).dom().contains(
                encode_utf8("x-auth-token"@),
            ),
        },
{
    law_initial_names();
    let config = client.settings();
    match config.authentication_token {
        Some(token) => law_authentication_sent(config, token),
        None => law_nothing_else(config, encode_utf8("x-auth-token"@)),
    }
}

/// A header name that holds a character which no token admits, a control
/// character for one, stops every operation before a request exists: where
/// an authentication token is set, the outcome is the fault that names the
/// header name, and no request.
pub proof fn law_bad_name_stops(
    client: Client,
    made: Result<Request, Error>,
    method: Method,
    address: Seq<char>,
    body: BodyView,
    at: int,
)
    requires
        client.plans(made, method, address, body),
        client.settings().authentication_token is Some,
        0 <= at < client.settings().authentication_header_name.len(),
        !token_char(client.settings().authentication_header_name[at]),
    ensures
        made matches Err(error) && error@ == ErrorView::HeaderName(
            client.settings().authentication_header_name,
        ),
{
    law_name_text(client.settings().authentication_header_name);
}

/// A token that holds a control character other than the tab stops every
/// operation before a request exists: where the header name is in order,
/// the outcome is the fault that names the token, and no request.
pub proof fn law_bad_value_stops(
    client: Client,
    made: Result<Request, Error>,
    method: Method,
    address: Seq<char>,
    body: BodyView,
    token: Seq<char>,
    at: int,
)
    requires
        client.plans(made, method, address, body),
        client.settings().authentication_token == Some(token),
        1 <= client.settings().authentication_header_name.len() <= 65535,
        token_text(client.settings().authentication_header_name),
        0 <= at < token.len(),
        control_char(token[at]),
    ensures
        made matches Err(error) && error@ == ErrorView::HeaderValue(token),
{
    law_name_text(client.settings().authentication_header_name);
    law_value_text(token);
}

/// The authorization header is held to the same rules, once the
/// authentication header is found in order: a name that holds a character
/// which no token admits stops every operation with the fault that names
/// it.
pub proof fn law_bad_authorization_name_stops(
    client: Client,
    made: Result<Request, Error>,
    method: Method,
    address: Seq<char>,
    body: BodyView,
    at: int,
)
    requires
        client.plans(made, method, address, body),
        token_fault(
            client.settings().authentication_header_name,
            client.settings().authentication_token,
        ) is None,
        client.settings().authorization_token is Some,
        0 <= at < client.settings().authorization_header_name.len(),
        !token_char(client.settings().authorization_header_name[at]),
    ensures
        made matches Err(error) && error@ == ErrorView::HeaderName(
            client.settings().authorization_header_name,
        ),
{
    law_name_text(client.settings().authorization_header_name);
}

/// Settings whose names and tokens are all in order give a request for
/// every operation: nothing but a header fault keeps one from being made.
pub proof fn law_sound_settings_give_requests(
    client: Client,
    made: Result<Request, Error>,
    method: Method,
    address: Seq<char>,
    body: BodyView,
)
    requires
        client.plans(made, method, address, body),
        client.settings().authentication_token matches Some(token) ==> 1
            <= client.settings().authentication_header_name.len() <= 65535 && token_text(
            client.settings().authentication_header_name,
        ) && plain_text(token),
        client.settings().authorization_token matches Some(token) ==> 1
            <= client.settings().authorization_header_name.len() <= 65535 && token_text(
            client.settings().authorization_header_name,
        ) && plain_text(token),
    ensures
        made is Ok,
{
    law_name_text(client.settings().authentication_header_name);
    law_name_text(client.settings().authorization_header_name);
    match client.settings().authentication_token {
        Some(token) => law_value_text(token),
        None => {},
    }
    match client.settings().authorization_token {
        Some(token) => law_value_text(token),
        None => {},
    }
}

/// A control character is no character of a token.
pub proof fn law_control_is_no_token(c: char)
    requires
        control_char(c),
    ensures
        !token_char(c),
{
}

} // verus!
