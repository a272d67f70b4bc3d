//! The default headers of an authenticated client.
//!
//! Header values and header maps are those of the HTTP stack, and opaque here.
//! What they hold is named by [`header_value_bytes`], [`header_value_sensitive`]
//! and [`header_map_fields`]. The functions that call into the HTTP stack are
//! assumed, not proved, to do what their contracts say; each says in its
//! documentation which call it makes.

use reqwest::header::{HeaderMap, HeaderValue, InvalidHeaderValue};
use vstd::prelude::*;
use vstd::string::StringExecFns;
use vstd::string::StringSliceAdditionalSpecFns;
use vstd::utf8::{char_is_scalar, encode_scalar, encode_utf8, has_width_1_encoding};
use vstd::utf8::{last_continuation_byte, second_last_continuation_byte};
use vstd::utf8::{leading_byte_width_2, leading_byte_width_3, leading_byte_width_4};
use vstd::utf8::third_last_continuation_byte;

verus! {

/// The value of one header, as the HTTP stack holds it.
#[verifier::external_type_specification]
#[verifier::external_body]
pub struct ExHeaderValue(reqwest::header::HeaderValue);

/// The error of the HTTP stack for a text that is no header value.
#[verifier::external_type_specification]
#[verifier::external_body]
pub struct ExInvalidHeaderValue(reqwest::header::InvalidHeaderValue);

/// The header map of the HTTP stack: header names with their values.
#[verifier::external_type_specification]
#[verifier::external_body]
#[verifier::reject_recursive_types(T)]
pub struct ExHeaderMap<T>(reqwest::header::HeaderMap<T>);

/// One value stored in a header map: its bytes, and whether it is marked as
/// sensitive (to be kept out of logs and compression tables).
pub struct HeaderField {
    pub value: Seq<u8>,
    pub sensitive: bool,
}

/// The bytes that a header value holds.
pub uninterp spec fn header_value_bytes(value: HeaderValue) -> Seq<u8>;

/// Whether a header value is marked as sensitive.
pub uninterp spec fn header_value_sensitive(value: HeaderValue) -> bool;

/// What a header map holds: for each header name, in lower case, the values stored
/// under it, in the order in which they were added.
pub uninterp spec fn header_map_fields(headers: HeaderMap<HeaderValue>) -> Map<
    Seq<char>,
    Seq<HeaderField>,
>;

/// A header value as a field: its bytes and its mark.
pub open spec fn field_of(value: HeaderValue) -> HeaderField {
    HeaderField { value: header_value_bytes(value), sensitive: header_value_sensitive(value) }
}

/// The content of a header map that holds nothing.
pub open spec fn no_headers() -> Map<Seq<char>, Seq<HeaderField>> {
    Map::empty()
}

/// Name of the header that carries the bearer token.
pub const AUTHORIZATION: &'static str = "authorization";

/// Name of the header that identifies the caller by its API key.
pub const API_KEY: &'static str = "x-api-key";

/// A number of names that every header map can take. (A header map has a size
/// limit, far above this.)
pub const MAX_HEADER_NAMES: usize = 128;

/// A byte that may stand in a header value: anything from the space upwards except
/// DEL, and the horizontal tab.
pub open spec fn is_value_byte(b: u8) -> bool {
    (b >= 32 && b != 127) || b == 9
}

/// Whether `bytes` can be the content of a header value.
pub open spec fn is_header_value(bytes: Seq<u8>) -> bool {
    forall|i: int| 0 <= i < bytes.len() ==> is_value_byte(#[trigger] bytes[i])
}

/// A character of the header names that this library writes: a lower-case letter,
/// a digit or a hyphen.
pub open spec fn is_name_char(c: char) -> bool {
    ('a' <= c && c <= 'z') || ('0' <= c && c <= '9') || c == '-'
}

/// Whether `name` is a header name as this library writes them: between 1 and 64
/// characters, each a lower-case letter, a digit or a hyphen.
pub open spec fn is_plain_header_name(name: Seq<char>) -> bool {
    &&& 1 <= name.len() <= 64
    &&& forall|i: int| 0 <= i < name.len() ==> is_name_char(#[trigger] name[i])
}

/// The text of a bearer authorization: the word `Bearer`, a space, and the token.
pub open spec fn bearer_text(access_token: Seq<char>) -> Seq<char> {
    seq!['B', 'e', 'a', 'r', 'e', 'r', ' '] + access_token
}

/// The authorization field for `access_token`: the bytes of its bearer text, marked
/// as sensitive.
pub open spec fn bearer_field(access_token: Seq<char>) -> HeaderField {
    HeaderField { value: encode_utf8(bearer_text(access_token)), sensitive: true }
}

/// The field that identifies the caller: the bytes of `api_key`, not marked.
pub open spec fn key_field(api_key: Seq<char>) -> HeaderField {
    HeaderField { value: encode_utf8(api_key), sensitive: false }
}

/// The default headers of a client that acts for `api_key` with `access_token`:
/// a sensitive `authorization` header with the bearer text, and an `x-api-key`
/// header with the key itself.
pub open spec fn auth_headers(access_token: Seq<char>, api_key: Seq<char>) -> Map<
    Seq<char>,
    Seq<HeaderField>,
> {
    no_headers().insert(AUTHORIZATION@, seq![bearer_field(access_token)]).insert(
        API_KEY@,
        seq![key_field(api_key)],
    )
}

/// The default headers of an authenticated client are two names.
pub proof fn lemma_auth_headers_are_few(access_token: Seq<char>, api_key: Seq<char>)
    ensures
        auth_headers(access_token, api_key).dom().finite(),
        auth_headers(access_token, api_key).dom().len() <= 2,
{
    let names = Set::<Seq<char>>::empty().insert(AUTHORIZATION@).insert(API_KEY@);
    assert(auth_headers(access_token, api_key).dom() =~= names);
}

/// A character that may stand in a header value: anything from the space upwards
/// except DEL, and the horizontal tab.
pub open spec fn is_value_char(c: char) -> bool {
    (c >= ' ' && c != '\u{7f}') || c == '\t'
}

/// Whether every character of `text` may stand in a header value.
pub open spec fn is_value_text(text: Seq<char>) -> bool {
    forall|i: int| 0 <= i < text.len() ==> is_value_char(#[trigger] text[i])
}

/// The bytes that encode one character are header value bytes exactly when the
/// character may stand in a header value.
proof fn lemma_char_bytes(c: char)
    ensures
        is_header_value(encode_scalar(c as u32)) <==> is_value_char(c),
{
    let v = c as u32;
    let bytes = encode_scalar(v);
    char_is_scalar(c);
    if has_width_1_encoding(v) {
        assert(v & 0x7F == v) by (bit_vector)
            requires
                v <= 0x7F,
        ;
        assert(bytes[0] == v as u8);
        assert(is_value_byte(bytes[0]) <==> is_value_char(c));
        if is_value_char(c) {
            assert forall|i: int| 0 <= i < bytes.len() implies is_value_byte(#[trigger] bytes[i]) by {
                assert(i == 0);
            }
        }
    } else {
        assert(0xC0u8 | (((v >> 6) & 0x1F) as u8) >= 0x80u8) by (bit_vector);
        assert(0xE0u8 | (((v >> 12) & 0x0F) as u8) >= 0x80u8) by (bit_vector);
        assert(0xF0u8 | (((v >> 18) & 0x7) as u8) >= 0x80u8) by (bit_vector);
        assert(0x80u8 | ((v & 0x3F) as u8) >= 0x80u8) by (bit_vector);
        assert(0x80u8 | (((v >> 6) & 0x3F) as u8) >= 0x80u8) by (bit_vector);
        assert(0x80u8 | (((v >> 12) & 0x3F) as u8) >= 0x80u8) by (bit_vector);
        assert(leading_byte_width_2(v) >= 0x80);
        assert(leading_byte_width_3(v) >= 0x80);
        assert(leading_byte_width_4(v) >= 0x80);
        assert(last_continuation_byte(v) >= 0x80);
        assert(second_last_continuation_byte(v) >= 0x80);
        assert(third_last_continuation_byte(v) >= 0x80);
        assert(is_value_char(c));
        assert forall|i: int| 0 <= i < bytes.len() implies is_value_byte(#[trigger] bytes[i]) by {
            assert(bytes[i] >= 0x80);
        }
    }
}

/// A text can be written as a header value exactly when each of its characters
/// may stand in one.
pub proof fn lemma_header_value_text(text: Seq<char>)
    ensures
        is_header_value(encode_utf8(text)) <==> is_value_text(text),
    decreases text.len(),
{
    if text.len() > 0 {
        let head = encode_scalar(text[0] as u32);
        let rest = text.drop_first();
        let tail = encode_utf8(rest);
        let bytes = encode_utf8(text);
        lemma_char_bytes(text[0]);
        lemma_header_value_text(rest);
        assert(bytes == head + tail);
        if is_value_text(text) {
            assert(is_value_char(text[0]));
            assert forall|i: int| 0 <= i < rest.len() implies is_value_char(#[trigger] rest[i]) by {
                assert(rest[i] == text[i + 1]);
            }
            assert forall|i: int| 0 <= i < bytes.len() implies is_value_byte(#[trigger] bytes[i]) by {
                if i < head.len() {
                    assert(bytes[i] == head[i]);
                } else {
                    assert(bytes[i] == tail[i - head.len()]);
                }
            }
        }
        if is_header_value(bytes) {
            assert forall|i: int| 0 <= i < head.len() implies is_value_byte(#[trigger] head[i]) by {
                assert(head[i] == bytes[i]);
            }
            assert forall|i: int| 0 <= i < tail.len() implies is_value_byte(#[trigger] tail[i]) by {
                assert(tail[i] == bytes[i + head.len()]);
            }
            assert forall|i: int| 0 <= i < text.len() implies is_value_char(#[trigger] text[i]) by {
                if i > 0 {
                    assert(text[i] == rest[i - 1]);
                }
            }
        }
    }
}

/// Whether a token and a key can be written into headers: neither holds a
/// character below the space other than the tab, nor DEL.
pub open spec fn encodable(access_token: Seq<char>, api_key: Seq<char>) -> bool {
    is_value_text(access_token) && is_value_text(api_key)
}

/// The bearer text of a token can be written as a header value exactly when the
/// token can.
pub proof fn lemma_bearer_text(access_token: Seq<char>)
    ensures
        is_value_text(bearer_text(access_token)) <==> is_value_text(access_token),
{
    let bearer = bearer_text(access_token);
    if is_value_text(access_token) {
        assert forall|i: int| 0 <= i < bearer.len() implies is_value_char(#[trigger] bearer[i]) by {
            if i >= 7 {
                assert(bearer[i] == access_token[i - 7]);
            }
        }
    }
    if is_value_text(bearer) {
        assert forall|i: int| 0 <= i < access_token.len() implies is_value_char(
            #[trigger] access_token[i],
        ) by {
            assert(bearer[i + 7] == access_token[i]);
        }
    }
}

/// `HeaderValue::from_str`: succeeds exactly when every byte of `src` is allowed in
/// a header value; the value then holds the bytes of `src` and is not sensitive.
#[verifier::external_body]
fn header_value_from_str(src: &str) -> (res: Result<HeaderValue, InvalidHeaderValue>)
    ensures
        res is Ok <==> is_header_value(src.spec_bytes()),
        res is Ok ==> header_value_bytes(res->Ok_0) == src.spec_bytes(),
        res is Ok ==> !header_value_sensitive(res->Ok_0),
{
    HeaderValue::from_str(src)
}

/// The text of a header value error, as its `Display` gives it.
#[verifier::external_body]
pub(crate) fn header_error_text(error: &InvalidHeaderValue) -> (text: String) {
    error.to_string()
}

/// `HeaderValue::set_sensitive`: sets the mark and leaves the bytes alone.
#[verifier::external_body]
fn header_value_set_sensitive(value: &mut HeaderValue, sensitive: bool)
    ensures
        header_value_bytes(*final(value)) == header_value_bytes(*old(value)),
        header_value_sensitive(*final(value)) == sensitive,
{
    value.set_sensitive(sensitive)
}

/// `HeaderMap::new`: a map that holds nothing.
#[verifier::external_body]
fn header_map_new() -> (headers: HeaderMap<HeaderValue>)
    ensures
        header_map_fields(headers) == no_headers(),
{
    HeaderMap::new()
}

/// `HeaderMap::insert` with a static name: `value` becomes the only value under
/// `name`, and the other names keep theirs. The call panics on a name that is not a
/// header name and on a map that has reached its size limit; both are excluded.
#[verifier::external_body]
fn header_map_insert(headers: &mut HeaderMap<HeaderValue>, name: &'static str, value: HeaderValue)
    requires
        is_plain_header_name(name@),
        header_map_fields(*old(headers)).dom().finite(),
        header_map_fields(*old(headers)).dom().len() < MAX_HEADER_NAMES,
    ensures
        header_map_fields(*final(headers)) == header_map_fields(*old(headers)).insert(
            name@,
            seq![field_of(value)],
        ),
{
    headers.insert(name, value);
}

/// Builds the default headers for a client that acts for `api_key` with
/// `access_token`. Fails exactly when the token or the key holds a character that
/// may not stand in a header value: one below the space other than the tab, or DEL.
pub fn build_headers(access_token: &str, api_key: &str) -> (res: Result<
    HeaderMap<HeaderValue>,
    InvalidHeaderValue,
>)
    ensures
        res is Ok <==> encodable(access_token@, api_key@),
        res is Ok ==> header_map_fields(res->Ok_0) == auth_headers(access_token@, api_key@),
{
    proof {
        reveal_strlit("Bearer ");
        reveal_strlit("authorization");
        reveal_strlit("x-api-key");
        lemma_bearer_text(access_token@);
        lemma_header_value_text(bearer_text(access_token@));
        lemma_header_value_text(api_key@);
    }
    let bearer = String::from_str("Bearer ").concat(access_token);
    assert(bearer@ =~= bearer_text(access_token@));
    let mut auth_value = match header_value_from_str(bearer.as_str()) {
        Ok(value) => value,
        Err(e) => {
            return Err(e);
        },
    };
    header_value_set_sensitive(&mut auth_value, true);
    let key_value = match header_value_from_str(api_key) {
        Ok(value) => value,
        Err(e) => {
            return Err(e);
        },
    };
    let mut headers = header_map_new();
    header_map_insert(&mut headers, AUTHORIZATION, auth_value);
    header_map_insert(&mut headers, API_KEY, key_value);
    Ok(headers)
}

} // verus!
