//! The header set of a provider call, held in the HTTP library's own map.

use vstd::prelude::*;
use vstd::utf8::{encode_scalar, encode_utf8, is_ascii_chars, is_ascii_chars_encode_utf8};
use reqwest::header::{HeaderMap, HeaderValue, InvalidHeaderValue};
use crate::error::{Cause, ProviderError, ProviderErrorView};

verus! {

/// The HTTP library's header map. Its inside is not modelled; what it holds is
/// named by [`header_entries`].
#[verifier::external_type_specification]
#[verifier::external_body]
#[verifier::reject_recursive_types(T)]
pub struct ExHeaderMap<T>(reqwest::header::HeaderMap<T>);

/// The HTTP library's header value. Its inside is not modelled; its bytes are
/// named by [`header_value_bytes`].
#[verifier::external_type_specification]
#[verifier::external_body]
pub struct ExHeaderValue(reqwest::header::HeaderValue);

/// The HTTP library's error for text that no header value can hold. It
/// carries nothing but its message.
#[verifier::external_type_specification]
#[verifier::external_body]
pub struct ExInvalidHeaderValue(reqwest::header::InvalidHeaderValue);

/// The bytes of a header value, as its `as_bytes` gives them.
pub uninterp spec fn header_value_bytes(value: HeaderValue) -> Seq<u8>;

/// What a header map holds: for each name in it, written as the map keeps it
/// (in lower case), the values under that name in the order of their arrival.
pub uninterp spec fn header_entries(map: HeaderMap) -> Map<Seq<char>, Seq<Seq<u8>>>;

/// The name of the header that carries the credential.
pub open spec fn credential_header() -> Seq<char> {
    "x-api-key"@
}

/// The name of the header that carries the protocol version.
pub open spec fn version_header() -> Seq<char> {
    "anthropic-version"@
}

/// The protocol version that this client speaks.
pub open spec fn protocol_version() -> Seq<char> {
    "2023-06-01"@
}

/// The name of the header that carries the media type of the body.
pub open spec fn content_type_header() -> Seq<char> {
    "content-type"@
}

/// The media type of the body.
pub open spec fn json_media_type() -> Seq<char> {
    "application/json"@
}

/// A byte that may stand in a header value made from text at run time: a tab,
/// or anything from the space upwards except the delete character.
pub open spec fn value_byte_ok(b: u8) -> bool {
    b >= 32 && b != 127 || b == 9
}

/// A byte that may stand in a header value made from a constant: a tab or a
/// visible ASCII character.
pub open spec fn constant_byte_ok(b: u8) -> bool {
    b >= 32 && b < 127 || b == 9
}

/// Whether every byte may stand in a header value made at run time.
pub open spec fn is_value_bytes(bytes: Seq<u8>) -> bool {
    forall|i: int| 0 <= i < bytes.len() ==> value_byte_ok(#[trigger] bytes[i])
}

/// Whether every byte may stand in a header value made from a constant.
pub open spec fn is_constant_bytes(bytes: Seq<u8>) -> bool {
    forall|i: int| 0 <= i < bytes.len() ==> constant_byte_ok(#[trigger] bytes[i])
}

/// A character that may stand in a header value: a tab, or anything that is
/// neither a control character nor the delete character.
pub open spec fn value_char_ok(c: char) -> bool {
    c == '\t' || (c >= ' ' && c != '\u{7f}')
}

/// Whether `text` can be carried as a header value.
pub open spec fn is_header_text(text: Seq<char>) -> bool {
    forall|i: int| 0 <= i < text.len() ==> value_char_ok(#[trigger] text[i])
}

/// A character that may stand in a header name given in lower case.
pub open spec fn name_char_ok(c: char) -> bool {
    ||| 'a' <= c <= 'z'
    ||| '0' <= c <= '9'
    ||| c == '!'
    ||| c == '#'
    ||| c == '$'
    ||| c == '%'
    ||| c == '&'
    ||| c == '\''
    ||| c == '*'
    ||| c == '+'
    ||| c == '-'
    ||| c == '.'
    ||| c == '^'
    ||| c == '_'
    ||| c == '`'
    ||| c == '|'
    ||| c == '~'
}

/// Whether `name` is a header name in lower case of at most 64 characters.
pub open spec fn is_header_name(name: Seq<char>) -> bool {
    &&& 1 <= name.len() <= 64
    &&& forall|i: int| 0 <= i < name.len() ==> name_char_ok(#[trigger] name[i])
}

/// A header set without entries.
pub open spec fn no_headers() -> Map<Seq<char>, Seq<Seq<u8>>> {
    Map::empty()
}

/// The headers of a provider call made with `credential`: the credential, the
/// protocol version and the media type of the body, one value each.
pub open spec fn provider_header_set(credential: Seq<char>) -> Map<Seq<char>, Seq<Seq<u8>>> {
    no_headers().insert(
        credential_header(),
        seq![encode_utf8(credential)],
    ).insert(version_header(), seq![encode_utf8(protocol_version())]).insert(
        content_type_header(),
        seq![encode_utf8(json_media_type())],
    )
}

/// The description of a credential that no header can carry.
pub open spec fn malformed_credential_text() -> Seq<char> {
    "failed to parse header value"@
}

/// `HeaderValue::from_str`.
///
/// The call succeeds exactly when every byte of the text is a tab or at least
/// 32 and not 127; bytes from 128 upwards pass. The value then holds the bytes
/// of the text.
#[verifier::external_body]
fn parse_header_value(text: &str) -> (r: Result<HeaderValue, InvalidHeaderValue>)
    ensures
        r is Ok <==> is_value_bytes(encode_utf8(text@)),
        r matches Ok(value) ==> header_value_bytes(value) == encode_utf8(text@),
{
    HeaderValue::from_str(text)
}

/// `HeaderValue::from_static`, which panics unless every byte is a tab or a
/// visible ASCII character. The value holds the bytes of the text.
#[verifier::external_body]
fn constant_header_value(text: &'static str) -> (value: HeaderValue)
    requires
        is_constant_bytes(encode_utf8(text@)),
    ensures
        header_value_bytes(value) == encode_utf8(text@),
{
    HeaderValue::from_static(text)
}

/// `to_string` on the error of `HeaderValue::from_str`, whose `Display` writes
/// one fixed sentence.
#[verifier::external_body]
fn describe_invalid_value(error: &InvalidHeaderValue) -> (text: String)
    ensures
        text@ == malformed_credential_text(),
{
    error.to_string()
}

/// `HeaderMap::new`: a map without entries.
#[verifier::external_body]
fn empty_header_map() -> (headers: HeaderMap)
    ensures
        header_entries(headers) == no_headers(),
{
    HeaderMap::new()
}

/// `HeaderMap::insert` with a name given as a constant string.
///
/// The call panics if the string is not a header name, or if the map would
/// have to grow beyond its fixed ceiling; a lower-case name of at most 64
/// characters and a map of fewer than 4096 names rule both out. Afterwards the
/// name has the one value given, whatever it had before, and the other names
/// are untouched.
#[verifier::external_body]
fn insert_header(map: &mut HeaderMap, name: &'static str, value: HeaderValue)
    requires
        is_header_name(name@),
        header_entries(*old(map)).dom().finite(),
        header_entries(*old(map)).dom().len() < 4096,
    ensures
        header_entries(*final(map)) == header_entries(*old(map)).insert(
            name@,
            seq![header_value_bytes(value)],
        ),
{
    map.insert(name, value);
}

/// Splitting a byte string keeps and reflects fitness for a header value.
proof fn lemma_value_bytes_concat(head: Seq<u8>, tail: Seq<u8>)
    ensures
        is_value_bytes(head + tail) <==> is_value_bytes(head) && is_value_bytes(tail),
{
    let whole = head + tail;
    if is_value_bytes(whole) {
        assert forall|i: int| 0 <= i < head.len() implies value_byte_ok(#[trigger] head[i]) by {
            assert(whole[i] == head[i]);
        }
        assert forall|i: int| 0 <= i < tail.len() implies value_byte_ok(#[trigger] tail[i]) by {
            assert(whole[head.len() + i] == tail[i]);
        }
    }
}

/// A character fits a header value exactly when each byte of its encoding does:
/// an ASCII character is its own single byte, and every byte of a longer
/// encoding is 128 or more.
proof fn lemma_char_bytes(c: char)
    ensures
        value_char_ok(c) <==> is_value_bytes(encode_scalar(c as u32)),
{
    let v = c as u32;
    let bytes = encode_scalar(v);
    if v <= 0x7f {
        assert(((v & 0x7F) as u8) as u32 == v) by (bit_vector)
            requires
                v <= 0x7f,
        ;
        assert(bytes[0] as u32 == v);
        if value_char_ok(c) {
            assert forall|i: int| 0 <= i < bytes.len() implies value_byte_ok(
                #[trigger] bytes[i],
            ) by {
                assert(bytes[i] == bytes[0]);
            }
        }
    } else {
        assert((0xC0u8 | (((v >> 6) & 0x1F) as u8)) >= 0x80u8) by (bit_vector);
        assert((0xE0u8 | (((v >> 12) & 0x0F) as u8)) >= 0x80u8) by (bit_vector);
        assert((0xF0u8 | (((v >> 18) & 0x7) as u8)) >= 0x80u8) by (bit_vector);
        assert((0x80u8 | ((v & 0x3F) as u8)) >= 0x80u8) by (bit_vector);
        assert((0x80u8 | (((v >> 6) & 0x3F) as u8)) >= 0x80u8) by (bit_vector);
        assert((0x80u8 | (((v >> 12) & 0x3F) as u8)) >= 0x80u8) by (bit_vector);
        assert forall|i: int| 0 <= i < bytes.len() implies value_byte_ok(#[trigger] bytes[i]) by {
            assert(bytes[i] >= 0x80u8);
        }
    }
}

/// Text fits a header value exactly when the bytes of its UTF-8 encoding do.
pub proof fn lemma_header_text_bytes(text: Seq<char>)
    ensures
        is_header_text(text) <==> is_value_bytes(encode_utf8(text)),
    decreases text.len(),
{
    if text.len() > 0 {
        let rest = text.drop_first();
        lemma_header_text_bytes(rest);
        lemma_char_bytes(text[0]);
        lemma_value_bytes_concat(encode_scalar(text[0] as u32), encode_utf8(rest));
        if is_header_text(text) {
            assert forall|i: int| 0 <= i < rest.len() implies value_char_ok(#[trigger] rest[i]) by {
                assert(rest[i] == text[i + 1]);
            }
        }
        if is_header_text(rest) && value_char_ok(text[0]) {
            assert forall|i: int| 0 <= i < text.len() implies value_char_ok(#[trigger] text[i]) by {
                if i > 0 {
                    assert(text[i] == rest[i - 1]);
                }
            }
        }
    }
}

/// Text with a control character other than the tab, a line break for one, or
/// with the delete character, cannot be carried as a header value.
pub proof fn lemma_control_character_is_refused(text: Seq<char>, i: int)
    requires
        0 <= i < text.len(),
        (text[i] < ' ' && text[i] != '\t') || text[i] == '\u{7f}',
    ensures
        !is_header_text(text),
{
}

/// The three header names are lower-case header names, and no two are the same.
proof fn lemma_header_names()
    ensures
        is_header_name(credential_header()),
        is_header_name(version_header()),
        is_header_name(content_type_header()),
        credential_header() != version_header(),
        credential_header() != content_type_header(),
        version_header() != content_type_header(),
{
    reveal_strlit("x-api-key");
    reveal_strlit("anthropic-version");
    reveal_strlit("content-type");
    assert(credential_header()[0] == 'x');
    assert(version_header()[0] == 'a');
    assert(content_type_header()[0] == 'c');
}

/// The two constant header values consist of visible ASCII characters.
proof fn lemma_constant_values()
    ensures
        is_constant_bytes(encode_utf8(protocol_version())),
        is_constant_bytes(encode_utf8(json_media_type())),
{
    reveal_strlit("2023-06-01");
    reveal_strlit("application/json");
    assert(is_ascii_chars(protocol_version()));
    assert(is_ascii_chars(json_media_type()));
    is_ascii_chars_encode_utf8(protocol_version());
    is_ascii_chars_encode_utf8(json_media_type());
    assert forall|i: int| 0 <= i < encode_utf8(protocol_version()).len() implies constant_byte_ok(
        #[trigger] encode_utf8(protocol_version())[i],
    ) by {
        assert(encode_utf8(protocol_version())[i] == protocol_version()[i] as u8);
    }
    assert forall|i: int| 0 <= i < encode_utf8(json_media_type()).len() implies constant_byte_ok(
        #[trigger] encode_utf8(json_media_type())[i],
    ) by {
        assert(encode_utf8(json_media_type())[i] == json_media_type()[i] as u8);
    }
}

/// The header set of a provider call has exactly three names: the credential,
/// the protocol version and the media type.
pub proof fn law_three_headers(credential: Seq<char>)
    ensures
        provider_header_set(credential).dom() =~= set![
            credential_header(),
            version_header(),
            content_type_header(),
        ],
        provider_header_set(credential).dom().finite(),
        provider_header_set(credential).dom().len() == 3,
        provider_header_set(credential)[credential_header()] == seq![encode_utf8(credential)],
        provider_header_set(credential)[version_header()] == seq![
            encode_utf8(protocol_version()),
        ],
        provider_header_set(credential)[content_type_header()] == seq![
            encode_utf8(json_media_type()),
        ],
{
    lemma_header_names();
}

/// Builds the header set of a provider call: the credential, the protocol
/// version and the media type of the body. A credential that cannot be carried
/// in a header is refused, and nothing is built.
pub fn provider_headers(credential: &str) -> (r: Result<HeaderMap, ProviderError>)
    ensures
        r is Ok <==> is_header_text(credential@),
        r matches Ok(headers) ==> header_entries(headers) == provider_header_set(credential@),
        r matches Err(error) ==> error@ == (ProviderErrorView {
            cause: Cause::CredentialMalformed,
            description: malformed_credential_text(),
        }),
{
    proof {
        lemma_header_text_bytes(credential@);
        lemma_header_names();
        lemma_constant_values();
    }
    match parse_header_value(credential) {
        Err(error) => Err(
            ProviderError::new(Cause::CredentialMalformed, describe_invalid_value(&error)),
        ),
        Ok(key) => {
            let mut headers: HeaderMap = empty_header_map();
            let version: HeaderValue = constant_header_value("2023-06-01");
            let media_type: HeaderValue = constant_header_value("application/json");
            insert_header(&mut headers, "x-api-key", key);
            insert_header(&mut headers, "anthropic-version", version);
            insert_header(&mut headers, "content-type", media_type);
            Ok(headers)
        },
    }
}

} // verus!
