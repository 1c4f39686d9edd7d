//! The calls this library makes into `reqwest` (its `http` header and method
//! types, and its URL parser), into `base64`, and into std's Unicode
//! lowercasing. Each item here is trusted: its contract restates what the
//! called code does, as its source shows it.
use vstd::prelude::*;
use crate::text::{all_ascii, ascii_lower};

verus! {

/// The error `base64` reports for input that is not canonical padded base64.
#[verifier::external_type_specification]
#[verifier::external_body]
pub struct ExDecodeError(base64::DecodeError);

/// The error `http` reports for a byte string that is not a header name.
#[verifier::external_type_specification]
#[verifier::external_body]
pub struct ExInvalidHeaderName(reqwest::header::InvalidHeaderName);

/// The error `http` reports for a string that is not a header value.
#[verifier::external_type_specification]
#[verifier::external_body]
pub struct ExInvalidHeaderValue(reqwest::header::InvalidHeaderValue);

/// What the standard base64 engine (standard alphabet, canonical padding, no
/// trailing bits) decodes `s` to, or `None` where it refuses `s`.
pub uninterp spec fn base64_decoded(s: Seq<char>) -> Option<Seq<u8>>;

/// What the standard padded base64 engine encodes `b` to.
pub uninterp spec fn base64_encoded(b: Seq<u8>) -> Seq<char>;

/// Whether reqwest accepts `s` as a request URL: it parses as an absolute URL
/// that has a host.
pub uninterp spec fn url_accepted(s: Seq<char>) -> bool;

/// What std's Unicode lowercasing makes of `s`.
pub uninterp spec fn lower_of(s: Seq<char>) -> Seq<char>;

/// A byte of HTTP's token grammar, as `http`'s method table lists it.
pub open spec fn is_method_char(c: char) -> bool {
    ||| c == '!' || c == '*' || c == '+' || c == '-' || c == '.'
    ||| c == '^' || c == '_' || c == '`' || c == '|' || c == '~'
    ||| '0' <= c && c <= '9'
    ||| 'A' <= c && c <= 'Z'
    ||| 'a' <= c && c <= 'z'
}

/// A method that `http::Method` parses: a non-empty token.
pub open spec fn is_method_token(s: Seq<char>) -> bool {
    s.len() > 0 && forall|i: int| 0 <= i < s.len() ==> is_method_char(#[trigger] s[i])
}

/// A byte that `http`'s header-name table maps to a name character.
pub open spec fn is_header_name_char(c: char) -> bool {
    ||| '#' <= c && c <= '\''
    ||| c == '!' || c == '"' || c == '*' || c == '+' || c == '-' || c == '.'
    ||| c == '^' || c == '_' || c == '`' || c == '|' || c == '~'
    ||| '0' <= c && c <= '9'
    ||| 'A' <= c && c <= 'Z'
    ||| 'a' <= c && c <= 'z'
}

/// The longest header name that `http` accepts.
pub const MAX_HEADER_NAME_LEN: usize = 65535;

/// A string that `http::HeaderName::from_bytes` accepts.
pub open spec fn is_header_name(s: Seq<char>) -> bool {
    &&& 0 < s.len() <= MAX_HEADER_NAME_LEN
    &&& forall|i: int| 0 <= i < s.len() ==> is_header_name_char(#[trigger] s[i])
}

/// A character whose UTF-8 bytes `http` allows in a header value: anything
/// but control characters and DEL, with horizontal tab allowed.
pub open spec fn is_header_value_char(c: char) -> bool {
    (32 <= (c as u32) && (c as u32) != 127) || c == '\t'
}

/// A string that `http::HeaderValue::from_str` accepts.
pub open spec fn is_header_value(s: Seq<char>) -> bool {
    forall|i: int| 0 <= i < s.len() ==> is_header_value_char(#[trigger] s[i])
}

/// Inputs whose base64 length `base64`'s encoder can compute without
/// overflowing.
pub open spec fn encodable_len(n: nat) -> bool {
    n / 3 * 4 + 4 <= usize::MAX
}

/// Relies on `Method::from_str` of `http` (through reqwest): it accepts exactly
/// the non-empty strings of method-table bytes.
#[verifier::external_body]
pub(crate) fn method_parses(s: &str) -> (r: bool)
    ensures
        r == is_method_token(s@),
{
    s.parse::<reqwest::Method>().is_ok()
}

/// Relies on `reqwest::Url::parse` and `Url::has_host`, the two checks
/// reqwest's `IntoUrl` makes before it builds a request.
#[verifier::external_body]
pub(crate) fn url_parses(s: &str) -> (r: bool)
    ensures
        r == url_accepted(s@),
{
    match reqwest::Url::parse(s) {
        Ok(u) => u.has_host(),
        Err(_) => false,
    }
}

/// Relies on `HeaderName::from_bytes` of `http`: it accepts names of 1 to
/// 65535 table bytes and stores them lowercased; `as_str` gives them back.
#[verifier::external_body]
pub(crate) fn header_name_from(s: &str) -> (r: Result<String, reqwest::header::InvalidHeaderName>)
    ensures
        r is Ok <==> is_header_name(s@),
        r matches Ok(n) ==> n@ == ascii_lower(s@),
{
    match reqwest::header::HeaderName::from_bytes(s.as_bytes()) {
        Ok(n) => Ok(n.as_str().to_string()),
        Err(e) => Err(e),
    }
}

/// Relies on `HeaderValue::from_str` of `http`: it refuses a string exactly
/// when one of its bytes is a control byte other than tab, or DEL.
#[verifier::external_body]
pub(crate) fn header_value_check(s: &str) -> (r: Result<(), reqwest::header::InvalidHeaderValue>)
    ensures
        r is Ok <==> is_header_value(s@),
{
    match reqwest::header::HeaderValue::from_str(s) {
        Ok(_) => Ok(()),
        Err(e) => Err(e),
    }
}

/// Relies on `base64::decode`, which decodes with the standard engine.
#[verifier::external_body]
pub(crate) fn base64_decode(s: &str) -> (r: Result<Vec<u8>, base64::DecodeError>)
    ensures
        match r {
            Ok(v) => base64_decoded(s@) == Some(v@),
            Err(_) => base64_decoded(s@) is None,
        },
{
    #[allow(deprecated)]
    base64::decode(s)
}

/// Relies on `Engine::encode` of a `GeneralPurpose` engine built from the
/// standard alphabet and the padding configuration: its output decodes back to
/// the input under the standard engine, and empty input gives empty output.
#[verifier::external_body]
pub(crate) fn base64_encode(b: &[u8]) -> (r: String)
    requires
        encodable_len(b@.len()),
    ensures
        r@ == base64_encoded(b@),
        base64_decoded(r@) == Some(b@),
        b@.len() == 0 ==> r@.len() == 0,
{
    let engine = base64::engine::GeneralPurpose::new(
        &base64::alphabet::STANDARD,
        base64::engine::general_purpose::PAD,
    );
    base64::Engine::encode(&engine, b)
}

/// Relies on `str::to_lowercase`: the result depends on the characters alone,
/// and on ASCII text it lowercases `A` to `Z` and keeps everything else.
#[verifier::external_body]
pub(crate) fn lowercase(s: &str) -> (r: String)
    ensures
        r@ == lower_of(s@),
        all_ascii(s@) ==> r@ == ascii_lower(s@),
{
    s.to_lowercase()
}

} // verus!
