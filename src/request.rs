//! Turning a request description into a request ready to send.
use vstd::prelude::*;
use crate::error::{FetchError, InvalidReason};
use crate::headers::{lists_map, pairs_view, put_header};
use crate::outside::{
    base64_decode, base64_decoded, header_name_from, header_value_check, is_header_name,
    is_header_value, is_method_token, method_parses, url_accepted, url_parses,
};
use crate::text::{ascii_lower, text_eq};

verus! {

/// What the caller asks to be sent.
pub struct RequestDescriptor {
    /// Absolute URL of the resource.
    pub url: String,
    /// HTTP method name.
    pub method: String,
    /// The body: text, or base64 of binary content when `is_body_binary` is set.
    pub body: Option<String>,
    /// Whether `body` is base64 that must be decoded before sending.
    pub is_body_binary: Option<bool>,
    /// Custom header pairs, applied in order.
    pub headers: Option<Vec<(String, String)>>,
    /// Redirect mode; `"manual"` turns off following redirects.
    pub redirect: Option<String>,
    /// Sent as the `Referer` header when present.
    pub referrer: Option<String>,
}

/// Whether the transport follows redirects.
#[derive(Clone, Copy, Debug, PartialEq, Eq, Structural)]
pub enum RedirectPolicy {
    /// Follow redirects with the transport's default policy.
    Follow,
    /// Hand 3xx responses back as they are.
    Manual,
}

/// The payload of a prepared request.
#[derive(Debug)]
pub enum RequestBody {
    Text(String),
    Binary(Vec<u8>),
}

/// A request whose every part has been checked; sending it is all that is left.
#[derive(Debug)]
pub struct PreparedRequest {
    pub method: String,
    pub url: String,
    pub redirect: RedirectPolicy,
    /// Headers to send, one entry per (lowercase) name.
    pub headers: Vec<(String, String)>,
    pub body: Option<RequestBody>,
}

/// The redirect policy a redirect mode selects.
pub open spec fn redirect_policy_of(redirect: Option<String>) -> RedirectPolicy {
    match redirect {
        Some(r) => if r@ == "manual"@ {
            RedirectPolicy::Manual
        } else {
            RedirectPolicy::Follow
        },
        None => RedirectPolicy::Follow,
    }
}

/// Chooses the redirect policy for a redirect mode.
pub fn redirect_policy(redirect: &Option<String>) -> (r: RedirectPolicy)
    ensures
        r == redirect_policy_of(*redirect),
{
    match redirect {
        Some(s) => if text_eq(s.as_str(), "manual") {
            RedirectPolicy::Manual
        } else {
            RedirectPolicy::Follow
        },
        None => RedirectPolicy::Follow,
    }
}

/// The name under which the referrer is sent.
pub open spec fn referer_name() -> Seq<char> {
    seq!['r', 'e', 'f', 'e', 'r', 'e', 'r']
}

/// A header pair as it is sent: under its lowercase name when both name and
/// value are valid, and not at all otherwise.
pub open spec fn validated(p: (Seq<char>, Seq<char>)) -> Option<(Seq<char>, Seq<char>)> {
    if is_header_name(p.0) && is_header_value(p.1) {
        Some((ascii_lower(p.0), p.1))
    } else {
        None
    }
}

/// The result of applying one header pair: kept when valid, dropped otherwise.
pub open spec fn apply_header(
    m: Map<Seq<char>, Seq<char>>,
    p: (Seq<char>, Seq<char>),
) -> Map<Seq<char>, Seq<char>> {
    match validated(p) {
        Some(q) => m.insert(q.0, q.1),
        None => m,
    }
}

/// Checks one header pair against HTTP's name and value grammar; a valid pair
/// comes back with its name lowercased.
pub fn validate_header(name: &str, value: &str) -> (r: Option<(String, String)>)
    ensures
        match r {
            Some(q) => validated((name@, value@)) == Some((q.0@, q.1@)),
            None => validated((name@, value@)) is None,
        },
{
    match header_name_from(name) {
        Ok(n) => match header_value_check(value) {
            Ok(()) => Some((n, value.to_owned())),
            Err(_) => None,
        },
        Err(_) => None,
    }
}

/// The headers after applying `pairs` in order over `init`.
pub open spec fn staged_headers(
    init: Map<Seq<char>, Seq<char>>,
    pairs: Seq<(Seq<char>, Seq<char>)>,
) -> Map<Seq<char>, Seq<char>>
    decreases pairs.len(),
{
    if pairs.len() == 0 {
        init
    } else {
        apply_header(staged_headers(init, pairs.drop_last()), pairs.last())
    }
}

/// The headers staged before the custom ones: the referrer, if any.
pub open spec fn referrer_headers(referrer: Option<String>) -> Map<Seq<char>, Seq<char>> {
    match referrer {
        Some(r) => map![referer_name() => r@],
        None => Map::empty(),
    }
}

/// The custom header pairs of a description.
pub open spec fn custom_pairs(headers: Option<Vec<(String, String)>>) -> Seq<(Seq<char>, Seq<char>)> {
    match headers {
        Some(h) => pairs_view(h@),
        None => Seq::empty(),
    }
}

/// The headers a description asks to send: the referrer, then each valid
/// custom pair, a later value replacing an earlier one of the same name.
pub open spec fn request_headers(d: RequestDescriptor) -> Map<Seq<char>, Seq<char>> {
    staged_headers(referrer_headers(d.referrer), custom_pairs(d.headers))
}

/// Whether a description's body is to be decoded from base64.
pub open spec fn is_binary(d: RequestDescriptor) -> bool {
    d.is_body_binary == Some(true)
}

/// Why a description is refused, checked in this order: method, URL,
/// referrer, body. Headers never make it refused.
pub open spec fn invalid_reason(d: RequestDescriptor) -> Option<InvalidReason> {
    if !is_method_token(d.method@) {
        Some(InvalidReason::Method)
    } else if !url_accepted(d.url@) {
        Some(InvalidReason::Url)
    } else if d.referrer matches Some(r) && !is_header_value(r@) {
        Some(InvalidReason::Referrer)
    } else if is_binary(d) && (d.body matches Some(b) && base64_decoded(b@) is None) {
        Some(InvalidReason::Body)
    } else {
        None
    }
}

/// `body` is the payload a description asks to send.
pub open spec fn body_prepared(d: RequestDescriptor, body: Option<RequestBody>) -> bool {
    match d.body {
        None => body is None,
        Some(s) => if is_binary(d) {
            body matches Some(RequestBody::Binary(v)) && base64_decoded(s@) == Some(v@)
        } else {
            body matches Some(RequestBody::Text(t)) && t@ == s@
        },
    }
}

/// `p` is the request that description `d` asks to send.
pub open spec fn prepared_from(d: RequestDescriptor, p: PreparedRequest) -> bool {
    &&& p.method@ == d.method@
    &&& p.url@ == d.url@
    &&& p.redirect == redirect_policy_of(d.redirect)
    &&& lists_map(pairs_view(p.headers@), request_headers(d))
    &&& body_prepared(d, p.body)
}

/// The headers to send: the referrer under `referer`, then every custom pair
/// whose name and value are both valid, under its lowercase name.
pub fn stage_headers(
    referrer: &Option<String>,
    headers: &Option<Vec<(String, String)>>,
) -> (r: Vec<(String, String)>)
    ensures
        lists_map(
            pairs_view(r@),
            staged_headers(referrer_headers(*referrer), custom_pairs(*headers)),
        ),
{
    let mut out: Vec<(String, String)> = Vec::new();
    let ghost init = referrer_headers(*referrer);
    match referrer {
        Some(r) => {
            let name = "referer".to_owned();
            proof {
                reveal_strlit("referer");
            }
            assert(name@ =~= referer_name());
            put_header(&mut out, name, r.clone(), Ghost(Map::empty()));
            assert(Map::<Seq<char>, Seq<char>>::empty().insert(referer_name(), r@) =~= init);
        },
        None => {
            assert(pairs_view(out@) =~= Seq::empty());
        },
    }
    match headers {
        Some(h) => {
            let ghost ps = pairs_view(h@);
            let mut i: usize = 0;
            while i < h.len()
                invariant
                    i <= h.len(),
                    ps == pairs_view(h@),
                    lists_map(pairs_view(out@), staged_headers(init, ps.take(i as int))),
                decreases h.len() - i,
            {
                let ghost before = staged_headers(init, ps.take(i as int));
                assert(ps.take(i + 1).drop_last() =~= ps.take(i as int));
                assert(ps.take(i + 1).last() == ps[i as int]);
                let pair = &h[i];
                match validate_header(pair.0.as_str(), pair.1.as_str()) {
                    Some(q) => {
                        put_header(&mut out, q.0, q.1, Ghost(before));
                    },
                    None => {},
                }
                i = i + 1;
            }
            assert(ps.take(h.len() as int) =~= ps);
        },
        None => {},
    }
    out
}

/// Checks a description and prepares the request it asks for. Fails with the
/// first reason `invalid_reason` gives, before anything is sent.
pub fn prepare_request(d: &RequestDescriptor) -> (r: Result<PreparedRequest, FetchError>)
    ensures
        match r {
            Ok(p) => invalid_reason(*d) is None && prepared_from(*d, p),
            Err(e) => invalid_reason(*d) matches Some(why) && e == FetchError::InvalidRequest(why),
        },
{
    if !method_parses(d.method.as_str()) {
        return Err(FetchError::InvalidRequest(InvalidReason::Method));
    }
    if !url_parses(d.url.as_str()) {
        return Err(FetchError::InvalidRequest(InvalidReason::Url));
    }
    match &d.referrer {
        Some(r) => match header_value_check(r.as_str()) {
            Ok(()) => {},
            Err(_) => {
                return Err(FetchError::InvalidRequest(InvalidReason::Referrer));
            },
        },
        None => {},
    }
    let binary = match d.is_body_binary {
        Some(b) => b,
        None => false,
    };
    let body = match &d.body {
        Some(s) => if binary {
            match base64_decode(s.as_str()) {
                Ok(v) => Some(RequestBody::Binary(v)),
                Err(_) => {
                    return Err(FetchError::InvalidRequest(InvalidReason::Body));
                },
            }
        } else {
            Some(RequestBody::Text(s.clone()))
        },
        None => None,
    };
    let headers = stage_headers(&d.referrer, &d.headers);
    Ok(
        PreparedRequest {
            method: d.method.clone(),
            url: d.url.clone(),
            redirect: redirect_policy(&d.redirect),
            headers,
            body,
        },
    )
}

} // verus!
