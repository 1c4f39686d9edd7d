//! Properties of a whole fetch that follow from the contracts of request
//! preparation and response handling.
use vstd::prelude::*;
use crate::headers::pairs_view;
use crate::outside::{base64_decoded, is_header_name, is_header_name_char, lower_of};
use crate::request::{
    custom_pairs, invalid_reason, is_binary, prepared_from, referer_name, referrer_headers,
    request_headers, staged_headers, PreparedRequest, RedirectPolicy, RequestBody,
    RequestDescriptor,
};
use crate::response::{
    body_kind_of, collected_headers, content_type_name, enveloped, payload_fits, planned_from, BodyKind, BodyPayload, ResponseEnvelope, ResponsePlan,
};
use crate::text::{ascii_lower, ascii_lower_char, is_visible_text};

verus! {

/// The envelope of a response carries its status unchanged.
pub proof fn status_is_kept(
    status: u16,
    raw: Seq<(Seq<char>, Seq<char>)>,
    plan: ResponsePlan,
    payload: BodyPayload,
    env: ResponseEnvelope,
)
    requires
        planned_from(status, raw, plan),
        enveloped(plan, payload, env),
    ensures
        env.status == status,
{
}

/// Unless the redirect mode is `"manual"`, the request follows redirects, and
/// the envelope reports the status of the response the transport ends on.
pub proof fn redirects_followed_unless_manual(
    d: RequestDescriptor,
    p: PreparedRequest,
    status: u16,
    raw: Seq<(Seq<char>, Seq<char>)>,
    plan: ResponsePlan,
    payload: BodyPayload,
    env: ResponseEnvelope,
)
    requires
        prepared_from(d, p),
        d.redirect matches Some(r) ==> r@ != "manual"@,
        planned_from(status, raw, plan),
        enveloped(plan, payload, env),
    ensures
        p.redirect == RedirectPolicy::Follow,
        env.status == status,
{
}

/// A received header stays in the collected headers once taken in: later
/// headers only add names or replace values.
pub proof fn lemma_collected_keeps(raw: Seq<(Seq<char>, Seq<char>)>, i: int)
    requires
        0 <= i < raw.len(),
        is_visible_text(raw[i].1),
    ensures
        collected_headers(raw).contains_key(lower_of(raw[i].0)),
    decreases raw.len(),
{
    if i < raw.len() - 1 {
        lemma_collected_keeps(raw.drop_last(), i);
    }
}

/// In manual redirect mode, a 3xx response comes back as it is: the envelope
/// has its status, and a `Location` header with a visible value is listed
/// under `location`.
pub proof fn manual_redirect_returned(
    d: RequestDescriptor,
    p: PreparedRequest,
    status: u16,
    raw: Seq<(Seq<char>, Seq<char>)>,
    i: int,
    plan: ResponsePlan,
    payload: BodyPayload,
    env: ResponseEnvelope,
)
    requires
        prepared_from(d, p),
        d.redirect matches Some(r) && r@ == "manual"@,
        300 <= status < 400,
        planned_from(status, raw, plan),
        enveloped(plan, payload, env),
        0 <= i < raw.len(),
        lower_of(raw[i].0) == "location"@,
        is_visible_text(raw[i].1),
    ensures
        p.redirect == RedirectPolicy::Manual,
        env.status == status,
        300 <= env.status < 400,
        exists|j: int|
            0 <= j < env.headers@.len() && (#[trigger] pairs_view(env.headers@)[j]).0 == "location"@,
{
    lemma_collected_keeps(raw, i);
    let m = collected_headers(raw);
    assert(m.contains_key("location"@));
    assert(pairs_view(env.headers@) == pairs_view(plan.headers@));
}

/// A binary body sent as valid base64 and echoed back as binary comes back as
/// base64 that decodes to the bytes sent.
pub proof fn binary_body_round_trip(
    d: RequestDescriptor,
    p: PreparedRequest,
    echoed: Vec<u8>,
    plan: ResponsePlan,
    env: ResponseEnvelope,
)
    requires
        is_binary(d),
        d.body matches Some(s) && base64_decoded(s@) is Some,
        prepared_from(d, p),
        p.body matches Some(RequestBody::Binary(sent)) && echoed@ == sent@,
        enveloped(plan, BodyPayload::Binary(Some(echoed)), env),
    ensures
        env.is_base64,
        base64_decoded(env.body@) == base64_decoded(d.body->0@),
{
}

/// The content types `application/json` and `text/plain`, and the absence of a
/// content type, select a text body.
pub proof fn lemma_text_types(m: Map<Seq<char>, Seq<char>>)
    requires
        !m.contains_key(content_type_name()) || m[content_type_name()] == "application/json"@
            || m[content_type_name()] == "text/plain"@,
    ensures
        body_kind_of(m) == BodyKind::Text,
{
    reveal_strlit("application/json");
    reveal_strlit("text/plain");
    reveal_strlit("text/");
    if m.contains_key(content_type_name()) {
        let v = m[content_type_name()];
        assert(ascii_lower(v) =~= v);
        if v == "text/plain"@ {
            assert(v.subrange(0, 5) =~= "text/"@);
        } else {
            assert(v.subrange(0, 16) =~= "application/json"@);
        }
    }
}

/// The content types `application/octet-stream` and `image/png` select a
/// binary body.
pub proof fn lemma_binary_types(m: Map<Seq<char>, Seq<char>>)
    requires
        m.contains_key(content_type_name()),
        m[content_type_name()] == "application/octet-stream"@ || m[content_type_name()]
            == "image/png"@,
    ensures
        body_kind_of(m) == BodyKind::Binary,
{
    reveal_strlit("application/octet-stream");
    reveal_strlit("image/png");
    reveal_strlit("application/json");
    reveal_strlit("text/");
    let v = m[content_type_name()];
    assert(ascii_lower(v) =~= v);
    assert(v.subrange(0, 5)[0] != "text/"@[0]);
    if v == "application/octet-stream"@ {
        assert(v.subrange(0, 16)[12] != "application/json"@[12]);
    }
}

/// A response typed `application/json` or `text/plain`, or with no content
/// type, is never delivered as base64.
pub proof fn text_types_not_base64(
    status: u16,
    raw: Seq<(Seq<char>, Seq<char>)>,
    plan: ResponsePlan,
    payload: BodyPayload,
    env: ResponseEnvelope,
)
    requires
        ({
            let m = collected_headers(raw);
            !m.contains_key(content_type_name()) || m[content_type_name()] == "application/json"@
                || m[content_type_name()] == "text/plain"@
        }),
        planned_from(status, raw, plan),
        payload_fits(plan.kind, payload),
        enveloped(plan, payload, env),
    ensures
        !env.is_base64,
{
    lemma_text_types(collected_headers(raw));
}

/// A response typed `application/octet-stream` or `image/png` is always
/// delivered as base64 that decodes.
pub proof fn binary_types_base64(
    status: u16,
    raw: Seq<(Seq<char>, Seq<char>)>,
    plan: ResponsePlan,
    payload: BodyPayload,
    env: ResponseEnvelope,
)
    requires
        ({
            let m = collected_headers(raw);
            m.contains_key(content_type_name()) && (m[content_type_name()]
                == "application/octet-stream"@ || m[content_type_name()] == "image/png"@)
        }),
        planned_from(status, raw, plan),
        payload_fits(plan.kind, payload),
        enveloped(plan, payload, env),
    ensures
        env.is_base64,
        base64_decoded(env.body@) is Some,
{
    lemma_binary_types(collected_headers(raw));
}

/// Lowercasing keeps a header name valid.
pub proof fn lemma_lower_name(n: Seq<char>)
    requires
        is_header_name(n),
    ensures
        is_header_name(ascii_lower(n)),
{
    assert forall|i: int| 0 <= i < ascii_lower(n).len() implies is_header_name_char(
        #[trigger] ascii_lower(n)[i],
    ) by {
        assert(is_header_name_char(n[i]));
        let c = n[i];
        if 'A' <= c && c <= 'Z' {
            assert(ascii_lower_char(c) as u32 == c as u32 + 32);
        }
    }
}

/// Every name staged over valid names is a valid header name.
pub proof fn lemma_staged_names(init: Map<Seq<char>, Seq<char>>, pairs: Seq<(Seq<char>, Seq<char>)>)
    requires
        forall|k: Seq<char>| #[trigger] init.contains_key(k) ==> is_header_name(k),
    ensures
        forall|k: Seq<char>| #[trigger] staged_headers(init, pairs).contains_key(k) ==> is_header_name(k),
    decreases pairs.len(),
{
    if pairs.len() > 0 {
        lemma_staged_names(init, pairs.drop_last());
        let p = pairs.last();
        if is_header_name(p.0) {
            lemma_lower_name(p.0);
        }
        let m0 = staged_headers(init, pairs.drop_last());
        assert forall|k: Seq<char>| #[trigger] staged_headers(init, pairs).contains_key(k) implies is_header_name(k) by {
            if !m0.contains_key(k) {
                assert(k == ascii_lower(p.0));
            }
        }
    }
}

/// Custom headers never make a request fail, and a custom header whose name is
/// not a valid header name (a space or a control character in it, say) is not
/// sent: every name staged for sending is a valid header name.
pub proof fn invalid_header_names_dropped(d: RequestDescriptor)
    ensures
        invalid_reason(d) == invalid_reason(RequestDescriptor { headers: None, ..d }),
        forall|k: Seq<char>| #[trigger] request_headers(d).contains_key(k) ==> is_header_name(k),
{
    reveal_strlit("referer");
    assert(is_header_name(referer_name()));
    lemma_staged_names(referrer_headers(d.referrer), custom_pairs(d.headers));
}

/// A body marked binary that is not valid base64 makes the request fail before
/// it is sent.
pub proof fn invalid_binary_body_refused(d: RequestDescriptor)
    requires
        is_binary(d),
        d.body matches Some(b) && base64_decoded(b@) is None,
    ensures
        invalid_reason(d) is Some,
{
}

} // verus!
