//! Normalising a received response into an envelope.
use vstd::prelude::*;
use crate::headers::{lists_map, pairs_view, put_header};
use crate::outside::{base64_decoded, base64_encode, base64_encoded, encodable_len, lower_of, lowercase};
use crate::text::{
    all_ascii, ascii_lower, has_prefix, is_visible_char, is_visible_text, starts_with, text_eq,
    visible_text,
};

verus! {

/// How a response body is carried in the envelope.
#[derive(Clone, Copy, Debug, PartialEq, Eq, Structural)]
pub enum BodyKind {
    /// As text.
    Text,
    /// As base64 of the raw bytes.
    Binary,
}

/// The body kind a lowercase content type selects: text for `text/...`,
/// `application/json...` and the empty type; binary for everything else.
pub open spec fn classify(content_type: Seq<char>) -> BodyKind {
    if content_type.len() == 0 || starts_with(content_type, "text/"@) || starts_with(
        content_type,
        "application/json"@,
    ) {
        BodyKind::Text
    } else {
        BodyKind::Binary
    }
}

/// Decides by prefix alone whether a (lowercase) content type is text.
pub fn classify_body(content_type: &str) -> (r: BodyKind)
    ensures
        r == classify(content_type@),
{
    if content_type.is_empty() || has_prefix(content_type, "text/") || has_prefix(
        content_type,
        "application/json",
    ) {
        BodyKind::Text
    } else {
        BodyKind::Binary
    }
}

/// The result of taking in one received header: kept under its lowercase name
/// when its value is visible text, skipped otherwise.
pub open spec fn collect_header(
    m: Map<Seq<char>, Seq<char>>,
    p: (Seq<char>, Seq<char>),
) -> Map<Seq<char>, Seq<char>> {
    if is_visible_text(p.1) {
        m.insert(lower_of(p.0), p.1)
    } else {
        m
    }
}

/// The envelope headers for received pairs, a later value of a name
/// replacing an earlier one.
pub open spec fn collected_headers(pairs: Seq<(Seq<char>, Seq<char>)>) -> Map<Seq<char>, Seq<char>>
    decreases pairs.len(),
{
    if pairs.len() == 0 {
        Map::empty()
    } else {
        collect_header(collected_headers(pairs.drop_last()), pairs.last())
    }
}

/// The name of the content type header.
pub open spec fn content_type_name() -> Seq<char> {
    "content-type"@
}

/// The body kind that collected headers select; no content type means text.
pub open spec fn body_kind_of(m: Map<Seq<char>, Seq<char>>) -> BodyKind {
    if m.contains_key(content_type_name()) {
        classify(ascii_lower(m[content_type_name()]))
    } else {
        BodyKind::Text
    }
}

/// Every collected header value is visible text.
pub proof fn lemma_collected_visible(pairs: Seq<(Seq<char>, Seq<char>)>)
    ensures
        forall|k: Seq<char>| #[trigger] collected_headers(pairs).contains_key(k)
            ==> is_visible_text(collected_headers(pairs)[k]),
    decreases pairs.len(),
{
    if pairs.len() > 0 {
        let m0 = collected_headers(pairs.drop_last());
        lemma_collected_visible(pairs.drop_last());
        assert forall|k: Seq<char>| #[trigger] collected_headers(pairs).contains_key(k) implies is_visible_text(
            collected_headers(pairs)[k],
        ) by {
            if is_visible_text(pairs.last().1) && k == lower_of(pairs.last().0) {
            } else {
                assert(m0.contains_key(k));
            }
        }
    }
}

/// Lowercases each received header name and keeps the headers whose value is
/// visible text, the last value of a name winning.
pub fn collect_response_headers(raw: &Vec<(String, String)>) -> (r: Vec<(String, String)>)
    ensures
        lists_map(pairs_view(r@), collected_headers(pairs_view(raw@))),
{
    let ghost ps = pairs_view(raw@);
    let mut out: Vec<(String, String)> = Vec::new();
    assert(pairs_view(out@) =~= Seq::empty());
    assert(ps.take(0) =~= Seq::empty());
    let mut i: usize = 0;
    while i < raw.len()
        invariant
            i <= raw.len(),
            ps == pairs_view(raw@),
            lists_map(pairs_view(out@), collected_headers(ps.take(i as int))),
        decreases raw.len() - i,
    {
        let ghost before = collected_headers(ps.take(i as int));
        assert(ps.take(i + 1).drop_last() =~= ps.take(i as int));
        assert(ps.take(i + 1).last() == ps[i as int]);
        let pair = &raw[i];
        if visible_text(pair.1.as_str()) {
            let name = lowercase(pair.0.as_str());
            put_header(&mut out, name, pair.1.clone(), Ghost(before));
        }
        i = i + 1;
    }
    assert(ps.take(raw.len() as int) =~= ps);
    out
}

/// What to do with a received response: its status, its envelope headers and
/// how its body is to be read.
#[derive(Debug)]
pub struct ResponsePlan {
    pub status: u16,
    pub headers: Vec<(String, String)>,
    pub kind: BodyKind,
}

/// `plan` is what a response with `status` and received headers `raw` calls for.
pub open spec fn planned_from(status: u16, raw: Seq<(Seq<char>, Seq<char>)>, plan: ResponsePlan) -> bool {
    &&& plan.status == status
    &&& lists_map(pairs_view(plan.headers@), collected_headers(raw))
    &&& plan.kind == body_kind_of(collected_headers(raw))
}

/// Collects the headers of a received response and decides from its content
/// type whether the body is read as text or as bytes.
pub fn plan_response(status: u16, raw_headers: &Vec<(String, String)>) -> (r: ResponsePlan)
    ensures
        planned_from(status, pairs_view(raw_headers@), r),
{
    let headers = collect_response_headers(raw_headers);
    let ghost m = collected_headers(pairs_view(raw_headers@));
    let ghost hs = pairs_view(headers@);
    proof {
        lemma_collected_visible(pairs_view(raw_headers@));
        reveal_strlit("content-type");
    }
    let mut i: usize = 0;
    let mut hit = false;
    while i < headers.len() && !hit
        invariant
            hs == pairs_view(headers@),
            lists_map(hs, m),
            i <= headers.len(),
            hit ==> i < headers.len() && hs[i as int].0 == content_type_name(),
            !hit ==> forall|j: int| 0 <= j < i ==> hs[j].0 != content_type_name(),
        decreases 2 * (headers.len() - i) + (if hit { 0int } else { 1int }),
    {
        if text_eq(headers[i].0.as_str(), "content-type") {
            hit = true;
        } else {
            i = i + 1;
        }
    }
    let kind = if hit {
        let value = &headers[i].1;
        assert(hs[i as int].1 == m[content_type_name()]);
        assert(all_ascii(value@)) by {
            assert forall|j: int| 0 <= j < value@.len() implies (#[trigger] value@[j]) as u32 <= 127 by {
                assert(is_visible_char(value@[j]));
            }
        }
        let lowered = lowercase(value.as_str());
        classify_body(lowered.as_str())
    } else {
        assert(!m.contains_key(content_type_name()));
        BodyKind::Text
    };
    ResponsePlan { status, headers, kind }
}

/// The body as read by the transport: text, or raw bytes; `None` where
/// reading or decoding failed.
#[derive(Debug)]
pub enum BodyPayload {
    Text(Option<String>),
    Binary(Option<Vec<u8>>),
}

/// Whether a payload was read the way a body kind asks.
pub open spec fn payload_fits(kind: BodyKind, payload: BodyPayload) -> bool {
    match kind {
        BodyKind::Text => payload is Text,
        BodyKind::Binary => payload is Binary,
    }
}

/// The normalised response handed back to the caller.
#[derive(Debug)]
pub struct ResponseEnvelope {
    pub status: u16,
    /// One entry per lowercase header name.
    pub headers: Vec<(String, String)>,
    /// The text body, or base64 of the binary body.
    pub body: String,
    /// Whether `body` is base64.
    pub is_base64: bool,
}

/// `env` is the envelope for `plan` and the body read as `payload`.
pub open spec fn enveloped(plan: ResponsePlan, payload: BodyPayload, env: ResponseEnvelope) -> bool {
    &&& env.status == plan.status
    &&& env.headers@ == plan.headers@
    &&& match payload {
        BodyPayload::Text(Some(s)) => !env.is_base64 && env.body@ == s@,
        BodyPayload::Text(None) => !env.is_base64 && env.body@ == Seq::<char>::empty(),
        BodyPayload::Binary(Some(b)) => env.is_base64 && env.body@ == base64_encoded(b@)
            && base64_decoded(env.body@) == Some(b@),
        BodyPayload::Binary(None) => env.is_base64 && env.body@ == Seq::<char>::empty()
            && base64_decoded(env.body@) == Some(Seq::<u8>::empty()),
    }
}

/// Assembles the envelope: text as it is (empty where it could not be read),
/// bytes as padded standard base64 (empty where they could not be read).
pub fn finish_response(plan: ResponsePlan, payload: BodyPayload) -> (r: ResponseEnvelope)
    requires
        payload matches BodyPayload::Binary(Some(b)) ==> encodable_len(b@.len()),
    ensures
        enveloped(plan, payload, r),
{
    let (body, is_base64) = match payload {
        BodyPayload::Text(Some(s)) => (s, false),
        BodyPayload::Text(None) => (String::new(), false),
        BodyPayload::Binary(Some(b)) => (base64_encode(b.as_slice()), true),
        BodyPayload::Binary(None) => {
            let empty: Vec<u8> = Vec::new();
            let text = base64_encode(empty.as_slice());
            assert(text@ =~= Seq::<char>::empty());
            assert(empty@ =~= Seq::<u8>::empty());
            (text, true)
        },
    };
    ResponseEnvelope { status: plan.status, headers: plan.headers, body, is_base64 }
}

} // verus!
