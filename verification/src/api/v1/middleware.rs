//! Conditional responses: every response that passes is remembered with the
//! hash of its body, and a later request for the same path and query is
//! answered from memory, without a body where the client already holds it.

use vstd::prelude::*;
use vstd::string::{StrSliceExecFns, StringExecFns};
use crate::api::v1::{
    clone_headers, header_views, CacheKey, CacheValue, CacheValueView, ETagType, Header,
    ResponseCache,
};
use crate::digest::{sha256, sha256_digest};
use crate::text::spec_utf8;
use crate::hex::{
    decode_vec, encode_string, lemma_decode_encode, lemma_encode_decode, spec_decode,
    spec_decodes, spec_encode,
};

verus! {

/// A response as the middleware sends it.
#[derive(Debug)]
pub struct Response {
    pub status: u16,
    pub headers: Vec<Header>,
    pub body: Vec<u8>,
}

pub struct ResponseView {
    pub status: u16,
    pub headers: Seq<(Seq<char>, Seq<u8>)>,
    pub body: Seq<u8>,
}

impl View for Response {
    type V = ResponseView;

    open spec fn view(&self) -> ResponseView {
        ResponseView { status: self.status, headers: header_views(self.headers@), body: self.body@ }
    }
}

/// What the middleware does with a request.
#[derive(Debug)]
pub enum Decision {
    /// There is no cache to ask: hand the request on, and send what comes
    /// back as it is.
    PassThrough,
    /// Nothing is remembered: hand the request on, then `remember` what
    /// comes back.
    Forward,
    /// Answer from memory.
    Respond(Response),
}

pub enum DecisionView {
    PassThrough,
    Forward,
    Respond(ResponseView),
}

impl View for Decision {
    type V = DecisionView;

    open spec fn view(&self) -> DecisionView {
        match self {
            Decision::PassThrough => DecisionView::PassThrough,
            Decision::Forward => DecisionView::Forward,
            Decision::Respond(response) => DecisionView::Respond(response@),
        }
    }
}

/// A header value as its bytes.
pub open spec fn spec_header(header: Option<&[u8]>) -> Option<Seq<u8>> {
    match header {
        Some(text) => Some(text@),
        None => None,
    }
}

/// A hash as its bytes.
pub open spec fn spec_condition(condition: Option<ETagType>) -> Option<Seq<u8>> {
    match condition {
        Some(etag) => Some(etag@),
        None => None,
    }
}

/// A remembered response as its view.
pub open spec fn spec_cached(cached: Option<CacheValue>) -> Option<CacheValueView> {
    match cached {
        Some(value) => Some(value@),
        None => None,
    }
}

/// The validator of a body with hash `etag`: the hash in lower-case hex.
pub open spec fn spec_validator(etag: Seq<u8>) -> Seq<u8> {
    spec_encode(etag)
}

/// The header that carries a validator.
pub open spec fn spec_etag_header(etag: Seq<u8>) -> (Seq<char>, Seq<u8>) {
    ("etag"@, spec_validator(etag))
}

/// The hash that a conditional header names: the header must be 64
/// lower-case hex digits, and names the 32 bytes they stand for.
pub open spec fn spec_if_none_match(header: Option<Seq<u8>>) -> Option<Seq<u8>> {
    match header {
        Some(text) => if spec_decodes(text) && text.len() == 64 {
            Some(spec_decode(text))
        } else {
            None
        },
        None => None,
    }
}

/// What is sent for a request, given what is remembered for its path and
/// query and the hash that its conditional header names:
/// - nothing remembered: the request is handed on;
/// - the header names the remembered hash: 304 without a body;
/// - else: 200 with the remembered body.
/// Either answer carries the validator first, then the remembered headers.
pub open spec fn spec_decide(cached: Option<CacheValueView>, condition: Option<Seq<u8>>) -> DecisionView {
    match cached {
        None => DecisionView::Forward,
        Some(value) => DecisionView::Respond(
            ResponseView {
                status: if condition == Some(value.etag) {
                    304
                } else {
                    200
                },
                headers: seq![spec_etag_header(value.etag)] + value.headers,
                body: if condition == Some(value.etag) {
                    Seq::<u8>::empty()
                } else {
                    value.response
                },
            },
        ),
    }
}

/// What is remembered of a response: body, headers, and the hash of the body.
pub open spec fn spec_entry(headers: Seq<(Seq<char>, Seq<u8>)>, body: Seq<u8>) -> CacheValueView {
    CacheValueView { response: body, headers, etag: sha256(body) }
}

fn etag_from(bytes: &Vec<u8>) -> (r: ETagType)
    requires
        bytes.len() == 32,
    ensures
        r@ == bytes@,
{
    let mut out: ETagType = [0u8; 32];
    let mut i: usize = 0;
    while i < 32
        invariant
            i <= 32,
            bytes.len() == 32,
            forall|j: int| 0 <= j < i ==> out[j] == bytes[j],
        decreases 32 - i,
    {
        out[i] = bytes[i];
        i += 1;
    }
    assert(out@ =~= bytes@);
    out
}

fn same_etag(a: &ETagType, b: &ETagType) -> (r: bool)
    ensures
        r == (a@ == b@),
{
    let mut i: usize = 0;
    while i < 32
        invariant
            i <= 32,
            forall|j: int| 0 <= j < i ==> a[j] == b[j],
        decreases 32 - i,
    {
        if a[i] != b[i] {
            assert(a@[i as int] != b@[i as int]);
            return false;
        }
        i += 1;
    }
    assert(a@ =~= b@);
    true
}

/// The validator of a hash, as the bytes of a header value.
pub fn validator(etag: &ETagType) -> (r: Vec<u8>)
    ensures
        r@ == spec_validator(etag@),
{
    encode_string(etag.as_slice())
}

/// Reads the hash that a conditional header names.
pub fn parse_if_none_match(header: Option<&[u8]>) -> (r: Option<ETagType>)
    ensures
        match r {
            Some(etag) => spec_if_none_match(spec_header(header)) == Some(etag@),
            None => spec_if_none_match(spec_header(header)) is None,
        },
{
    match header {
        Some(text) => match decode_vec(text) {
            Some(bytes) => if bytes.len() == 32 {
                Some(etag_from(&bytes))
            } else {
                None
            },
            None => None,
        },
        None => None,
    }
}

fn etag_header(etag: &ETagType) -> (r: Header)
    ensures
        r@ == spec_etag_header(etag@),
{
    Header { name: String::from_str("etag"), value: validator(etag) }
}

/// Decides what to send, given what the cache held for the request.
pub fn decide(cached: Option<CacheValue>, condition: Option<ETagType>) -> (r: Decision)
    ensures
        r@ == spec_decide(
            spec_cached(cached),
            spec_condition(condition),
        ),
{
    match cached {
        None => Decision::Forward,
        Some(value) => {
            let matches = match &condition {
                Some(etag) => same_etag(etag, &value.etag),
                None => false,
            };
            let mut headers: Vec<Header> = Vec::new();
            headers.push(etag_header(&value.etag));
            let mut stored = value.headers;
            let ghost kept = stored@;
            headers.append(&mut stored);
            assert(header_views(headers@) =~= seq![spec_etag_header(value.etag@)] + header_views(
                kept,
            ));
            if matches {
                Decision::Respond(Response { status: 304, headers, body: Vec::new() })
            } else {
                Decision::Respond(Response { status: 200, headers, body: value.response })
            }
        },
    }
}

/// The first step for a request: asks the cache, where there is one, and
/// decides from what it holds.
///
/// Whether the cache still holds an entry is for the cache to say; an answer
/// from memory is always made from the entry that was last remembered for
/// this path and query.
pub fn etag_middleware(
    cache: Option<&ResponseCache>,
    key: &CacheKey,
    if_none_match: Option<&[u8]>,
) -> (r: Decision)
    ensures
        cache is None ==> r@ == DecisionView::PassThrough,
        cache matches Some(c) ==> r@ == DecisionView::Forward || (c.stored().contains_key(key@)
            && r@ == spec_decide(
            Some(c.stored()[key@]),
            spec_if_none_match(spec_header(if_none_match)),
        )),
{
    match cache {
        None => Decision::PassThrough,
        Some(c) => {
            let condition = parse_if_none_match(if_none_match);
            let cached = c.get(key);
            decide(cached, condition)
        },
    }
}

/// The second step, for a response that was handed back with its body read
/// in full: remembers it under the request's path and query, whatever its
/// status, and adds the validator of its body to its headers.
pub fn remember(
    cache: &mut ResponseCache,
    key: CacheKey,
    status: u16,
    headers: Vec<Header>,
    body: Vec<u8>,
) -> (r: Response)
    ensures
        final(cache).stored() == old(cache).stored().insert(
            key@,
            spec_entry(header_views(headers@), body@),
        ),
        r@ == (ResponseView {
            status,
            headers: header_views(headers@).push(spec_etag_header(sha256(body@))),
            body: body@,
        }),
{
    let etag = sha256_digest(body.as_slice());
    let stored = clone_headers(&headers);
    let kept = body.clone();
    cache.insert(key, CacheValue { response: kept, headers: stored, etag });
    let mut headers = headers;
    let ghost before = headers@;
    headers.push(etag_header(&etag));
    assert(header_views(headers@) =~= header_views(before).push(spec_etag_header(etag@)));
    Response { status, headers, body }
}

/// The answer where the body of a response could not be read: a server
/// error that says so.
pub fn unreadable_body() -> (r: Response)
    ensures
        r@ == (ResponseView {
            status: 500,
            headers: Seq::empty(),
            body: spec_utf8("Unable to read response bytes for caching, should never happen"@),
        }),
{
    let text = "Unable to read response bytes for caching, should never happen";
    let r = Response { status: 500, headers: Vec::new(), body: text.as_bytes_vec() };
    assert(header_views(r.headers@) =~= Seq::empty());
    r
}

/// The validator of a body is 64 lower-case hex digits that decode to the
/// hash of the body.
pub proof fn lemma_validator_decodes_to_hash(etag: ETagType)
    ensures
        spec_if_none_match(Some(spec_validator(etag@))) == Some(etag@),
{
    lemma_decode_encode(etag@);
    assert(spec_validator(etag@).len() == 64);
}

/// A conditional header names the remembered hash only if it is the
/// validator of that hash, digit for digit.
pub proof fn lemma_only_validator_matches(etag: ETagType, header: Option<Seq<u8>>)
    ensures
        spec_if_none_match(header) == Some(etag@) <==> header == Some(spec_validator(etag@)),
{
    lemma_validator_decodes_to_hash(etag);
    if spec_if_none_match(header) == Some(etag@) {
        lemma_encode_decode(header->Some_0);
    }
}

/// Once a response is remembered for a path and query, a request for them
/// that is answered from memory
/// - gets 304 and no body where it sends the validator of that response;
/// - gets 200 and the remembered body where it sends any other conditional
///   header, or none;
/// and in both cases the validator first, then the remembered headers.
pub proof fn lemma_remembered_is_served(
    before: ResponseCache,
    after: ResponseCache,
    key: CacheKey,
    value: CacheValue,
    header: Option<Seq<u8>>,
)
    requires
        after.stored() == before.stored().insert(key@, value@),
    ensures
        after.stored().contains_key(key@),
        header == Some(spec_validator(value.etag@)) ==> spec_decide(
            Some(after.stored()[key@]),
            spec_if_none_match(header),
        ) == DecisionView::Respond(
            ResponseView {
                status: 304,
                headers: seq![spec_etag_header(value.etag@)] + value@.headers,
                body: Seq::empty(),
            },
        ),
        header != Some(spec_validator(value.etag@)) ==> spec_decide(
            Some(after.stored()[key@]),
            spec_if_none_match(header),
        ) == DecisionView::Respond(
            ResponseView {
                status: 200,
                headers: seq![spec_etag_header(value.etag@)] + value@.headers,
                body: value.response@,
            },
        ),
{
    lemma_only_validator_matches(value.etag, header);
}

} // verus!
