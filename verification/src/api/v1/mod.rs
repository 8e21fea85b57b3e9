//! Version 1 of the API: the response cache that all of its routes share.

pub mod artifacts;
pub mod middleware;
pub mod responses;

use vstd::prelude::*;

verus! {

/// The two roots of the repository.
#[derive(Debug)]
pub struct ApiData {
    /// The root that is handed to clients, for example `https://repo.polyfrost.org/`.
    pub public_maven_url: String,
    /// The root that this server fetches from, where it is not the public one.
    /// It is never handed to clients.
    pub internal_maven_url: Option<String>,
}

impl ApiData {
    /// The root that requests go to: the internal one where it is configured,
    /// else the public one.
    pub open spec fn spec_fetch_base(&self) -> Seq<char> {
        match self.internal_maven_url {
            Some(internal) => internal@,
            None => self.public_maven_url@,
        }
    }

    pub fn fetch_base(&self) -> (r: &str)
        ensures
            r@ == self.spec_fetch_base(),
    {
        match &self.internal_maven_url {
            Some(internal) => internal.as_str(),
            None => self.public_maven_url.as_str(),
        }
    }
}

/// What a cached response is kept under: the request's path and its raw query
/// string, whatever its method or headers.
#[derive(Debug)]
pub struct CacheKey {
    pub path: String,
    pub query: String,
}

impl View for CacheKey {
    type V = (Seq<char>, Seq<char>);

    open spec fn view(&self) -> (Seq<char>, Seq<char>) {
        (self.path@, self.query@)
    }
}

impl Clone for CacheKey {
    fn clone(&self) -> (r: Self)
        ensures
            r@ == self@,
    {
        CacheKey { path: self.path.clone(), query: self.query.clone() }
    }
}

/// A content hash: 256 bits.
pub type ETagType = [u8; 32];

/// One response header.
#[derive(Debug)]
pub struct Header {
    pub name: String,
    pub value: Vec<u8>,
}

impl View for Header {
    type V = (Seq<char>, Seq<u8>);

    open spec fn view(&self) -> (Seq<char>, Seq<u8>) {
        (self.name@, self.value@)
    }
}

impl Clone for Header {
    fn clone(&self) -> (r: Self)
        ensures
            r@ == self@,
    {
        Header { name: self.name.clone(), value: self.value.clone() }
    }
}

/// The views of a list of headers, in order.
pub open spec fn header_views(headers: Seq<Header>) -> Seq<(Seq<char>, Seq<u8>)> {
    headers.map_values(|h: Header| h@)
}

/// Copies a list of headers.
pub fn clone_headers(headers: &Vec<Header>) -> (r: Vec<Header>)
    ensures
        header_views(r@) == header_views(headers@),
{
    let mut out: Vec<Header> = Vec::new();
    let mut i: usize = 0;
    while i < headers.len()
        invariant
            i <= headers.len(),
            out.len() == i,
            forall|j: int| 0 <= j < i ==> out[j]@ == headers[j]@,
        decreases headers.len() - i,
    {
        out.push(headers[i].clone());
        i += 1;
    }
    assert(header_views(out@) =~= header_views(headers@));
    out
}

/// A response as it was sent: its body, its headers, and the hash of the body.
#[derive(Debug)]
pub struct CacheValue {
    pub response: Vec<u8>,
    pub headers: Vec<Header>,
    pub etag: ETagType,
}

pub struct CacheValueView {
    pub response: Seq<u8>,
    pub headers: Seq<(Seq<char>, Seq<u8>)>,
    pub etag: Seq<u8>,
}

impl View for CacheValue {
    type V = CacheValueView;

    open spec fn view(&self) -> CacheValueView {
        CacheValueView {
            response: self.response@,
            headers: header_views(self.headers@),
            etag: self.etag@,
        }
    }
}

impl Clone for CacheValue {
    fn clone(&self) -> (r: Self)
        ensures
            r@ == self@,
    {
        CacheValue {
            response: self.response.clone(),
            headers: clone_headers(&self.headers),
            etag: self.etag,
        }
    }
}

/// `moka::sync::Cache`, the store behind the response cache. Nothing is
/// known of what is inside one but through `cache_stored`.
#[verifier::external_type_specification]
#[verifier::external_body]
#[verifier::reject_recursive_types(K)]
#[verifier::reject_recursive_types(V)]
#[verifier::reject_recursive_types(S)]
pub struct ExCache<K, V, S>(moka::sync::Cache<K, V, S>);

/// The form in which the store keeps a key: path, then query.
pub type StoreKey = (String, String);

/// What a store holds at most: for each key, the value that was last
/// inserted under it. The store may have dropped any of them since.
pub uninterp spec fn cache_stored(store: moka::sync::Cache<StoreKey, CacheValue>) -> Map<
    (Seq<char>, Seq<char>),
    CacheValueView,
>;

/// A store's contents when nothing was ever inserted.
pub open spec fn spec_nothing_stored() -> Map<(Seq<char>, Seq<char>), CacheValueView> {
    Map::empty()
}

/// The longest time to live that a store can be built with: a thousand years
/// of 365 days, in seconds.
pub const MAX_TIME_TO_LIVE: u64 = 31_536_000_000;

/// The bytes that a text takes.
pub open spec fn spec_text_weight(text: Seq<char>) -> int {
    vstd::utf8::encode_utf8(text).len() as int
}

/// The bytes that a list of headers takes: those of every name and value.
pub open spec fn spec_headers_weight(headers: Seq<(Seq<char>, Seq<u8>)>) -> int
    decreases headers.len(),
{
    if headers.len() == 0 {
        0
    } else {
        spec_headers_weight(headers.drop_last()) + spec_text_weight(headers.last().0)
            + headers.last().1.len()
    }
}

/// The sum of the bytes of an entry's key, body and headers, and the 32 of
/// its hash.
pub open spec fn spec_entry_size(key: (Seq<char>, Seq<char>), value: CacheValueView) -> int {
    32 + spec_text_weight(key.0) + spec_text_weight(key.1) + value.response.len()
        + spec_headers_weight(value.headers)
}

/// The weight of one entry: its size, or `u32::MAX` where that is less.
pub open spec fn spec_entry_weight(key: (Seq<char>, Seq<char>), value: CacheValueView) -> int {
    if spec_entry_size(key, value) <= u32::MAX {
        spec_entry_size(key, value)
    } else {
        u32::MAX as int
    }
}

fn add_saturating(weight: u32, bytes: usize) -> (r: u32)
    ensures
        r == (if weight + bytes <= u32::MAX {
            weight + bytes
        } else {
            u32::MAX as int
        }),
{
    if bytes <= (u32::MAX - weight) as usize {
        weight + bytes as u32
    } else {
        u32::MAX
    }
}

/// Weighs one entry for the store's capacity bound.
pub fn entry_weight(path: &str, query: &str, value: &CacheValue) -> (r: u32)
    ensures
        r == spec_entry_weight((path@, query@), value@),
{
    let mut weight: u32 = 32;
    weight = add_saturating(weight, path.as_bytes().len());
    weight = add_saturating(weight, query.as_bytes().len());
    weight = add_saturating(weight, value.response.len());
    let ghost fixed = 32 + spec_text_weight(path@) + spec_text_weight(query@)
        + value.response@.len();
    let ghost views = header_views(value.headers@);
    assert(views.take(0) =~= Seq::<(Seq<char>, Seq<u8>)>::empty());
    assert(spec_headers_weight(views.take(0)) == 0);
    let mut i: usize = 0;
    while i < value.headers.len()
        invariant
            i <= value.headers.len(),
            views == header_views(value.headers@),
            fixed >= 0,
            spec_headers_weight(views.take(i as int)) >= 0,
            weight == (if fixed + spec_headers_weight(views.take(i as int)) <= u32::MAX {
                fixed + spec_headers_weight(views.take(i as int))
            } else {
                u32::MAX as int
            }),
        decreases value.headers.len() - i,
    {
        let header = &value.headers[i];
        proof {
            let next = views.take(i + 1);
            assert(next.drop_last() =~= views.take(i as int));
            assert(next.last() == header@);
            assert(spec_headers_weight(next) == spec_headers_weight(views.take(i as int))
                + spec_text_weight(header@.0) + header@.1.len());
        }
        weight = add_saturating(weight, header.name.as_str().as_bytes().len());
        weight = add_saturating(weight, header.value.len());
        i += 1;
    }
    assert(views.take(value.headers.len() as int) =~= views);
    weight
}

/// Calls `moka::sync::Cache::builder`, and on the builder `max_capacity`,
/// `time_to_live`, `weigher` and `build`. A store that was just built holds
/// nothing. Times to live on which `build` panics are left out.
#[verifier::external_body]
fn store_build(
    max_capacity: u64,
    time_to_live: u64,
) -> (r: moka::sync::Cache<StoreKey, CacheValue>)
    requires
        time_to_live <= MAX_TIME_TO_LIVE,
    ensures
        cache_stored(r) == spec_nothing_stored(),
{
    moka::sync::Cache::builder()
        .max_capacity(max_capacity)
        .time_to_live(std::time::Duration::from_secs(time_to_live))
        .weigher(|k: &StoreKey, v: &CacheValue| entry_weight(&k.0, &k.1, v))
        .build()
}

/// Calls `moka::sync::Cache::get`. Whether an entry is still there depends on
/// the clock and on what the store has evicted; one that is handed out is a
/// clone of the value that was last inserted under the key.
#[verifier::external_body]
fn store_get(
    store: &moka::sync::Cache<StoreKey, CacheValue>,
    key: &CacheKey,
) -> (r: Option<CacheValue>)
    ensures
        r matches Some(value) ==> cache_stored(*store).contains_key(key@) && cache_stored(
            *store,
        )[key@] == value@,
{
    store.get(&(key.path.clone(), key.query.clone()))
}

/// Calls `moka::sync::Cache::insert`: the value takes the place of whatever
/// was kept under the key.
#[verifier::external_body]
fn store_insert(
    store: &mut moka::sync::Cache<StoreKey, CacheValue>,
    key: CacheKey,
    value: CacheValue,
)
    ensures
        cache_stored(*final(store)) == cache_stored(*old(store)).insert(key@, value@),
{
    store.insert((key.path, key.query), value)
}

/// A store of responses, bounded in weight and in age.
///
/// Entries leave it when they are older than its time to live, or when the
/// sum of the weights is over its capacity; nothing else removes one. When
/// an entry leaves is for the store and the clock to say, so a read promises
/// no more than this: what it hands out is what was last inserted under the
/// key. A store has one holder; to share it, put it behind a lock.
pub struct ResponseCache {
    store: moka::sync::Cache<StoreKey, CacheValue>,
}

impl ResponseCache {
    /// For each key, the value that was last inserted under it.
    pub closed spec fn stored(&self) -> Map<(Seq<char>, Seq<char>), CacheValueView> {
        cache_stored(self.store)
    }

    /// A store that holds nothing, for entries of `max_capacity` bytes in all
    /// that live `time_to_live` seconds each.
    pub fn new(max_capacity: u64, time_to_live: u64) -> (r: Option<ResponseCache>)
        ensures
            r is Some <==> time_to_live <= MAX_TIME_TO_LIVE,
            r matches Some(cache) ==> cache.stored() == spec_nothing_stored(),
    {
        if time_to_live <= MAX_TIME_TO_LIVE {
            Some(ResponseCache { store: store_build(max_capacity, time_to_live) })
        } else {
            None
        }
    }

    /// The entry under `key`, where the store still holds one.
    pub fn get(&self, key: &CacheKey) -> (r: Option<CacheValue>)
        ensures
            r matches Some(value) ==> self.stored().contains_key(key@) && self.stored()[key@]
                == value@,
    {
        store_get(&self.store, key)
    }

    /// Puts `value` under `key`, in place of what was there.
    pub fn insert(&mut self, key: CacheKey, value: CacheValue)
        ensures
            final(self).stored() == old(self).stored().insert(key@, value@),
    {
        store_insert(&mut self.store, key, value)
    }
}

/// What a read can find right after an insert: under the key of the insert
/// the value that was inserted, and under every other key what it could find
/// before.
pub proof fn lemma_read_after_insert(
    before: ResponseCache,
    after: ResponseCache,
    key: CacheKey,
    value: CacheValue,
)
    requires
        after.stored() == before.stored().insert(key@, value@),
    ensures
        after.stored().contains_key(key@),
        after.stored()[key@] == value@,
        forall|other: (Seq<char>, Seq<char>)|
            other != key@ ==> (#[trigger] after.stored().contains_key(other))
                == before.stored().contains_key(other),
        forall|other: (Seq<char>, Seq<char>)|
            other != key@ && before.stored().contains_key(other) ==> (
            #[trigger] after.stored()[other]) == before.stored()[other],
{
}

} // verus!
