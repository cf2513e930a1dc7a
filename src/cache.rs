use vstd::prelude::*;
use vstd::string::*;

use crate::error::FetchError;
use crate::headers::{clone_bytes, headers_view, name_is, same_name, Header};
use crate::json::{copy_values, json_text_of, OpaqueJsonArray};
use crate::fetch::{upstream_url, upstream_url_of};
use crate::response::{assemble, result_view, Response};
use crate::route::{minutes_value, parse_minutes, valid_minutes};

verus! {

/// The identity of a cached request: the raw bytes of its effective
/// authorization header (or none), and its path with the query string.
pub type CacheKey = (Option<Vec<u8>>, String);

pub open spec fn key_view(k: CacheKey) -> (Option<Seq<u8>>, Seq<char>) {
    (
        match k.0 {
            Some(a) => Some(a@),
            None => None,
        },
        k.1@,
    )
}

/// A stored result and the instant, in milliseconds, at which it was fetched.
pub struct CacheValue {
    pub values: OpaqueJsonArray,
    pub generated_at: u64,
}

pub open spec fn entry_view(v: CacheValue) -> (Seq<serde_json::Value>, u64) {
    (v.values@, v.generated_at)
}

#[verifier::external_type_specification]
#[verifier::external_body]
#[verifier::reject_recursive_types(K)]
#[verifier::reject_recursive_types(V)]
#[verifier::reject_recursive_types(S)]
pub struct ExTtlCache<K: Eq + core::hash::Hash, V, S: core::hash::BuildHasher>(ttl_cache::TtlCache<K, V, S>);

/// The value most recently inserted under each key of a `TtlCache`. An entry
/// that has expired or was evicted for room is still named here; the cache
/// then finds nothing for its key.
pub uninterp spec fn ttl_inserted(c: ttl_cache::TtlCache<CacheKey, CacheValue>) -> Map<(Option<Seq<u8>>, Seq<char>), (Seq<serde_json::Value>, u64)>;

pub open spec fn no_entries() -> Map<(Option<Seq<u8>>, Seq<char>), (Seq<serde_json::Value>, u64)> {
    Map::empty()
}

/// Relies on `TtlCache::new`: a cache with nothing inserted.
#[verifier::external_body]
fn ttl_new(capacity: usize) -> (r: ttl_cache::TtlCache<CacheKey, CacheValue>)
    ensures
        ttl_inserted(r) == no_entries(),
{
    ttl_cache::TtlCache::new(capacity)
}

/// Relies on `TtlCache::get`: where it finds an entry, that entry is the value
/// last inserted under the key (it may find none, once the entry expired or
/// was evicted).
#[verifier::external_body]
fn ttl_get<'a>(c: &'a ttl_cache::TtlCache<CacheKey, CacheValue>, k: &CacheKey) -> (r: Option<&'a CacheValue>)
    ensures
        r matches Some(v) ==> ttl_inserted(*c).contains_key(key_view(*k)),
        r matches Some(v) ==> ttl_inserted(*c)[key_view(*k)] == entry_view(*v),
{
    c.get(k)
}

/// Relies on `TtlCache::insert`: the new value replaces any earlier one under
/// the key, and expires after `ttl_ms` milliseconds.
#[verifier::external_body]
fn ttl_insert(c: &mut ttl_cache::TtlCache<CacheKey, CacheValue>, k: CacheKey, v: CacheValue, ttl_ms: u64)
    requires
        ttl_ms <= MAX_WINDOW_MS,
    ensures
        ttl_inserted(*final(c)) == ttl_inserted(*old(c)).insert(key_view(k), entry_view(v)),
{
    c.insert(k, v, std::time::Duration::from_millis(ttl_ms));
}

/// How many entries the cache holds at most; beyond that the oldest
/// inserted entry is evicted.
pub const CACHE_CAPACITY: usize = 10000;

pub const MS_PER_MINUTE: u64 = 60000;

/// The longest freshness window a request can ask for.
pub const MAX_WINDOW_MS: u64 = 3932100000;

/// A result fetched at `generated_at` is fresh at `now` for a window of
/// `window_ms` when no more than the window has passed (a clock that went
/// back counts as no time passed).
pub open spec fn is_fresh(generated_at: u64, window_ms: u64, now: u64) -> bool {
    now <= generated_at || now - generated_at <= window_ms
}

/// The freshness window, in milliseconds, for a number of minutes.
pub fn window_ms(minutes: u16) -> (r: u64)
    ensures
        r == minutes as u64 * MS_PER_MINUTE,
        r <= MAX_WINDOW_MS,
{
    minutes as u64 * MS_PER_MINUTE
}

/// A copy of the entry's result where the entry is fresh at `now` for a
/// window of `window_ms`, and nothing otherwise.
pub fn serve_if_fresh(entry: Option<&CacheValue>, window_ms: u64, now: u64) -> (r: Option<OpaqueJsonArray>)
    ensures
        r is Some <==> (entry matches Some(v) && is_fresh(v.generated_at, window_ms, now)),
        r matches Some(a) ==> a@ == entry->Some_0.values@,
{
    match entry {
        Some(v) => {
            if now <= v.generated_at || now - v.generated_at <= window_ms {
                Some(OpaqueJsonArray { values: copy_values(&v.values.values) })
            } else {
                None
            }
        },
        None => None,
    }
}

/// The assembled results of cached requests, by request identity.
pub struct ResultCache {
    entries: ttl_cache::TtlCache<CacheKey, CacheValue>,
}

impl ResultCache {
    /// The result last stored under each key, with the time it was fetched.
    pub closed spec fn stored(&self) -> Map<(Option<Seq<u8>>, Seq<char>), (Seq<serde_json::Value>, u64)> {
        ttl_inserted(self.entries)
    }

    pub fn new() -> (r: ResultCache)
        ensures
            r.stored() == no_entries(),
    {
        ResultCache { entries: ttl_new(CACHE_CAPACITY) }
    }

    /// A copy of the result stored under `key`, where it is still fresh at
    /// `now` for the caller's window. Whatever it returns is exactly what was
    /// last stored under the key.
    pub fn lookup(&self, key: &CacheKey, window_ms: u64, now: u64) -> (r: Option<OpaqueJsonArray>)
        ensures
            r matches Some(a) ==> self.stored().contains_key(key_view(*key)),
            r matches Some(a) ==> a@ == self.stored()[key_view(*key)].0,
            r matches Some(a) ==> is_fresh(self.stored()[key_view(*key)].1, window_ms, now),
    {
        serve_if_fresh(ttl_get(&self.entries, key), window_ms, now)
    }

    /// Stores `values`, fetched at `now`, under `key`, replacing what was
    /// there.
    pub fn store(&mut self, key: CacheKey, values: OpaqueJsonArray, now: u64, window_ms: u64)
        requires
            window_ms <= MAX_WINDOW_MS,
        ensures
            final(self).stored() == old(self).stored().insert(key_view(key), (values@, now)),
    {
        let v = CacheValue { values, generated_at: now };
        ttl_insert(&mut self.entries, key, v, window_ms);
    }
}

/// Finishes a cached request: stores a fetched array that can be written as
/// JSON, and stores nothing after a failure.
pub fn finish_cached(
    cache: &mut ResultCache,
    key: CacheKey,
    result: Result<OpaqueJsonArray, FetchError>,
    now: u64,
    window_ms: u64,
) -> (r: Response)
    requires
        window_ms <= MAX_WINDOW_MS,
    ensures
        r.status == crate::response::result_status(result_view(result)),
        r.body@ == crate::response::result_text(result_view(result)),
        headers_view(r.headers@) == crate::response::cors_view(),
        final(cache).stored() == (match result {
            Ok(a) => if json_text_of(a@) is Ok {
                old(cache).stored().insert(key_view(key), (a@, now))
            } else {
                old(cache).stored()
            },
            Err(_) => old(cache).stored(),
        }),
{
    let response = assemble(&result);
    match result {
        Ok(a) => {
            if response.status == crate::response::STATUS_OK {
                cache.store(key, a, now, window_ms);
            }
        },
        Err(_) => {},
    }
    response
}

/// Whether a header list has a header of the given name.
pub open spec fn has_header(hs: Seq<(Seq<char>, Seq<u8>)>, name: Seq<char>) -> bool {
    exists|i: int| 0 <= i < hs.len() && same_name(#[trigger] hs[i].0, name)
}

/// The value of the first header of the given name.
pub open spec fn first_value(hs: Seq<(Seq<char>, Seq<u8>)>, name: Seq<char>) -> Option<Seq<u8>>
    decreases hs.len(),
{
    if hs.len() == 0 {
        None
    } else if same_name(hs[0].0, name) {
        Some(hs[0].1)
    } else {
        first_value(hs.drop_first(), name)
    }
}

/// The headers with the default credential added where none was supplied.
pub open spec fn with_default(hs: Seq<(Seq<char>, Seq<u8>)>, default_auth: Option<Seq<u8>>) -> Seq<(Seq<char>, Seq<u8>)> {
    if !has_header(hs, "authorization"@) && default_auth is Some {
        hs.push(("authorization"@, default_auth->Some_0))
    } else {
        hs
    }
}

fn find_header(headers: &Vec<Header>, name: &str) -> (r: Option<usize>)
    ensures
        r is None ==> !has_header(headers_view(headers@), name@),
        r matches Some(i) ==> i < headers@.len() && same_name(headers@[i as int].name@, name@),
        r matches Some(i) ==> forall|j: int| 0 <= j < i ==> !same_name(#[trigger] headers@[j].name@, name@),
{
    let mut i: usize = 0;
    while i < headers.len()
        invariant
            i <= headers@.len(),
            forall|j: int| 0 <= j < i ==> !same_name(#[trigger] headers@[j].name@, name@),
        decreases headers@.len() - i,
    {
        if name_is(headers[i].name.as_str(), name) {
            return Some(i);
        }
        i = i + 1;
    }
    proof {
        if has_header(headers_view(headers@), name@) {
            let k = choose|k: int| 0 <= k < headers_view(headers@).len() && same_name(#[trigger] headers_view(headers@)[k].0, name@);
            assert(!same_name(headers@[k].name@, name@));
        }
    }
    None
}

proof fn lemma_first_value(hs: Seq<(Seq<char>, Seq<u8>)>, name: Seq<char>, i: int)
    requires
        0 <= i < hs.len(),
        same_name(hs[i].0, name),
        forall|j: int| 0 <= j < i ==> !same_name(#[trigger] hs[j].0, name),
    ensures
        first_value(hs, name) == Some(hs[i].1),
    decreases i,
{
    if i > 0 {
        assert(!same_name(hs[0].0, name));
        lemma_first_value(hs.drop_first(), name, i - 1);
    }
}

proof fn lemma_no_value(hs: Seq<(Seq<char>, Seq<u8>)>, name: Seq<char>)
    requires
        !has_header(hs, name),
    ensures
        first_value(hs, name) is None,
    decreases hs.len(),
{
    if hs.len() > 0 {
        assert(!same_name(hs[0].0, name));
        assert forall|i: int| 0 <= i < hs.drop_first().len() implies !same_name(#[trigger] hs.drop_first()[i].0, name) by {
            assert(hs.drop_first()[i] == hs[i + 1]);
        }
        lemma_no_value(hs.drop_first(), name);
    }
}

/// Adds the default credential where the request supplied none.
pub fn effective_headers(headers: Vec<Header>, default_auth: &Option<Vec<u8>>) -> (r: Vec<Header>)
    ensures
        headers_view(r@) == with_default(headers_view(headers@), default_view(*default_auth)),
{
    let mut headers = headers;
    let ghost hv = headers_view(headers@);
    match find_header(&headers, "authorization") {
        Some(i) => {
            proof {
                assert(same_name(hv[i as int].0, "authorization"@));
            }
        },
        None => match default_auth {
            Some(a) => {
                headers.push(Header { name: String::from_str("authorization"), value: clone_bytes(a) });
                assert(headers_view(headers@) =~= hv.push(("authorization"@, a@)));
            },
            None => {},
        },
    }
    headers
}

/// The cache identity of a request: its first authorization header's bytes,
/// and its path.
pub fn cache_key(headers: &Vec<Header>, path: &str) -> (r: CacheKey)
    ensures
        key_view(r) == (first_value(headers_view(headers@), "authorization"@), path@),
{
    let auth = match find_header(headers, "authorization") {
        Some(i) => {
            proof {
                let hv = headers_view(headers@);
                assert forall|j: int| 0 <= j < i implies !same_name(#[trigger] hv[j].0, "authorization"@) by {
                    assert(hv[j].0 == headers@[j].name@);
                }
                lemma_first_value(hv, "authorization"@, i as int);
            }
            Some(clone_bytes(&headers[i].value))
        },
        None => {
            proof {
                lemma_no_value(headers_view(headers@), "authorization"@);
            }
            None
        },
    };
    (auth, String::from_str(path))
}

/// A cached request, ready to look up and, on a miss, to fetch.
pub struct CachedRequest {
    pub key: CacheKey,
    pub window_ms: u64,
    pub url: String,
    pub headers: Vec<Header>,
}

pub open spec fn default_view(default_auth: Option<Vec<u8>>) -> Option<Seq<u8>> {
    match default_auth {
        Some(a) => Some(a@),
        None => None,
    }
}

/// Prepares a request for `cached/{minutes}/{path}`. A minutes segment that
/// is not a whole number in `1..=u16::MAX` is refused before anything else
/// is done. Otherwise the request carries the effective credential, its key
/// is that credential with the path, and its window is the minutes in
/// milliseconds.
pub fn prepare_cached(
    minutes: &str,
    path: &str,
    headers: Vec<Header>,
    default_auth: &Option<Vec<u8>>,
) -> (r: Option<CachedRequest>)
    ensures
        r is Some <==> valid_minutes(minutes@),
        r matches Some(c) ==> c.window_ms == minutes_value(minutes@) * MS_PER_MINUTE,
        r matches Some(c) ==> c.window_ms <= MAX_WINDOW_MS,
        r matches Some(c) ==> c.url@ == upstream_url_of(path@),
        r matches Some(c) ==> headers_view(c.headers@) == with_default(headers_view(headers@), default_view(*default_auth)),
        r matches Some(c) ==> key_view(c.key) == (
            first_value(with_default(headers_view(headers@), default_view(*default_auth)), "authorization"@),
            path@,
        ),
{
    let m = match parse_minutes(minutes) {
        Some(m) => m,
        None => {
            return None;
        },
    };
    let headers = effective_headers(headers, default_auth);
    let key = cache_key(&headers, path);
    Some(CachedRequest { key, window_ms: window_ms(m), url: upstream_url(path), headers })
}

} // verus!
