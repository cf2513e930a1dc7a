use vstd::prelude::*;

use crate::cache::{first_value, has_header, is_fresh, key_view, with_default, CacheKey};
use crate::fetch::{collected_after, hop_spec, page_outcome, HopEvent, HopView};
use crate::headers::same_name;
use crate::response::success_text;

verus! {

proof fn lemma_first_after(hs: Seq<(Seq<char>, Seq<u8>)>, x: (Seq<char>, Seq<u8>), name: Seq<char>)
    requires
        !has_header(hs, name),
        same_name(x.0, name),
    ensures
        first_value(hs.push(x), name) == Some(x.1),
    decreases hs.len(),
{
    if hs.len() > 0 {
        assert(!same_name(hs[0].0, name));
        assert(hs.push(x).drop_first() =~= hs.drop_first().push(x));
        assert forall|i: int| 0 <= i < hs.drop_first().len() implies !same_name(#[trigger] hs.drop_first()[i].0, name) by {
            assert(hs.drop_first()[i] == hs[i + 1]);
        }
        lemma_first_after(hs.drop_first(), x, name);
    }
}

/// A request without an authorization header carries the configured default
/// credential upstream, and that credential is its cache identity; with no
/// default configured it carries no authorization header at all.
pub proof fn default_credential_law(hs: Seq<(Seq<char>, Seq<u8>)>, default_auth: Option<Seq<u8>>)
    requires
        !has_header(hs, "authorization"@),
    ensures
        default_auth matches Some(d) ==> first_value(with_default(hs, default_auth), "authorization"@) == Some(d),
        default_auth matches Some(d) ==> with_default(hs, default_auth).last() == ("authorization"@, d),
        default_auth is None ==> !has_header(with_default(hs, default_auth), "authorization"@),
{
    if let Some(d) = default_auth {
        lemma_first_after(hs, ("authorization"@, d), "authorization"@);
    }
}

/// Two pages, the first with a `next` link and the second without: the
/// result is the first page's elements followed by the second's.
pub proof fn two_page_law(inbound: Seq<(Seq<char>, Seq<u8>)>, first: HopEvent, second: HopEvent)
    requires
        page_outcome(first) is Next,
        page_outcome(second) is Last,
    ensures
        hop_spec(inbound, Seq::empty(), first) is Get,
        hop_spec(inbound, collected_after(Seq::empty(), first), second) == HopView::Done(
            Ok(page_outcome(first)->Next_0 + page_outcome(second)->Last_0),
        ),
{
    assert(Seq::<serde_json::Value>::empty() + page_outcome(first)->Next_0 =~= page_outcome(first)->Next_0);
}

/// A single page without a `next` link: the result is exactly its elements.
pub proof fn single_page_law(inbound: Seq<(Seq<char>, Seq<u8>)>, page: HopEvent)
    requires
        page_outcome(page) is Last,
    ensures
        hop_spec(inbound, Seq::empty(), page) == HopView::Done(Ok(page_outcome(page)->Last_0)),
{
    assert(Seq::<serde_json::Value>::empty() + page_outcome(page)->Last_0 =~= page_outcome(page)->Last_0);
}

/// A second identical request within the window finds the stored result
/// fresh, and what it serves is that result, so its JSON text is byte for
/// byte the text of the response that stored it.
pub proof fn cache_hit_law(
    before: Map<(Option<Seq<u8>>, Seq<char>), (Seq<serde_json::Value>, u64)>,
    key: (Option<Seq<u8>>, Seq<char>),
    values: Seq<serde_json::Value>,
    stored_at: u64,
    window_ms: u64,
    now: u64,
    served: Seq<serde_json::Value>,
)
    requires
        now <= stored_at + window_ms,
        served == before.insert(key, (values, stored_at))[key].0,
    ensures
        is_fresh(before.insert(key, (values, stored_at))[key].1, window_ms, now),
        served == values,
        success_text(served) == success_text(values),
{
}

/// A request made after the window has passed finds the stored result stale,
/// and the result it fetches replaces the stored one: the keys stay the
/// same and the key holds the new result alone.
pub proof fn stale_refetch_law(
    before: Map<(Option<Seq<u8>>, Seq<char>), (Seq<serde_json::Value>, u64)>,
    key: (Option<Seq<u8>>, Seq<char>),
    old_values: Seq<serde_json::Value>,
    stored_at: u64,
    window_ms: u64,
    now: u64,
    new_values: Seq<serde_json::Value>,
    refetched_at: u64,
)
    requires
        now > stored_at,
        now - stored_at > window_ms,
    ensures
        !is_fresh(before.insert(key, (old_values, stored_at))[key].1, window_ms, now),
        before.insert(key, (old_values, stored_at)).insert(key, (new_values, refetched_at)).dom()
            == before.insert(key, (old_values, stored_at)).dom(),
        before.insert(key, (old_values, stored_at)).insert(key, (new_values, refetched_at))[key]
            == (new_values, refetched_at),
{
    assert(before.insert(key, (old_values, stored_at)).insert(key, (new_values, refetched_at)).dom()
        =~= before.insert(key, (old_values, stored_at)).dom());
}

/// Requests that differ in their authorization bytes, or in their path, have
/// different cache keys, and storing under one leaves the other's entry as
/// it was.
pub proof fn key_separation_law(
    stored: Map<(Option<Seq<u8>>, Seq<char>), (Seq<serde_json::Value>, u64)>,
    a: CacheKey,
    b: CacheKey,
    entry: (Seq<serde_json::Value>, u64),
)
    requires
        key_view(a).0 != key_view(b).0 || key_view(a).1 != key_view(b).1,
    ensures
        key_view(a) != key_view(b),
        stored.insert(key_view(a), entry).contains_key(key_view(b)) == stored.contains_key(key_view(b)),
        stored.contains_key(key_view(b)) ==> stored.insert(key_view(a), entry)[key_view(b)] == stored[key_view(b)],
{
}

} // verus!
