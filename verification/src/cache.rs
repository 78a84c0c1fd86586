//! The bounded cache of package details, least recently used first out.
//!
//! The cache is held by `lru::LruCache`. Its contents are spoken of as the
//! sequence of its entries, the most recently used first.

use lru::LruCache;
use vstd::prelude::*;

use crate::gateway::{Details, DetailsView};
use crate::text::{clone_opt_string, clone_opt_strings, clone_strings};

verus! {

/// How many packages the dashboard keeps details of.
pub const DETAILS_CACHE_CAPACITY: usize = 64;

/// One entry of the cache: the package's name and what is known of it.
pub type Entry = (Seq<char>, DetailsView);

/// `lru::LruCache`, as a type whose inside is not looked into.
#[verifier::external_type_specification]
#[verifier::external_body]
#[verifier::reject_recursive_types(K)]
#[verifier::reject_recursive_types(V)]
#[verifier::reject_recursive_types(S)]
pub struct ExLruCache<K, V, S>(LruCache<K, V, S>);

/// `lru::DefaultHasher`, the hasher that an `lru::LruCache` has where none
/// is chosen, as a type whose inside is not looked into.
#[verifier::external_type_specification]
#[verifier::external_body]
pub struct ExDefaultHasher(lru::DefaultHasher);

/// The entries of an `lru::LruCache`, the most recently used first.
pub uninterp spec fn cache_entries(c: LruCache<String, Details>) -> Seq<Entry>;

/// The number of entries that an `lru::LruCache` was made to hold.
pub uninterp spec fn cache_cap(c: LruCache<String, Details>) -> nat;

/// Index of the entry for `key`, or -1 when there is none.
pub open spec fn position_of(entries: Seq<Entry>, key: Seq<char>) -> int
    decreases entries.len(),
{
    if entries.len() == 0 {
        -1
    } else if entries[0].0 == key {
        0
    } else {
        let r = position_of(entries.drop_first(), key);
        if r < 0 {
            -1
        } else {
            r + 1
        }
    }
}

/// Whether the cache holds an entry for `key`.
pub open spec fn has_key(entries: Seq<Entry>, key: Seq<char>) -> bool {
    position_of(entries, key) >= 0
}

/// What the cache holds for `key`.
pub open spec fn lookup(entries: Seq<Entry>, key: Seq<char>) -> Option<DetailsView> {
    let i = position_of(entries, key);
    if i >= 0 {
        Some(entries[i].1)
    } else {
        None
    }
}

/// The entries after `key` was used: its entry, if there is one, has moved
/// to the front.
pub open spec fn touched(entries: Seq<Entry>, key: Seq<char>) -> Seq<Entry> {
    let i = position_of(entries, key);
    if i >= 0 {
        seq![entries[i]] + entries.remove(i)
    } else {
        entries
    }
}

/// The entries after `value` was put under `key` into a cache made for
/// `cap` entries: the new entry stands at the front; an entry that `key`
/// had before is gone; otherwise, if the cache was full, its last entry,
/// the least recently used, is gone.
pub open spec fn inserted(entries: Seq<Entry>, cap: nat, key: Seq<char>, value: DetailsView) -> Seq<
    Entry,
> {
    let i = position_of(entries, key);
    if i >= 0 {
        seq![(key, value)] + entries.remove(i)
    } else if entries.len() == cap {
        seq![(key, value)] + entries.drop_last()
    } else {
        seq![(key, value)] + entries
    }
}

/// The record that results from laying `incoming` over `existing`:
/// description, homepage, latest version and installed versions are those
/// of `incoming`; dependencies and dependents are those of `incoming` where
/// it has them and those of `existing` where it has not; the artifacts stay.
pub open spec fn merged(existing: DetailsView, incoming: DetailsView) -> DetailsView {
    DetailsView {
        desc: incoming.desc,
        homepage: incoming.homepage,
        latest: incoming.latest,
        installed: incoming.installed,
        deps: if incoming.deps is Some {
            incoming.deps
        } else {
            existing.deps
        },
        uses: if incoming.uses is Some {
            incoming.uses
        } else {
            existing.uses
        },
        artifacts: existing.artifacts,
    }
}

/// The entries after `incoming` arrived for `key`: laid over the entry that
/// `key` had, which moves to the front, or put in as a new entry.
pub open spec fn overlaid(entries: Seq<Entry>, cap: nat, key: Seq<char>, incoming: DetailsView) -> Seq<
    Entry,
> {
    let i = position_of(entries, key);
    if i >= 0 {
        seq![(key, merged(entries[i].1, incoming))] + entries.remove(i)
    } else {
        inserted(entries, cap, key, incoming)
    }
}

/// Whether no two entries have the same key.
pub open spec fn distinct_keys(entries: Seq<Entry>) -> bool {
    forall|i: int, j: int|
        0 <= i < entries.len() && 0 <= j < entries.len() && i != j ==> (#[trigger] entries[i]).0 != (
        #[trigger] entries[j]).0
}

/// `LruCache::new`: the cache is empty and made for `cap` entries. A
/// capacity of zero is not a capacity, and storage for `cap` entries is
/// allocated at once, so only small capacities are admitted.
#[verifier::external_body]
fn cache_new(cap: usize) -> (c: LruCache<String, Details>)
    requires
        0 < cap <= 65536,
    ensures
        cache_entries(c) == Seq::<Entry>::empty(),
        cache_cap(c) == cap,
{
    LruCache::new(std::num::NonZeroUsize::new(cap).unwrap())
}

/// `LruCache::len`: the number of entries.
#[verifier::external_body]
fn cache_len(c: &LruCache<String, Details>) -> (n: usize)
    ensures
        n == cache_entries(*c).len(),
{
    c.len()
}

/// `LruCache::peek`: the value under `key`, if there is one; the order of
/// use is not touched.
#[verifier::external_body]
fn cache_peek<'a>(c: &'a LruCache<String, Details>, key: &str) -> (found: Option<&'a Details>)
    ensures
        found.deep_view() == lookup(cache_entries(*c), key@),
{
    c.peek(key)
}

/// `LruCache::get`: the value under `key`, if there is one, and its entry
/// moves to the front.
#[verifier::external_body]
fn cache_get<'a>(c: &'a mut LruCache<String, Details>, key: &str) -> (found: Option<&'a Details>)
    ensures
        found.deep_view() == lookup(cache_entries(*old(c)), key@),
        cache_entries(*final(c)) == touched(cache_entries(*old(c)), key@),
        cache_cap(*final(c)) == cache_cap(*old(c)),
{
    c.get(key)
}

/// `LruCache::get_mut`: the value under `key`, if there is one, to be
/// changed in place, and its entry moves to the front; nothing else
/// changes.
#[verifier::external_body]
fn cache_get_mut<'a>(c: &'a mut LruCache<String, Details>, key: &str) -> (found: Option<
    &'a mut Details,
>)
    ensures
        cache_cap(*final(c)) == cache_cap(*old(c)),
        match found {
            Some(value) => {
                let i = position_of(cache_entries(*old(c)), key@);
                &&& i >= 0
                &&& value@ == cache_entries(*old(c))[i].1
                &&& cache_entries(*final(c)) == seq![(key@, final(value)@)] + cache_entries(
                    *old(c),
                ).remove(i)
            },
            None => {
                &&& position_of(cache_entries(*old(c)), key@) < 0
                &&& cache_entries(*final(c)) == cache_entries(*old(c))
            },
        },
{
    c.get_mut(key)
}

/// `LruCache::put`: `value` stands under `key` at the front; the value that
/// `key` had before is returned; where `key` is new and the cache is full,
/// the least recently used entry is dropped.
#[verifier::external_body]
fn cache_put(c: &mut LruCache<String, Details>, key: String, value: Details) -> (before: Option<
    Details,
>)
    ensures
        cache_entries(*final(c)) == inserted(
            cache_entries(*old(c)),
            cache_cap(*old(c)),
            key@,
            value@,
        ),
        cache_cap(*final(c)) == cache_cap(*old(c)),
        before.deep_view() == lookup(cache_entries(*old(c)), key@),
{
    c.put(key, value)
}

/// Where `position_of` points there is an entry for the key, and none
/// stands before it; where it points nowhere, no entry has the key.
pub proof fn lemma_position_of(entries: Seq<Entry>, key: Seq<char>)
    ensures
        -1 <= position_of(entries, key) < entries.len(),
        position_of(entries, key) >= 0 ==> entries[position_of(entries, key)].0 == key,
        forall|j: int| 0 <= j < entries.len() && (j < position_of(entries, key) || position_of(entries, key) < 0)
            ==> (#[trigger] entries[j]).0 != key,
    decreases entries.len(),
{
    if entries.len() > 0 && entries[0].0 != key {
        let rest = entries.drop_first();
        lemma_position_of(rest, key);
        let r = position_of(rest, key);
        assert forall|j: int| 0 <= j < entries.len() && (j < position_of(entries, key) || position_of(entries, key) < 0)
            implies (#[trigger] entries[j]).0 != key by {
            if j > 0 {
                assert(rest[j - 1] == entries[j]);
            }
        }
    }
}

/// Laying a record over the cache keeps the keys distinct and the cache
/// within its capacity.
pub proof fn lemma_overlaid_keeps_bound(
    entries: Seq<Entry>,
    cap: nat,
    key: Seq<char>,
    incoming: DetailsView,
)
    requires
        distinct_keys(entries),
        entries.len() <= cap,
        cap > 0,
    ensures
        distinct_keys(overlaid(entries, cap, key, incoming)),
        overlaid(entries, cap, key, incoming).len() <= cap,
        overlaid(entries, cap, key, incoming).len() >= entries.len(),
{
    lemma_position_of(entries, key);
    let after = overlaid(entries, cap, key, incoming);
    let i = position_of(entries, key);
    let tail = if i >= 0 {
        entries.remove(i)
    } else if entries.len() == cap {
        entries.drop_last()
    } else {
        entries
    };
    assert(after.len() == tail.len() + 1);
    assert forall|a: int, b: int| 0 <= a < after.len() && 0 <= b < after.len() && a != b implies (
    #[trigger] after[a]).0 != (#[trigger] after[b]).0 by {
        assert(after[0].0 == key);
        if a > 0 {
            assert(after[a] == tail[a - 1]);
        }
        if b > 0 {
            assert(after[b] == tail[b - 1]);
        }
        if i >= 0 {
            if a > 0 {
                assert(tail[a - 1] == entries[if a - 1 < i { a - 1 } else { a }]);
            }
            if b > 0 {
                assert(tail[b - 1] == entries[if b - 1 < i { b - 1 } else { b }]);
            }
        } else {
            if a > 0 {
                assert(tail[a - 1] == entries[a - 1]);
            }
            if b > 0 {
                assert(tail[b - 1] == entries[b - 1]);
            }
        }
    }
}

/// Using a key keeps the keys distinct and the size as it was.
pub proof fn lemma_touched_keeps_bound(entries: Seq<Entry>, key: Seq<char>)
    requires
        distinct_keys(entries),
    ensures
        distinct_keys(touched(entries, key)),
        touched(entries, key).len() == entries.len(),
{
    lemma_position_of(entries, key);
    let after = touched(entries, key);
    let i = position_of(entries, key);
    if i >= 0 {
        let tail = entries.remove(i);
        assert forall|a: int, b: int| 0 <= a < after.len() && 0 <= b < after.len() && a != b implies (
        #[trigger] after[a]).0 != (#[trigger] after[b]).0 by {
            assert(after[0] == entries[i]);
            if a > 0 {
                assert(after[a] == entries[if a - 1 < i { a - 1 } else { a }]);
            }
            if b > 0 {
                assert(after[b] == entries[if b - 1 < i { b - 1 } else { b }]);
            }
        }
    }
}

/// What the overlay keeps and what it takes. Description, homepage, latest
/// version and installed versions of the result are the incoming record's.
/// Dependencies and dependents are the incoming record's where it has them,
/// and the existing record's where it has not. The artifacts are the
/// existing record's. Laying the same record over the result once more
/// changes nothing.
pub proof fn lemma_overlay(existing: DetailsView, incoming: DetailsView)
    ensures
        merged(existing, incoming).desc == incoming.desc,
        merged(existing, incoming).homepage == incoming.homepage,
        merged(existing, incoming).latest == incoming.latest,
        merged(existing, incoming).installed == incoming.installed,
        incoming.deps is Some ==> merged(existing, incoming).deps == incoming.deps,
        incoming.deps is None ==> merged(existing, incoming).deps == existing.deps,
        incoming.uses is Some ==> merged(existing, incoming).uses == incoming.uses,
        incoming.uses is None ==> merged(existing, incoming).uses == existing.uses,
        merged(existing, incoming).artifacts == existing.artifacts,
        merged(merged(existing, incoming), incoming) == merged(existing, incoming),
{
}

/// A record that arrives twice for the same key leaves the cache as it was
/// after the first arrival.
pub proof fn lemma_overlaid_twice(
    entries: Seq<Entry>,
    cap: nat,
    key: Seq<char>,
    incoming: DetailsView,
)
    ensures
        overlaid(overlaid(entries, cap, key, incoming), cap, key, incoming) == overlaid(
            entries,
            cap,
            key,
            incoming,
        ),
{
    let once = overlaid(entries, cap, key, incoming);
    assert(once[0].0 == key);
    assert(position_of(once, key) == 0);
    assert(merged(once[0].1, incoming) == once[0].1);
    assert(seq![(key, merged(once[0].1, incoming))] + once.remove(0) =~= once);
}

/// The cache after the records `records` arrived for the keys `keys`, one
/// after the other, in an empty cache made for `cap` entries.
pub open spec fn filled(cap: nat, keys: Seq<Seq<char>>, records: Seq<DetailsView>) -> Seq<Entry>
    decreases keys.len(),
{
    if keys.len() == 0 {
        Seq::empty()
    } else {
        overlaid(
            filled(cap, keys.drop_last(), records.drop_last()),
            cap,
            keys.last(),
            records.last(),
        )
    }
}

/// As long as the cache has room, it holds the records of distinct keys in
/// the reverse of the order in which they arrived.
pub proof fn lemma_filled_within_capacity(cap: nat, keys: Seq<Seq<char>>, records: Seq<DetailsView>)
    requires
        keys.no_duplicates(),
        keys.len() == records.len(),
        keys.len() <= cap,
    ensures
        filled(cap, keys, records) == Seq::new(
            keys.len(),
            |j: int| (keys[keys.len() - 1 - j], records[keys.len() - 1 - j]),
        ),
    decreases keys.len(),
{
    let n = keys.len() as int;
    if n > 0 {
        let head_keys = keys.drop_last();
        let head_records = records.drop_last();
        lemma_filled_within_capacity(cap, head_keys, head_records);
        let before = filled(cap, head_keys, head_records);
        lemma_position_of(before, keys.last());
        if position_of(before, keys.last()) >= 0 {
            let p = position_of(before, keys.last());
            assert(before[p].0 == head_keys[n - 2 - p]);
            assert(keys[n - 2 - p] == keys[n - 1]);
        }
        assert(filled(cap, keys, records) =~= Seq::new(
            keys.len(),
            |j: int| (keys[keys.len() - 1 - j], records[keys.len() - 1 - j]),
        ));
    } else {
        assert(filled(cap, keys, records) =~= Seq::new(
            keys.len(),
            |j: int| (keys[keys.len() - 1 - j], records[keys.len() - 1 - j]),
        ));
    }
}

/// One key more than the cache has room for: after distinct keys, one more
/// than the capacity, arrived in an empty cache, the cache holds exactly as
/// many entries as it was made for; the key that arrived first, the least
/// recently used, is gone, and every other key is there with its record.
pub proof fn lemma_filled_past_capacity(cap: nat, keys: Seq<Seq<char>>, records: Seq<DetailsView>)
    requires
        cap > 0,
        keys.no_duplicates(),
        keys.len() == cap + 1,
        records.len() == keys.len(),
    ensures
        filled(cap, keys, records).len() == cap,
        !has_key(filled(cap, keys, records), keys[0]),
        forall|i: int|
            1 <= i <= cap ==> lookup(filled(cap, keys, records), #[trigger] keys[i]) == Some(
                records[i],
            ),
{
    let n = keys.len() as int;
    let head_keys = keys.drop_last();
    let head_records = records.drop_last();
    lemma_filled_within_capacity(cap, head_keys, head_records);
    let before = filled(cap, head_keys, head_records);
    lemma_position_of(before, keys.last());
    if position_of(before, keys.last()) >= 0 {
        let p = position_of(before, keys.last());
        assert(before[p].0 == head_keys[n - 2 - p]);
        assert(keys[n - 2 - p] == keys[n - 1]);
    }
    let after = filled(cap, keys, records);
    assert(after == seq![(keys.last(), records.last())] + before.drop_last());
    assert(after =~= Seq::new(cap, |j: int| (keys[cap - j], records[cap - j])));
    lemma_position_of(after, keys[0]);
    if position_of(after, keys[0]) >= 0 {
        let p = position_of(after, keys[0]);
        assert(after[p].0 == keys[cap - p]);
    }
    assert forall|i: int| 1 <= i <= cap implies lookup(after, #[trigger] keys[i]) == Some(
        records[i],
    ) by {
        lemma_position_of(after, keys[i]);
        let p = position_of(after, keys[i]);
        assert(after[cap - i].0 == keys[i]);
        assert(p >= 0);
        assert(after[p].0 == keys[cap - p]);
        assert(cap - p == i);
    }
}

/// Reading protects from eviction. In a full cache of two entries or more,
/// an entry that was just used stays when a new key arrives: the entry that
/// goes is the last of the others, the least recently used, and the used
/// entry stands right behind the new one.
pub proof fn lemma_access_protects(
    entries: Seq<Entry>,
    cap: nat,
    used: Seq<char>,
    fresh: Seq<char>,
    record: DetailsView,
)
    requires
        distinct_keys(entries),
        entries.len() == cap,
        cap >= 2,
        has_key(entries, used),
        !has_key(entries, fresh),
    ensures
        overlaid(touched(entries, used), cap, fresh, record) == seq![(fresh, record)] + touched(
            entries,
            used,
        ).drop_last(),
        overlaid(touched(entries, used), cap, fresh, record).len() == cap,
        overlaid(touched(entries, used), cap, fresh, record)[1].0 == used,
        has_key(overlaid(touched(entries, used), cap, fresh, record), used),
{
    lemma_position_of(entries, used);
    lemma_position_of(entries, fresh);
    lemma_touched_keeps_bound(entries, used);
    let t = touched(entries, used);
    let i = position_of(entries, used);
    lemma_position_of(t, fresh);
    if position_of(t, fresh) >= 0 {
        let p = position_of(t, fresh);
        if p > 0 {
            assert(t[p] == entries[if p - 1 < i { p - 1 } else { p }]);
        }
    }
    let after = overlaid(t, cap, fresh, record);
    assert(after[1] == t[0]);
    lemma_position_of(after, used);
}

/// Lays `incoming` over `existing`.
pub fn merge_details(existing: &mut Details, incoming: &Details)
    ensures
        final(existing)@ == merged(old(existing)@, incoming@),
{
    existing.desc = clone_opt_string(&incoming.desc);
    existing.homepage = clone_opt_string(&incoming.homepage);
    existing.latest = clone_opt_string(&incoming.latest);
    existing.installed = clone_strings(&incoming.installed);
    if incoming.deps.is_some() {
        existing.deps = clone_opt_strings(&incoming.deps);
    }
    if incoming.uses.is_some() {
        existing.uses = clone_opt_strings(&incoming.uses);
    }
}

/// The bounded cache of package details.
pub struct DetailsCache {
    inner: LruCache<String, Details>,
}

impl View for DetailsCache {
    type V = Seq<Entry>;

    closed spec fn view(&self) -> Seq<Entry> {
        cache_entries(self.inner)
    }
}

impl DetailsCache {
    /// The number of entries that the cache was made to hold.
    pub closed spec fn capacity(&self) -> nat {
        cache_cap(self.inner)
    }

    /// The cache holds no key twice and no more entries than it was made
    /// for.
    pub open spec fn wf(&self) -> bool {
        &&& self.capacity() == DETAILS_CACHE_CAPACITY
        &&& self@.len() <= self.capacity()
        &&& distinct_keys(self@)
    }

    /// An empty cache.
    pub fn new() -> (c: DetailsCache)
        ensures
            c@ == Seq::<Entry>::empty(),
            c.capacity() == DETAILS_CACHE_CAPACITY,
            c.wf(),
    {
        DetailsCache { inner: cache_new(DETAILS_CACHE_CAPACITY) }
    }

    /// The number of entries.
    pub fn len(&self) -> (n: usize)
        ensures
            n == self@.len(),
    {
        cache_len(&self.inner)
    }

    /// What the cache holds for `key`. The order of use stays as it is.
    pub fn get(&self, key: &str) -> (found: Option<&Details>)
        ensures
            found.deep_view() == lookup(self@, key@),
    {
        cache_peek(&self.inner, key)
    }

    /// What the cache holds for `key`; the entry counts as just used.
    pub fn access(&mut self, key: &str) -> (found: Option<&Details>)
        ensures
            found.deep_view() == lookup(old(self)@, key@),
            final(self)@ == touched(old(self)@, key@),
            final(self).capacity() == old(self).capacity(),
            old(self).wf() ==> final(self).wf(),
    {
        proof {
            if self.wf() {
                lemma_touched_keeps_bound(self@, key@);
            }
        }
        cache_get(&mut self.inner, key)
    }

    /// Takes in `record` for `key`: laid over what the cache holds for
    /// `key`, or put in as a new entry, which drops the least recently used
    /// entry where the cache is full. Either way the entry counts as just
    /// used.
    pub fn get_mut_or_insert(&mut self, key: String, record: Details)
        ensures
            final(self)@ == overlaid(old(self)@, old(self).capacity(), key@, record@),
            final(self).capacity() == old(self).capacity(),
            old(self).wf() ==> final(self).wf(),
    {
        proof {
            if self.wf() {
                lemma_overlaid_keeps_bound(self@, self.capacity(), key@, record@);
            }
        }
        match cache_get_mut(&mut self.inner, key.as_str()) {
            Some(existing) => {
                merge_details(existing, &record);
            },
            None => {
                let _ = cache_put(&mut self.inner, key, record);
            },
        }
    }
}

} // verus!
