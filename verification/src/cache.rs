use vstd::prelude::*;

use crate::render::CachedResponse;
use crate::render::RespView;

verus! {

/// One cache slot: a response stored under a full-URL key at a given time.
struct CacheEntry {
    key: String,
    response: CachedResponse,
    stored_at: u64,
}

/// A stored response is fresh at `now` exactly while fewer than `max_age`
/// seconds have passed since it was stored. A clock that moved backwards
/// counts as not fresh, which only costs a repeated fetch.
pub open spec fn spec_fresh(stored_at: u64, max_age: u64, now: u64) -> bool {
    stored_at <= now < stored_at + max_age
}

/// The map a sequence of stores denotes: later stores win.
spec fn entries_map(s: Seq<CacheEntry>) -> Map<Seq<char>, (RespView, u64)>
    decreases s.len(),
{
    if s.len() == 0 {
        Map::empty()
    } else {
        entries_map(s.drop_last()).insert(
            s.last().key@,
            (s.last().response@, s.last().stored_at),
        )
    }
}

/// The entry under `k` is the one at the latest index whose key is `k`.
proof fn lemma_entries_map_last(s: Seq<CacheEntry>, k: Seq<char>, i: int)
    requires
        0 <= i < s.len(),
        s[i].key@ == k,
        forall|j: int| i < j < s.len() ==> s[j].key@ != k,
    ensures
        entries_map(s).contains_key(k),
        entries_map(s)[k] == (s[i].response@, s[i].stored_at),
    decreases s.len(),
{
    if i < s.len() - 1 {
        lemma_entries_map_last(s.drop_last(), k, i);
    }
}

/// A key no store ever used has no entry.
proof fn lemma_entries_map_absent(s: Seq<CacheEntry>, k: Seq<char>)
    requires
        forall|j: int| 0 <= j < s.len() ==> s[j].key@ != k,
    ensures
        !entries_map(s).contains_key(k),
    decreases s.len(),
{
    if s.len() > 0 {
        lemma_entries_map_absent(s.drop_last(), k);
    }
}

/// The response cache: responses keyed by the full request URL string, each
/// remembering when it was stored. Its view is the key-to-entry map, where a
/// later store under the same key wins.
pub struct ResponseCache {
    entries: Vec<CacheEntry>,
}

impl View for ResponseCache {
    type V = Map<Seq<char>, (RespView, u64)>;

    closed spec fn view(&self) -> Map<Seq<char>, (RespView, u64)> {
        entries_map(self.entries@)
    }
}

impl ResponseCache {
    /// An empty cache.
    pub fn new() -> (c: ResponseCache)
        ensures
            c@ == Map::<Seq<char>, (RespView, u64)>::empty(),
    {
        ResponseCache { entries: Vec::new() }
    }

    /// Serves a lookup: the response stored latest under `key`, returned
    /// verbatim, provided it is still fresh at `now`; a missing or expired
    /// entry is a miss, with no re-validation against the source.
    pub fn lookup(&self, key: &String, now: u64) -> (r: Option<&CachedResponse>)
        ensures
            ({
                let m = self@;
                if m.contains_key(key@) && spec_fresh(m[key@].1, m[key@].0.max_age, now) {
                    r matches Some(resp) && resp@ == m[key@].0
                } else {
                    r is None
                }
            }),
    {
        let n = self.entries.len();
        let mut i: usize = n;
        while i > 0
            invariant
                0 <= i <= n,
                n == self.entries.len(),
                forall|j: int| i <= j < n ==> self.entries@[j].key@ != key@,
            decreases i,
        {
            i = i - 1;
            let e = &self.entries[i];
            if e.key.eq(key) {
                proof {
                    lemma_entries_map_last(self.entries@, key@, i as int);
                }
                if e.stored_at <= now && now - e.stored_at < e.response.max_age {
                    return Some(&e.response);
                } else {
                    return None;
                }
            }
        }
        proof {
            lemma_entries_map_absent(self.entries@, key@);
        }
        None
    }

    /// Stores a response under a key before it is served: the new entry
    /// replaces whatever the key held (the later store wins).
    pub fn store(&mut self, key: String, response: CachedResponse, now: u64)
        ensures
            final(self)@ == old(self)@.insert(key@, (response@, now)),
    {
        let ghost old_entries = self.entries@;
        let ghost k: Seq<char> = key@;
        let ghost rv = response@;
        self.entries.push(CacheEntry { key, response, stored_at: now });
        proof {
            assert(self.entries@.drop_last() =~= old_entries);
            assert(entries_map(self.entries@) == entries_map(old_entries).insert(k, (rv, now)));
        }
    }
}

} // verus!
