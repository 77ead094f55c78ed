//! The cache store: an exact-match mapping from URL strings (case-sensitive,
//! used verbatim, no normalization) to cached responses. Keys are unique,
//! insertion order is irrelevant, insertion overwrites any entry under the
//! same key (last write wins), and there is no eviction: callers clear the
//! store to reclaim memory.

use vstd::prelude::*;
use vstd::string::*;
use vstd::set::axiom_set_insert_len;
use crate::response::CloudDataResponse;
use crate::response::ResponseModel;

verus! {

/// The mapping held by a key-value sequence, later entries overwriting
/// earlier ones.
pub open spec fn kv_map(s: Seq<(String, CloudDataResponse)>) -> Map<Seq<char>, ResponseModel>
    decreases s.len(),
{
    if s.len() == 0 {
        Map::empty()
    } else {
        kv_map(s.drop_last()).insert(s.last().0@, s.last().1@)
    }
}

/// No two entries share a key.
pub open spec fn unique_keys(s: Seq<(String, CloudDataResponse)>) -> bool {
    forall|p: int, q: int|
        0 <= p < q < s.len() ==> (#[trigger] s[p]).0@ != (#[trigger] s[q]).0@
}

proof fn lemma_kv_map_contains(s: Seq<(String, CloudDataResponse)>, k: Seq<char>)
    ensures
        kv_map(s).contains_key(k) <==> exists|i: int| 0 <= i < s.len() && (#[trigger] s[i]).0@ == k,
    decreases s.len(),
{
    if s.len() > 0 {
        let dl = s.drop_last();
        lemma_kv_map_contains(dl, k);
        if s.last().0@ == k {
            assert((s[s.len() - 1]).0@ == k);
        } else {
            if kv_map(s).contains_key(k) {
                let i = choose|i: int| 0 <= i < dl.len() && (#[trigger] dl[i]).0@ == k;
                assert((s[i]).0@ == k);
            }
            if exists|i: int| 0 <= i < s.len() && (#[trigger] s[i]).0@ == k {
                let i = choose|i: int| 0 <= i < s.len() && (#[trigger] s[i]).0@ == k;
                assert((dl[i]).0@ == k);
            }
        }
    }
}

proof fn lemma_kv_map_index(s: Seq<(String, CloudDataResponse)>, i: int)
    requires
        unique_keys(s),
        0 <= i < s.len(),
    ensures
        kv_map(s).contains_key(s[i].0@),
        kv_map(s)[s[i].0@] == s[i].1@,
    decreases s.len(),
{
    let dl = s.drop_last();
    if i < s.len() - 1 {
        assert(unique_keys(dl)) by {
            assert(forall|p: int, q: int|
                0 <= p < q < dl.len() ==> (#[trigger] dl[p]).0@ != (#[trigger] dl[q]).0@) by {
                assert(forall|t: int| 0 <= t < dl.len() ==> dl[t] == s[t]);
            }
        }
        lemma_kv_map_index(dl, i);
        assert(s.last().0@ != s[i].0@);
    }
}

proof fn lemma_kv_map_len(s: Seq<(String, CloudDataResponse)>)
    requires
        unique_keys(s),
    ensures
        kv_map(s).dom().finite(),
        kv_map(s).dom().len() == s.len(),
    decreases s.len(),
{
    if s.len() > 0 {
        let dl = s.drop_last();
        assert(unique_keys(dl)) by {
            assert(forall|t: int| 0 <= t < dl.len() ==> dl[t] == s[t]);
        }
        lemma_kv_map_len(dl);
        lemma_kv_map_contains(dl, s.last().0@);
        assert(!kv_map(dl).contains_key(s.last().0@)) by {
            if exists|i: int| 0 <= i < dl.len() && (#[trigger] dl[i]).0@ == s.last().0@ {
                let i = choose|i: int| 0 <= i < dl.len() && (#[trigger] dl[i]).0@ == s.last().0@;
                assert((s[i]).0@ == (s[s.len() - 1]).0@);
            }
        }
        axiom_set_insert_len(kv_map(dl).dom(), s.last().0@);
        assert(kv_map(s).dom() =~= kv_map(dl).dom().insert(s.last().0@));
    } else {
        assert(kv_map(s).dom() =~= Set::<Seq<char>>::empty());
    }
}

proof fn lemma_kv_map_push(s: Seq<(String, CloudDataResponse)>, p: (String, CloudDataResponse))
    ensures
        kv_map(s.push(p)) == kv_map(s).insert(p.0@, p.1@),
{
    assert(s.push(p).drop_last() =~= s);
    assert(s.push(p).last() == p);
}

proof fn lemma_kv_map_remove(s: Seq<(String, CloudDataResponse)>, i: int)
    requires
        unique_keys(s),
        0 <= i < s.len(),
    ensures
        kv_map(s.remove(i)) == kv_map(s).remove(s[i].0@),
    decreases s.len(),
{
    let k = s[i].0@;
    s.remove_ensures(i);
    if i == s.len() - 1 {
        assert(s.remove(i) =~= s.drop_last());
        lemma_kv_map_contains(s.drop_last(), k);
        assert(!kv_map(s.drop_last()).contains_key(k)) by {
            if exists|t: int| 0 <= t < s.drop_last().len() && (#[trigger] s.drop_last()[t]).0@
                == k {
                let t = choose|t: int|
                    0 <= t < s.drop_last().len() && (#[trigger] s.drop_last()[t]).0@ == k;
                assert((s[t]).0@ == (s[i]).0@);
            }
        }
        assert(kv_map(s).remove(k) =~= kv_map(s.drop_last()));
    } else {
        let dl = s.drop_last();
        assert(unique_keys(dl)) by {
            assert(forall|t: int| 0 <= t < dl.len() ==> dl[t] == s[t]);
        }
        lemma_kv_map_remove(dl, i);
        assert(s.remove(i).drop_last() =~= dl.remove(i));
        assert(s.remove(i).last() == s.last());
        // the removed key differs from the last entry's key
        assert(s.last().0@ != k);
        assert(kv_map(s.remove(i)) == kv_map(dl.remove(i)).insert(s.last().0@, s.last().1@));
        assert(kv_map(dl).remove(k).insert(s.last().0@, s.last().1@) =~= kv_map(dl).insert(
            s.last().0@,
            s.last().1@,
        ).remove(k));
    }
}

/// Case-sensitive equality of two strings, character for character.
fn str_eq(a: &str, b: &str) -> (r: bool)
    ensures
        r == (a@ == b@),
{
    let n: usize = a.unicode_len();
    let m: usize = b.unicode_len();
    if n != m {
        return false;
    }
    let mut i: usize = 0;
    while i < n
        invariant
            n == a@.len(),
            n == b@.len(),
            i <= n,
            forall|t: int| 0 <= t < i ==> a@[t] == b@[t],
        decreases n - i,
    {
        if a.get_char(i) != b.get_char(i) {
            return false;
        }
        i += 1;
    }
    proof {
        assert(a@ =~= b@);
    }
    true
}

fn find_key(entries: &Vec<(String, CloudDataResponse)>, url: &str) -> (r: Option<usize>)
    ensures
        match r {
            Some(i) => i < entries@.len() && entries@[i as int].0@ == url@,
            None => forall|t: int| 0 <= t < entries@.len() ==> (#[trigger] entries@[t]).0@ != url@,
        },
{
    let n: usize = entries.len();
    let mut idx: usize = 0;
    while idx < n
        invariant
            n == entries@.len(),
            idx <= n,
            forall|t: int| 0 <= t < idx ==> (#[trigger] entries@[t]).0@ != url@,
        decreases n - idx,
    {
        let pair = &entries[idx];
        if str_eq(pair.0.as_str(), url) {
            return Some(idx);
        }
        idx += 1;
    }
    None
}

/// The cache store. Its view is the mapping from cached URL to stored
/// response; a URL is a key exactly when an entry was admitted under it and
/// not cleared since.
pub struct CacheStore {
    entries: Vec<(String, CloudDataResponse)>,
}

impl View for CacheStore {
    type V = Map<Seq<char>, ResponseModel>;

    closed spec fn view(&self) -> Map<Seq<char>, ResponseModel> {
        kv_map(self.entries@)
    }
}

impl CacheStore {
    /// Well-formed: no two stored entries share a key.
    pub closed spec fn wf(&self) -> bool {
        unique_keys(self.entries@)
    }

    /// An empty store.
    pub fn new() -> (r: CacheStore)
        ensures
            r.wf(),
            r@ == Map::<Seq<char>, ResponseModel>::empty(),
    {
        CacheStore { entries: Vec::new() }
    }

    /// Look `url` up; a copy of the cached payload bytes comes back exactly
    /// when the URL is a key of the store.
    pub fn get_data(&self, url: &str) -> (r: Option<Vec<u8>>)
        requires
            self.wf(),
        ensures
            match r {
                Some(d) => self@.contains_key(url@) && d@ == self@[url@].data,
                None => !self@.contains_key(url@),
            },
    {
        match find_key(&self.entries, url) {
            Some(i) => {
                proof {
                    lemma_kv_map_index(self.entries@, i as int);
                }
                let pair = &self.entries[i];
                Some(pair.1.data())
            },
            None => {
                proof {
                    lemma_kv_map_contains(self.entries@, url@);
                }
                None
            },
        }
    }

    /// Insert `resp` under `url`, overwriting any existing entry for the
    /// same key: the last write wins.
    pub fn insert_entry(&mut self, url: String, resp: CloudDataResponse)
        requires
            old(self).wf(),
        ensures
            final(self).wf(),
            final(self)@ == old(self)@.insert(url@, resp@),
    {
        let ghost s0 = self.entries@;
        match find_key(&self.entries, url.as_str()) {
            Some(i) => {
                proof {
                    lemma_kv_map_remove(s0, i as int);
                    s0.remove_ensures(i as int);
                }
                let _replaced = self.entries.remove(i);
                let ghost s1 = self.entries@;
                proof {
                    // uniqueness survives the removal, and the key is gone
                    assert(unique_keys(s1)) by {
                        assert(forall|t: int| 0 <= t < i ==> s1[t] == s0[t]);
                        assert(forall|t: int| i <= t < s1.len() ==> s1[t] == s0[t + 1]);
                    }
                    assert(forall|t: int| 0 <= t < s1.len() ==> (#[trigger] s1[t]).0@ != url@)
                        by {
                        assert(forall|t: int| 0 <= t < i ==> s1[t] == s0[t]);
                        assert(forall|t: int| i <= t < s1.len() ==> s1[t] == s0[t + 1]);
                    }
                }
                self.entries.push((url, resp));
                proof {
                    lemma_kv_map_push(s1, (url, resp));
                    assert(unique_keys(self.entries@)) by {
                        assert(forall|t: int| 0 <= t < s1.len() ==> self.entries@[t] == s1[t]);
                    }
                    assert(kv_map(s0).remove(url@).insert(url@, resp@) =~= kv_map(s0).insert(
                        url@,
                        resp@,
                    ));
                }
            },
            None => {
                self.entries.push((url, resp));
                proof {
                    lemma_kv_map_push(s0, (url, resp));
                    assert(unique_keys(self.entries@)) by {
                        assert(forall|t: int| 0 <= t < s0.len() ==> self.entries@[t] == s0[t]);
                    }
                }
            },
        }
    }

    /// Empty the store unconditionally: afterwards no URL is a key, so every
    /// later lookup is a guaranteed miss.
    pub fn clear(&mut self)
        ensures
            final(self).wf(),
            final(self)@ == Map::<Seq<char>, ResponseModel>::empty(),
            forall|k: Seq<char>| !final(self)@.contains_key(k),
    {
        self.entries.clear();
    }

    /// The number of cached entries: one per distinct cached URL.
    pub fn len(&self) -> (r: usize)
        requires
            self.wf(),
        ensures
            r as nat == self@.dom().len(),
            self@.dom().finite(),
    {
        proof {
            lemma_kv_map_len(self.entries@);
        }
        self.entries.len()
    }

    /// The cached URLs, one per entry, in unspecified order.
    pub fn urls(&self) -> (r: Vec<String>)
        requires
            self.wf(),
        ensures
            r@.len() == self@.dom().len(),
            forall|t: int| 0 <= t < r@.len() ==> self@.contains_key((#[trigger] r@[t])@),
            forall|k: Seq<char>|
                self@.contains_key(k) ==> exists|t: int|
                    0 <= t < r@.len() && (#[trigger] r@[t])@ == k,
            forall|t1: int, t2: int|
                0 <= t1 < t2 < r@.len() ==> (#[trigger] r@[t1])@ != (#[trigger] r@[t2])@,
    {
        let n: usize = self.entries.len();
        let mut out: Vec<String> = Vec::new();
        let mut idx: usize = 0;
        while idx < n
            invariant
                n == self.entries@.len(),
                idx <= n,
                out@.len() == idx,
                forall|t: int| 0 <= t < idx ==> (#[trigger] out@[t])@ == self.entries@[t].0@,
            decreases n - idx,
        {
            let pair = &self.entries[idx];
            out.push(pair.0.clone());
            idx += 1;
        }
        proof {
            lemma_kv_map_len(self.entries@);
            assert forall|t: int| 0 <= t < out@.len() implies self@.contains_key(
                (#[trigger] out@[t])@,
            ) by {
                lemma_kv_map_index(self.entries@, t);
            }
            assert forall|k: Seq<char>| self@.contains_key(k) implies exists|t: int|
                0 <= t < out@.len() && (#[trigger] out@[t])@ == k by {
                lemma_kv_map_contains(self.entries@, k);
                let i = choose|i: int|
                    0 <= i < self.entries@.len() && (#[trigger] self.entries@[i]).0@ == k;
                assert((out@[i])@ == k);
            }
        }
        out
    }
}

} // verus!
