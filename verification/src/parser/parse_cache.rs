use vstd::prelude::*;

use crate::digest::{hex_lower, sha256, sha256_hex};
use crate::text::{owned, utf8};

verus! {

/// What a cached parse is found by: the path and the digest of the contents parsed.
#[derive(Debug, Clone, PartialEq, Eq, PartialOrd, Ord)]
pub struct ParseCacheKey {
    pub path: String,
    pub content_sha256: String,
}

/// A key as plain text: its path and its content digest.
pub open spec fn key_view(k: ParseCacheKey) -> (Seq<char>, Seq<char>) {
    (k.path@, k.content_sha256@)
}

impl ParseCacheKey {
    /// The key of `contents` read at `path`: the lower-case hexadecimal SHA-256 of the
    /// contents' UTF-8 bytes.
    pub fn from_contents(path: &str, contents: &str) -> (r: Self)
        ensures
            r.path@ == path@,
            r.content_sha256@ == hex_lower(sha256(utf8(contents@))),
    {
        ParseCacheKey { path: owned(path), content_sha256: sha256_hex(contents.as_bytes()) }
    }
}

/// The map a list of pairs describes, a later pair overriding an earlier one with the same key.
pub open spec fn assoc<K, V>(s: Seq<(K, V)>) -> Map<K, V>
    decreases s.len(),
{
    if s.len() == 0 {
        Map::empty()
    } else {
        assoc(s.drop_last()).insert(s.last().0, s.last().1)
    }
}

/// No key occurs twice in a list of pairs.
pub open spec fn distinct_keys<K, V>(s: Seq<(K, V)>) -> bool {
    forall|i: int, j: int| 0 <= i < j < s.len() ==> s[i].0 != s[j].0
}

proof fn lemma_assoc_dom<K, V>(s: Seq<(K, V)>, k: K)
    ensures
        assoc(s).dom().contains(k) <==> exists|i: int| 0 <= i < s.len() && s[i].0 == k,
    decreases s.len(),
{
    if s.len() > 0 {
        lemma_assoc_dom(s.drop_last(), k);
        if assoc(s.drop_last()).dom().contains(k) {
            let i = choose|i: int| 0 <= i < s.drop_last().len() && s.drop_last()[i].0 == k;
            assert(s[i].0 == k);
        }
        if s.last().0 == k {
            assert(s[s.len() - 1].0 == k);
        }
        if exists|i: int| 0 <= i < s.len() && s[i].0 == k {
            let i = choose|i: int| 0 <= i < s.len() && s[i].0 == k;
            if i < s.len() - 1 {
                assert(s.drop_last()[i].0 == k);
            }
        }
    }
}

proof fn lemma_assoc_at<K, V>(s: Seq<(K, V)>, i: int)
    requires
        distinct_keys(s),
        0 <= i < s.len(),
    ensures
        assoc(s).dom().contains(s[i].0),
        assoc(s)[s[i].0] == s[i].1,
    decreases s.len(),
{
    if i < s.len() - 1 {
        assert(s.drop_last()[i] == s[i]);
        lemma_assoc_at(s.drop_last(), i);
        assert(s.last().0 != s[i].0);
    }
}

proof fn lemma_assoc_update<K, V>(s: Seq<(K, V)>, i: int, v: V)
    requires
        distinct_keys(s),
        0 <= i < s.len(),
    ensures
        assoc(s.update(i, (s[i].0, v))) =~= assoc(s).insert(s[i].0, v),
        distinct_keys(s.update(i, (s[i].0, v))),
    decreases s.len(),
{
    let t = s.update(i, (s[i].0, v));
    if i == s.len() - 1 {
        assert(t.drop_last() =~= s.drop_last());
    } else {
        assert(t.drop_last() =~= s.drop_last().update(i, (s[i].0, v)));
        assert(s.drop_last()[i] == s[i]);
        lemma_assoc_update(s.drop_last(), i, v);
        assert(s.last().0 != s[i].0);
    }
}

proof fn lemma_assoc_len<K, V>(s: Seq<(K, V)>)
    requires
        distinct_keys(s),
    ensures
        assoc(s).dom().finite(),
        assoc(s).dom().len() == s.len(),
    decreases s.len(),
{
    if s.len() > 0 {
        lemma_assoc_len(s.drop_last());
        lemma_assoc_dom(s.drop_last(), s.last().0);
        if assoc(s.drop_last()).dom().contains(s.last().0) {
            let i = choose|i: int| 0 <= i < s.drop_last().len() && s.drop_last()[i].0 == s.last().0;
            assert(s[i].0 == s[s.len() - 1].0);
        }
    }
}

/// Parses kept by key, and for each path the key of its latest parse.
pub struct ParseCache<A> {
    entries: Vec<(ParseCacheKey, A)>,
    latest_by_path: Vec<(String, ParseCacheKey)>,
}

impl<A> ParseCache<A> {
    spec fn entry_pairs(&self) -> Seq<((Seq<char>, Seq<char>), A)> {
        self.entries@.map_values(|e: (ParseCacheKey, A)| (key_view(e.0), e.1))
    }

    spec fn path_pairs(&self) -> Seq<(Seq<char>, (Seq<char>, Seq<char>))> {
        self.latest_by_path@.map_values(|e: (String, ParseCacheKey)| (e.0@, key_view(e.1)))
    }

    /// The parses held, by key.
    pub closed spec fn entries_view(&self) -> Map<(Seq<char>, Seq<char>), A> {
        assoc(self.entry_pairs())
    }

    /// For each path, the key of the parse last put in for it.
    pub closed spec fn latest_view(&self) -> Map<Seq<char>, (Seq<char>, Seq<char>)> {
        assoc(self.path_pairs())
    }

    /// The parse last put in for `path`, if any.
    pub open spec fn latest_value(&self, path: Seq<char>) -> Option<A> {
        if self.latest_view().dom().contains(path) {
            Some(self.entries_view()[self.latest_view()[path]])
        } else {
            None
        }
    }

    /// Each key and each path is listed once, and each path's latest key is held and is
    /// a key of that path.
    pub closed spec fn wf(&self) -> bool {
        &&& distinct_keys(self.entry_pairs())
        &&& distinct_keys(self.path_pairs())
        &&& forall|p: Seq<char>| #[trigger] self.latest_view().dom().contains(p) ==> {
            &&& self.entries_view().dom().contains(self.latest_view()[p])
            &&& self.latest_view()[p].0 == p
        }
    }

    fn find_entry(&self, key: &ParseCacheKey) -> (r: Option<usize>)
        ensures
            match r {
                Some(i) => i < self.entries@.len() && self.entry_pairs()[i as int].0 == key_view(*key),
                None => forall|i: int| 0 <= i < self.entries@.len() ==> self.entry_pairs()[i].0 != key_view(*key),
            },
    {
        let mut i: usize = 0;
        while i < self.entries.len()
            invariant
                0 <= i <= self.entries@.len(),
                forall|j: int| 0 <= j < i ==> self.entry_pairs()[j].0 != key_view(*key),
            decreases self.entries@.len() - i,
        {
            let k = &self.entries[i].0;
            if k.path == key.path && k.content_sha256 == key.content_sha256 {
                return Some(i);
            }
            i = i + 1;
        }
        None
    }

    fn find_path(&self, path: &str) -> (r: Option<usize>)
        ensures
            match r {
                Some(i) => i < self.latest_by_path@.len() && self.path_pairs()[i as int].0 == path@,
                None => forall|i: int| 0 <= i < self.latest_by_path@.len() ==> self.path_pairs()[i].0 != path@,
            },
    {
        let mut i: usize = 0;
        while i < self.latest_by_path.len()
            invariant
                0 <= i <= self.latest_by_path@.len(),
                forall|j: int| 0 <= j < i ==> self.path_pairs()[j].0 != path@,
            decreases self.latest_by_path@.len() - i,
        {
            if self.latest_by_path[i].0 == owned(path) {
                return Some(i);
            }
            i = i + 1;
        }
        None
    }

    /// Puts in a parse under `key`, replacing what was held under that key, and makes it
    /// the latest parse of the key's path.
    pub fn upsert(&mut self, key: ParseCacheKey, artifact: A)
        requires
            old(self).wf(),
        ensures
            final(self).wf(),
            final(self).entries_view() == old(self).entries_view().insert(key_view(key), artifact),
            final(self).latest_view() == old(self).latest_view().insert(key.path@, key_view(key)),
            final(self).latest_value(key.path@) == Some(artifact),
    {
        let ghost kv = key_view(key);
        let ghost old_entries = self.entry_pairs();
        let ghost old_paths = self.path_pairs();
        let ghost old_ev = self.entries_view();
        let ghost old_lv = self.latest_view();
        let path = key.path.clone();
        let path_key = ParseCacheKey { path: key.path.clone(), content_sha256: key.content_sha256.clone() };
        match self.find_entry(&key) {
            Some(i) => {
                self.entries.set(i, (key, artifact));
                proof {
                    assert(self.entry_pairs() =~= old_entries.update(i as int, (old_entries[i as int].0, artifact)));
                    lemma_assoc_update(old_entries, i as int, artifact);
                }
            },
            None => {
                self.entries.push((key, artifact));
                proof {
                    assert(self.entry_pairs() =~= old_entries.push((kv, artifact)));
                    assert(self.entry_pairs().drop_last() =~= old_entries);
                }
            },
        }
        assert(self.path_pairs() =~= old_paths);
        assert(path@ == kv.0);
        match self.find_path(path.as_str()) {
            Some(j) => {
                self.latest_by_path.set(j, (path, path_key));
                proof {
                    assert(self.path_pairs() =~= old_paths.update(j as int, (old_paths[j as int].0, kv)));
                    lemma_assoc_update(old_paths, j as int, kv);
                }
            },
            None => {
                self.latest_by_path.push((path, path_key));
                proof {
                    assert(self.path_pairs() =~= old_paths.push((kv.0, kv)));
                    assert(self.path_pairs().drop_last() =~= old_paths);
                    let np = self.path_pairs();
                    assert forall|a: int, b: int| 0 <= a < b < np.len() implies np[a].0 != np[b].0 by {
                        assert(np[a] == old_paths[a]);
                        if b == np.len() - 1 {
                            assert(np[b].0 == kv.0);
                            assert(old_paths[a].0 != path@);
                        } else {
                            assert(np[b] == old_paths[b]);
                        }
                    }
                }
            },
        }
        proof {
            let ev = self.entries_view();
            let lv = self.latest_view();
            assert(distinct_keys(self.entry_pairs()));
            assert(distinct_keys(self.path_pairs()));
            assert forall|p: Seq<char>| #[trigger] lv.dom().contains(p) implies ev.dom().contains(lv[p]) && lv[p].0 == p by {
                if p != kv.0 {
                    assert(old_lv.dom().contains(p));
                }
            }
        }
    }

    /// The parse held under `key`, if any.
    pub fn get(&self, key: &ParseCacheKey) -> (r: Option<&A>)
        requires
            self.wf(),
        ensures
            match r {
                Some(a) => self.entries_view().dom().contains(key_view(*key)) && *a == self.entries_view()[key_view(*key)],
                None => !self.entries_view().dom().contains(key_view(*key)),
            },
    {
        proof {
            lemma_assoc_dom(self.entry_pairs(), key_view(*key));
        }
        match self.find_entry(key) {
            Some(i) => {
                proof {
                    lemma_assoc_at(self.entry_pairs(), i as int);
                }
                Some(&self.entries[i].1)
            },
            None => None,
        }
    }

    /// The parse last put in for `path`, if any.
    pub fn latest_for_path(&self, path: &str) -> (r: Option<&A>)
        requires
            self.wf(),
        ensures
            match r {
                Some(a) => self.latest_value(path@) == Some(*a),
                None => self.latest_value(path@) is None,
            },
    {
        proof {
            lemma_assoc_dom(self.path_pairs(), path@);
        }
        match self.find_path(path) {
            Some(j) => {
                proof {
                    lemma_assoc_at(self.path_pairs(), j as int);
                }
                self.get(&self.latest_by_path[j].1)
            },
            None => None,
        }
    }

    /// How many parses are held.
    pub fn len(&self) -> (r: usize)
        requires
            self.wf(),
        ensures
            r == self.entries_view().dom().len(),
    {
        proof {
            lemma_assoc_len(self.entry_pairs());
        }
        self.entries.len()
    }
}

impl<A> Default for ParseCache<A> {
    /// An empty cache.
    fn default() -> (r: Self)
        ensures
            r.wf(),
            r.entries_view().is_empty(),
            r.latest_view().is_empty(),
    {
        let r = ParseCache { entries: Vec::new(), latest_by_path: Vec::new() };
        proof {
            assert(r.entry_pairs() =~= Seq::empty());
            assert(r.path_pairs() =~= Seq::empty());
        }
        r
    }
}

/// What an upsert of `artifact` under `key` leaves: a lookup of the key, and of the key's
/// path, gives the artifact back, and every other key holds what it held before.
pub proof fn law_cache_reads_back_writes<A>(
    before: ParseCache<A>,
    after: ParseCache<A>,
    key: ParseCacheKey,
    artifact: A,
    other: (Seq<char>, Seq<char>),
)
    requires
        after.entries_view() == before.entries_view().insert(key_view(key), artifact),
        after.latest_view() == before.latest_view().insert(key.path@, key_view(key)),
        other != key_view(key),
    ensures
        after.entries_view().dom().contains(key_view(key)),
        after.entries_view()[key_view(key)] == artifact,
        after.latest_value(key.path@) == Some(artifact),
        after.entries_view().dom().contains(other) == before.entries_view().dom().contains(other),
        before.entries_view().dom().contains(other) ==> after.entries_view()[other] == before.entries_view()[other],
{
}

} // verus!
