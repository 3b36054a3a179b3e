//! Transport configuration values.

use vstd::prelude::*;
use crate::text::str_eq;

verus! {

/// The map that a list of key/value entries denotes: a later entry for a key
/// overrides an earlier one.
pub open spec fn entries_map(s: Seq<(String, String)>) -> Map<Seq<char>, Seq<char>>
    decreases s.len(),
{
    if s.len() == 0 {
        Map::empty()
    } else {
        entries_map(s.drop_last()).insert(s.last().0@, s.last().1@)
    }
}

/// Keys of the entries from `i` on differ from `k`.
pub open spec fn key_absent_from(s: Seq<(String, String)>, i: int, k: Seq<char>) -> bool {
    forall|j: int| i <= j < s.len() ==> #[trigger] s[j].0@ != k
}

/// No two entries share a key.
pub open spec fn keys_unique(s: Seq<(String, String)>) -> bool {
    forall|i: int, j: int| 0 <= i < j < s.len() ==> #[trigger] s[i].0@ != #[trigger] s[j].0@
}

/// Dropping entries whose key is not `k` leaves what the map holds at `k`.
proof fn lemma_prefix_agrees(s: Seq<(String, String)>, i: int, k: Seq<char>)
    requires
        0 <= i <= s.len(),
        key_absent_from(s, i, k),
    ensures
        entries_map(s).contains_key(k) == entries_map(s.subrange(0, i)).contains_key(k),
        entries_map(s).contains_key(k) ==> entries_map(s)[k] == entries_map(s.subrange(0, i))[k],
    decreases s.len() - i,
{
    if i < s.len() {
        let t = s.subrange(0, i + 1);
        lemma_prefix_agrees(s, i + 1, k);
        assert(t.drop_last() =~= s.subrange(0, i));
    }
    else {
        assert(s.subrange(0, i) =~= s);
    }
}

/// Replacing the value of the last entry with key `k` updates the map at `k`.
proof fn lemma_update_entry(s: Seq<(String, String)>, i: int, e: (String, String))
    requires
        0 <= i < s.len(),
        s[i].0@ == e.0@,
        key_absent_from(s, i + 1, e.0@),
    ensures
        entries_map(s.update(i, e)) == entries_map(s).insert(e.0@, e.1@),
    decreases s.len(),
{
    let u = s.update(i, e);
    if i == s.len() - 1 {
        assert(u.drop_last() =~= s.drop_last());
        assert(entries_map(u) =~= entries_map(s).insert(e.0@, e.1@));
    } else {
        lemma_update_entry(s.drop_last(), i, e);
        assert(u.drop_last() =~= s.drop_last().update(i, e));
        assert(s.last().0@ != e.0@);
        assert(entries_map(u) =~= entries_map(s).insert(e.0@, e.1@));
    }
}

/// A string-to-string map with one entry per key, such as the extra options of a
/// transport configuration.
#[derive(Debug)]
pub struct ConfigMap {
    entries: Vec<(String, String)>,
}

impl View for ConfigMap {
    type V = Map<Seq<char>, Seq<char>>;

    closed spec fn view(&self) -> Map<Seq<char>, Seq<char>> {
        entries_map(self.entries@)
    }
}

impl ConfigMap {
    /// Keys of the stored entries are distinct.
    pub closed spec fn wf(&self) -> bool {
        keys_unique(self.entries@)
    }

    /// An empty map.
    pub fn new() -> (r: ConfigMap)
        ensures
            r.wf(),
            r@ == Map::<Seq<char>, Seq<char>>::empty(),
    {
        ConfigMap { entries: Vec::new() }
    }

    /// Index of the entry with key `k`, if there is one.
    fn find(&self, k: &str) -> (r: Option<usize>)
        ensures
            match r {
                Some(i) => i < self.entries@.len() && self.entries@[i as int].0@ == k@
                    && key_absent_from(self.entries@, i + 1, k@),
                None => key_absent_from(self.entries@, 0, k@),
            },
    {
        let mut i: usize = self.entries.len();
        while i > 0
            invariant
                i <= self.entries@.len(),
                key_absent_from(self.entries@, i as int, k@),
            decreases i,
        {
            if str_eq(self.entries[i - 1].0.as_str(), k) {
                return Some(i - 1);
            }
            i = i - 1;
        }
        None
    }

    /// The value stored under `k`.
    pub fn get(&self, k: &str) -> (r: Option<&String>)
        ensures
            match r {
                Some(v) => self@.contains_key(k@) && v@ == self@[k@],
                None => !self@.contains_key(k@),
            },
    {
        match self.find(k) {
            Some(i) => {
                proof {
                    let s = self.entries@;
                    lemma_prefix_agrees(s, i + 1, k@);
                    assert(s.subrange(0, i + 1).drop_last() =~= s.subrange(0, i as int));
                }
                Some(&self.entries[i].1)
            },
            None => {
                proof {
                    lemma_prefix_agrees(self.entries@, 0, k@);
                }
                None
            },
        }
    }

    /// A copy of the value stored under `k`.
    pub fn get_cloned(&self, k: &str) -> (r: Option<String>)
        ensures
            opt_view(r) == lookup(self@, k@),
    {
        match self.get(k) {
            Some(v) => Some(v.clone()),
            None => None,
        }
    }

    /// Whether some value is stored under `k`.
    pub fn contains_key(&self, k: &str) -> (r: bool)
        ensures
            r == self@.contains_key(k@),
    {
        self.get(k).is_some()
    }

    /// Stores `v` under `k`, replacing any earlier value.
    pub fn insert(&mut self, k: String, v: String)
        requires
            old(self).wf(),
        ensures
            final(self).wf(),
            final(self)@ == old(self)@.insert(k@, v@),
    {
        match self.find(k.as_str()) {
            Some(i) => {
                proof {
                    lemma_update_entry(self.entries@, i as int, (k, v));
                }
                self.entries.set(i, (k, v));
            },
            None => {
                let ghost s = self.entries@;
                self.entries.push((k, v));
                proof {
                    assert(self.entries@.drop_last() =~= s);
                }
            },
        }
    }
}

/// The value a map holds at `k`, if any.
pub open spec fn lookup(m: Map<Seq<char>, Seq<char>>, k: Seq<char>) -> Option<Seq<char>> {
    if m.contains_key(k) {
        Some(m[k])
    } else {
        None
    }
}

/// The characters of an optional string.
pub open spec fn opt_view(o: Option<String>) -> Option<Seq<char>> {
    match o {
        Some(s) => Some(s@),
        None => None,
    }
}

/// How to reach a remote endpoint: protocol, host, port, TLS, credentials and
/// protocol-specific options.
#[derive(Debug)]
pub struct TransportConfig {
    /// Protocol name, compared without regard to case.
    pub protocol: String,
    pub host: String,
    pub port: u16,
    pub tls: bool,
    pub username: Option<String>,
    pub password: Option<String>,
    /// Protocol-specific overrides such as `custom_port` or `tls`.
    pub additional_config: ConfigMap,
}

} // verus!
