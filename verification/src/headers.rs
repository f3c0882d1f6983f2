//! Text maps of header names to header values, and the injector and
//! extractor views through which trace context is written and read.

use vstd::prelude::*;

verus! {

/// The map that a list of `(name, value)` pairs denotes, a later pair
/// overriding an earlier one with the same name.
pub open spec fn pairs_map(s: Seq<(Seq<char>, Seq<char>)>) -> Map<Seq<char>, Seq<char>>
    decreases s.len(),
{
    if s.len() == 0 {
        Map::empty()
    } else {
        pairs_map(s.drop_last()).insert(s.last().0, s.last().1)
    }
}

/// The names of a list of pairs, in order.
pub open spec fn pair_names(s: Seq<(Seq<char>, Seq<char>)>) -> Seq<Seq<char>> {
    s.map_values(|p: (Seq<char>, Seq<char>)| p.0)
}

/// No name occurs twice in the list.
pub open spec fn names_distinct(s: Seq<(Seq<char>, Seq<char>)>) -> bool {
    forall|i: int, j: int| 0 <= i < j < s.len() ==> #[trigger] s[i].0 != #[trigger] s[j].0
}

proof fn lemma_pairs_map_has(s: Seq<(Seq<char>, Seq<char>)>, i: int)
    requires
        names_distinct(s),
        0 <= i < s.len(),
    ensures
        pairs_map(s).contains_key(s[i].0),
        pairs_map(s)[s[i].0] == s[i].1,
    decreases s.len(),
{
    if i < s.len() - 1 {
        let t = s.drop_last();
        assert(t[i] == s[i]);
        assert(names_distinct(t)) by {
            assert forall|a: int, b: int| 0 <= a < b < t.len() implies #[trigger] t[a].0
                != #[trigger] t[b].0 by {
                assert(t[a] == s[a] && t[b] == s[b]);
            }
        }
        lemma_pairs_map_has(t, i);
        assert(s[i].0 != s[s.len() - 1].0);
    }
}

proof fn lemma_pairs_map_lacks(s: Seq<(Seq<char>, Seq<char>)>, k: Seq<char>)
    requires
        forall|i: int| 0 <= i < s.len() ==> #[trigger] s[i].0 != k,
    ensures
        !pairs_map(s).contains_key(k),
    decreases s.len(),
{
    if s.len() > 0 {
        let t = s.drop_last();
        assert forall|i: int| 0 <= i < t.len() implies #[trigger] t[i].0 != k by {
            assert(t[i] == s[i]);
        }
        lemma_pairs_map_lacks(t, k);
        assert(s[s.len() - 1].0 != k);
    }
}

proof fn lemma_pairs_map_dom(s: Seq<(Seq<char>, Seq<char>)>)
    ensures
        pairs_map(s).dom() == pair_names(s).to_set(),
    decreases s.len(),
{
    if s.len() > 0 {
        let t = s.drop_last();
        lemma_pairs_map_dom(t);
        assert(pair_names(t) == pair_names(s).drop_last());
        assert(pairs_map(s).dom() =~= pair_names(s).to_set()) by {
            assert forall|k: Seq<char>| #[trigger] pair_names(s).to_set().contains(k) implies
                pairs_map(s).dom().contains(k) by {
                let j = choose|j: int| 0 <= j < pair_names(s).len() && pair_names(s)[j] == k;
                if j < s.len() - 1 {
                    assert(pair_names(t)[j] == k);
                    assert(pair_names(t).to_set().contains(k));
                }
            }
            assert forall|k: Seq<char>| pairs_map(s).dom().contains(k) implies #[trigger] pair_names(
                s,
            ).to_set().contains(k) by {
                if k == s.last().0 {
                    assert(pair_names(s)[s.len() - 1] == k);
                } else {
                    assert(pair_names(t).to_set().contains(k));
                    let j = choose|j: int| 0 <= j < pair_names(t).len() && pair_names(t)[j] == k;
                    assert(pair_names(s)[j] == k);
                }
            }
        }
    } else {
        assert(pairs_map(s).dom() =~= pair_names(s).to_set());
    }
}

proof fn lemma_pairs_map_len(s: Seq<(Seq<char>, Seq<char>)>)
    requires
        names_distinct(s),
    ensures
        pairs_map(s).dom().finite(),
        pairs_map(s).dom().len() == s.len(),
{
    lemma_pairs_map_dom(s);
    let names = pair_names(s);
    assert(names.no_duplicates()) by {
        assert forall|i: int, j: int|
            0 <= i < names.len() && 0 <= j < names.len() && i != j implies names[i]
            != names[j] by {
            if i < j {
                assert(s[i].0 != s[j].0);
            } else {
                assert(s[j].0 != s[i].0);
            }
        }
    }
    names.unique_seq_to_set();
}

proof fn lemma_pair_names(s: Seq<(Seq<char>, Seq<char>)>)
    requires
        names_distinct(s),
    ensures
        pair_names(s).no_duplicates(),
        pair_names(s).to_set() == pairs_map(s).dom(),
        pair_names(s).len() == pairs_map(s).dom().len(),
        pairs_map(s).dom().finite(),
{
    lemma_pairs_map_dom(s);
    lemma_pairs_map_len(s);
    let names = pair_names(s);
    assert forall|i: int, j: int|
        0 <= i < names.len() && 0 <= j < names.len() && i != j implies names[i] != names[j] by {
        if i < j {
            assert(s[i].0 != s[j].0);
        } else {
            assert(s[j].0 != s[i].0);
        }
    }
}

proof fn lemma_pairs_map_update(s: Seq<(Seq<char>, Seq<char>)>, i: int, v: Seq<char>)
    requires
        names_distinct(s),
        0 <= i < s.len(),
    ensures
        pairs_map(s.update(i, (s[i].0, v))) == pairs_map(s).insert(s[i].0, v),
    decreases s.len(),
{
    let u = s.update(i, (s[i].0, v));
    if i == s.len() - 1 {
        assert(u.drop_last() == s.drop_last());
        assert(pairs_map(u) =~= pairs_map(s).insert(s[i].0, v));
    } else {
        let t = s.drop_last();
        assert(names_distinct(t)) by {
            assert forall|a: int, b: int| 0 <= a < b < t.len() implies #[trigger] t[a].0
                != #[trigger] t[b].0 by {
                assert(t[a] == s[a] && t[b] == s[b]);
            }
        }
        assert(t[i] == s[i]);
        lemma_pairs_map_update(t, i, v);
        assert(u.drop_last() == t.update(i, (t[i].0, v)));
        assert(u.last() == s.last());
        assert(s[i].0 != s.last().0);
        assert(pairs_map(u) =~= pairs_map(s).insert(s[i].0, v));
    }
}

/// A map from header names to header values.
///
/// Names are compared exactly; a name occurs at most once, and setting a
/// name that is present replaces its value.
pub struct HeaderMap {
    entries: Vec<(String, String)>,
}

impl View for HeaderMap {
    type V = Map<Seq<char>, Seq<char>>;

    closed spec fn view(&self) -> Map<Seq<char>, Seq<char>> {
        pairs_map(self.pairs())
    }
}

impl HeaderMap {
    /// The entries as pairs of character sequences, in insertion order.
    pub closed spec fn pairs(&self) -> Seq<(Seq<char>, Seq<char>)> {
        self.entries@.map_values(|e: (String, String)| (e.0@, e.1@))
    }

    /// The header names, in the order in which they were first inserted.
    pub closed spec fn names(&self) -> Seq<Seq<char>> {
        pair_names(self.pairs())
    }

    /// No name is stored twice.
    #[verifier::type_invariant]
    closed spec fn inv(self) -> bool {
        names_distinct(self.pairs())
    }

    /// An empty map.
    pub fn new() -> (m: HeaderMap)
        ensures
            m@ == Map::<Seq<char>, Seq<char>>::empty(),
            m.names() == Seq::<Seq<char>>::empty(),
    {
        let m = HeaderMap { entries: Vec::new() };
        assert(m.pairs() =~= Seq::<(Seq<char>, Seq<char>)>::empty());
        assert(m.names() =~= Seq::<Seq<char>>::empty());
        m
    }

    /// The position of `name` among the entries, if it is present.
    fn position(&self, name: &String) -> (r: Option<usize>)
        ensures
            match r {
                Some(i) => i < self.pairs().len() && self.pairs()[i as int].0 == name@,
                None => forall|i: int| 0 <= i < self.pairs().len() ==> #[trigger] self.pairs()[i].0 != name@,
            },
    {
        let n = self.entries.len();
        let mut i: usize = 0;
        while i < n
            invariant
                n == self.entries@.len(),
                i <= n,
                forall|j: int| 0 <= j < i ==> #[trigger] self.pairs()[j].0 != name@,
            decreases n - i,
        {
            if self.entries[i].0 == *name {
                return Some(i);
            }
            i = i + 1;
        }
        None
    }

    /// The number of names in the map.
    pub fn len(&self) -> (n: usize)
        ensures
            n == self@.dom().len(),
            self@.dom().finite(),
    {
        proof {
            use_type_invariant(self);
            lemma_pairs_map_len(self.pairs());
        }
        self.entries.len()
    }

    /// Whether the map holds `name`.
    pub fn contains_key(&self, name: &str) -> (b: bool)
        ensures
            b == self@.contains_key(name@),
    {
        proof {
            use_type_invariant(self);
        }
        let key = name.to_owned();
        match self.position(&key) {
            Some(i) => {
                proof {
                    lemma_pairs_map_has(self.pairs(), i as int);
                }
                true
            },
            None => {
                proof {
                    lemma_pairs_map_lacks(self.pairs(), key@);
                }
                false
            },
        }
    }

    /// The value stored under `name`, if any.
    pub fn get(&self, name: &str) -> (r: Option<&str>)
        ensures
            match r {
                Some(v) => self@.contains_key(name@) && v@ == self@[name@],
                None => !self@.contains_key(name@),
            },
    {
        proof {
            use_type_invariant(self);
        }
        let key = name.to_owned();
        match self.position(&key) {
            Some(i) => {
                proof {
                    lemma_pairs_map_has(self.pairs(), i as int);
                }
                Some(self.entries[i].1.as_str())
            },
            None => {
                proof {
                    lemma_pairs_map_lacks(self.pairs(), key@);
                }
                None
            },
        }
    }

    /// Stores `value` under `name`, and gives back the value it replaces.
    pub fn insert(&mut self, name: &str, value: String) -> (r: Option<String>)
        ensures
            final(self)@ == old(self)@.insert(name@, value@),
            old(self)@.contains_key(name@) ==> final(self).names() == old(self).names(),
            !old(self)@.contains_key(name@) ==> final(self).names() == old(self).names().push(
                name@,
            ),
            match r {
                Some(p) => old(self)@.contains_key(name@) && p@ == old(self)@[name@],
                None => !old(self)@.contains_key(name@),
            },
    {
        proof {
            use_type_invariant(&*self);
        }
        let key = name.to_owned();
        let ghost before = self.pairs();
        match self.position(&key) {
            Some(i) => {
                proof {
                    lemma_pairs_map_has(before, i as int);
                    lemma_pairs_map_update(before, i as int, value@);
                }
                let ghost vv = value@;
                let mut entries: Vec<(String, String)> = Vec::new();
                std::mem::swap(&mut entries, &mut self.entries);
                let prev = entries[i].1.clone();
                entries.set(i, (key, value));
                assert(entries@.map_values(|e: (String, String)| (e.0@, e.1@)) =~= before.update(
                    i as int,
                    (before[i as int].0, vv),
                ));
                self.entries = entries;
                assert(pair_names(self.pairs()) =~= pair_names(before));
                Some(prev)
            },
            None => {
                proof {
                    lemma_pairs_map_lacks(before, key@);
                }
                let ghost vv = value@;
                let mut entries: Vec<(String, String)> = Vec::new();
                std::mem::swap(&mut entries, &mut self.entries);
                entries.push((key, value));
                assert(entries@.map_values(|e: (String, String)| (e.0@, e.1@)) =~= before.push(
                    (name@, vv),
                ));
                self.entries = entries;
                assert(self.pairs().drop_last() =~= before);
                assert(pair_names(self.pairs()) =~= pair_names(before).push(name@));
                None
            },
        }
    }

    /// The header names, in the order in which they were first inserted.
    pub fn keys(&self) -> (r: Vec<&str>)
        ensures
            r@.map_values(|s: &str| s@) == self.names(),
            self.names().no_duplicates(),
            self.names().to_set() == self@.dom(),
    {
        proof {
            use_type_invariant(self);
            lemma_pair_names(self.pairs());
        }
        let n = self.entries.len();
        let mut r: Vec<&str> = Vec::new();
        let mut i: usize = 0;
        while i < n
            invariant
                n == self.entries@.len(),
                i <= n,
                r@.len() == i,
                forall|j: int| 0 <= j < i ==> #[trigger] r@[j]@ == self.names()[j],
            decreases n - i,
        {
            r.push(self.entries[i].0.as_str());
            i = i + 1;
        }
        assert(r@.map_values(|s: &str| s@) =~= self.names());
        r
    }
}

/// Reading a header back after setting it gives the value set, and every
/// other header keeps its value.
pub proof fn law_set_then_get(m: HeaderMap, key: Seq<char>, value: Seq<char>, other: Seq<char>)
    ensures
        m@.insert(key, value).contains_key(key),
        m@.insert(key, value)[key] == value,
        other != key ==> (m@.insert(key, value).contains_key(other) == m@.contains_key(other)),
        other != key && m@.contains_key(other) ==> m@.insert(key, value)[other] == m@[other],
{
}

/// Setting a header that is present keeps the number of headers; setting
/// one that is absent adds one.
pub proof fn law_set_count(m: Map<Seq<char>, Seq<char>>, key: Seq<char>, value: Seq<char>)
    requires
        m.dom().finite(),
    ensures
        m.contains_key(key) ==> m.insert(key, value).dom().len() == m.dom().len(),
        !m.contains_key(key) ==> m.insert(key, value).dom().len() == m.dom().len() + 1,
{
    if m.contains_key(key) {
        assert(m.insert(key, value).dom() =~= m.dom());
    } else {
        assert(m.insert(key, value).dom() =~= m.dom().insert(key));
    }
}

/// Writes trace context into a header map that it borrows.
pub struct HeaderInjector<'a>(pub &'a mut HeaderMap);

impl<'a> HeaderInjector<'a> {
    /// Sets header `key` to `value`, replacing any value it had; the
    /// injector goes on writing into the same map.
    pub fn set(&mut self, key: &str, value: String)
        ensures
            final(self).0@ == old(self).0@.insert(key@, value@),
            *final(final(self).0) == *final(old(self).0),
    {
        self.0.insert(key, value);
    }
}

/// Reads trace context out of a header map that it borrows.
pub struct HeaderExtractor<'a>(pub &'a HeaderMap);

impl<'a> HeaderExtractor<'a> {
    /// The value of header `key`, if it is present.
    pub fn get(&self, key: &str) -> (r: Option<&str>)
        ensures
            match r {
                Some(v) => self.0@.contains_key(key@) && v@ == self.0@[key@],
                None => !self.0@.contains_key(key@),
            },
    {
        self.0.get(key)
    }

    /// The names of all headers present.
    pub fn keys(&self) -> (r: Vec<&str>)
        ensures
            r@.map_values(|s: &str| s@) == self.0.names(),
            self.0.names().no_duplicates(),
            self.0.names().to_set() == self.0@.dom(),
    {
        self.0.keys()
    }
}

} // verus!
