//! The in-memory key-value store.
//!
//! A `Store` is a mapping from string keys to byte-sequence values.  Its
//! model is a `Map<Seq<char>, Seq<u8>>`: `get` looks a key up in that map,
//! and `set` replaces the binding of a key unconditionally, whole value at
//! a time, so a reader observes either the value before or the value after
//! a replacement and never a mixture.  Growth is unbounded by design.

use vstd::prelude::*;

verus! {

/// One binding: a key and its value.
type Entry = (String, Vec<u8>);

/// No two entries bind the same key.
pub open spec fn keys_unique(s: Seq<Entry>) -> bool {
    forall|i: int, j: int| 0 <= i < j < s.len() ==> s[i].0@ != s[j].0@
}

/// The mapping a sequence of bindings denotes; later entries would win,
/// though a well-formed store never holds two entries for one key.
pub open spec fn map_of(s: Seq<Entry>) -> Map<Seq<char>, Seq<u8>>
    decreases s.len(),
{
    if s.len() == 0 {
        Map::empty()
    } else {
        map_of(s.drop_last()).insert(s.last().0@, s.last().1@)
    }
}

/// A key is bound in `map_of(s)` exactly when some entry binds it.
proof fn lemma_map_of_domain(s: Seq<Entry>, k: Seq<char>)
    ensures
        map_of(s).contains_key(k) <==> exists|i: int| 0 <= i < s.len() && s[i].0@ == k,
    decreases s.len(),
{
    if s.len() > 0 {
        lemma_map_of_domain(s.drop_last(), k);
        if map_of(s).contains_key(k) {
            if s.last().0@ == k {
                assert(s[s.len() - 1].0@ == k);
            } else {
                let i = choose|i: int| 0 <= i < s.drop_last().len() && s.drop_last()[i].0@ == k;
                assert(s[i].0@ == k);
            }
        }
        if exists|i: int| 0 <= i < s.len() && s[i].0@ == k {
            let i = choose|i: int| 0 <= i < s.len() && s[i].0@ == k;
            if i < s.len() - 1 {
                assert(s.drop_last()[i].0@ == k);
            }
        }
    }
}

/// Under unique keys, the entry that binds a key gives its value in the map.
proof fn lemma_map_of_index(s: Seq<Entry>, i: int)
    requires
        keys_unique(s),
        0 <= i < s.len(),
    ensures
        map_of(s).contains_key(s[i].0@),
        map_of(s)[s[i].0@] == s[i].1@,
    decreases s.len(),
{
    if i == s.len() - 1 {
        assert(s.last() == s[i]);
    } else {
        lemma_map_of_index(s.drop_last(), i);
        assert(s.drop_last()[i] == s[i]);
        assert(s.last().0@ != s[i].0@);
    }
}

/// Replacing the value of the entry that binds a key updates the map at
/// that key and nothing else.
proof fn lemma_map_of_update(s: Seq<Entry>, i: int, e: Entry)
    requires
        keys_unique(s),
        0 <= i < s.len(),
        s[i].0@ == e.0@,
    ensures
        map_of(s.update(i, e)) == map_of(s).insert(e.0@, e.1@),
    decreases s.len(),
{
    let s2 = s.update(i, e);
    if i == s.len() - 1 {
        assert(s2.drop_last() =~= s.drop_last());
        assert(map_of(s.drop_last()).insert(e.0@, e.1@) =~= map_of(s.drop_last()).insert(
            s.last().0@,
            s.last().1@,
        ).insert(e.0@, e.1@));
    } else {
        assert(s2.drop_last() =~= s.drop_last().update(i, e));
        lemma_map_of_update(s.drop_last(), i, e);
        assert(s2.last() == s.last());
        assert(map_of(s.drop_last()).insert(e.0@, e.1@).insert(s.last().0@, s.last().1@)
            =~= map_of(s.drop_last()).insert(s.last().0@, s.last().1@).insert(e.0@, e.1@));
    }
}

/// The shared in-memory map from string keys to byte-sequence values.
pub struct Store {
    entries: Vec<Entry>,
}

impl View for Store {
    type V = Map<Seq<char>, Seq<u8>>;

    closed spec fn view(&self) -> Map<Seq<char>, Seq<u8>> {
        map_of(self.entries@)
    }
}

#[verifier::type_invariant]
spec fn store_inv(s: &Store) -> bool {
    keys_unique(s.entries@)
}

impl Store {
    /// An empty store; the process creates one at startup and shares it
    /// with every connection.
    pub fn new() -> (r: Store)
        ensures
            r@ == Map::<Seq<char>, Seq<u8>>::empty(),
    {
        Store { entries: Vec::new() }
    }

    /// The index of the entry binding `key`, if any.
    fn find(&self, key: &String) -> (r: Option<usize>)
        ensures
            match r {
                Option::Some(i) => i < self.entries@.len() && self.entries@[i as int].0@ == key@,
                Option::None => forall|i: int|
                    0 <= i < self.entries@.len() ==> self.entries@[i].0@ != key@,
            },
    {
        let n = self.entries.len();
        let mut i: usize = 0;
        while i < n
            invariant
                n == self.entries@.len(),
                0 <= i <= n,
                forall|j: int| 0 <= j < i ==> self.entries@[j].0@ != key@,
            decreases n - i,
        {
            if self.entries[i].0 == *key {
                return Option::Some(i);
            }
            i = i + 1;
        }
        Option::None
    }

    /// Looks `key` up: the bound value, or nothing where the key is absent.
    /// The store is not changed.
    pub fn get(&self, key: &String) -> (r: Option<Vec<u8>>)
        ensures
            match r {
                Option::Some(v) => self@.contains_key(key@) && v@ == self@[key@],
                Option::None => !self@.contains_key(key@),
            },
    {
        proof {
            use_type_invariant(self);
            lemma_map_of_domain(self.entries@, key@);
        }
        match self.find(key) {
            Option::Some(i) => {
                proof {
                    lemma_map_of_index(self.entries@, i as int);
                }
                Option::Some(vstd::slice::slice_to_vec(self.entries[i].1.as_slice()))
            },
            Option::None => Option::None,
        }
    }

    /// Binds `key` to `value`, replacing any earlier binding
    /// unconditionally.
    pub fn set(&mut self, key: String, value: Vec<u8>)
        ensures
            final(self)@ == old(self)@.insert(key@, value@),
    {
        proof {
            use_type_invariant(&*self);
            lemma_map_of_domain(self.entries@, key@);
        }
        let idx = self.find(&key);
        let mut es: Vec<Entry> = Vec::new();
        core::mem::swap(&mut self.entries, &mut es);
        match idx {
            Option::Some(i) => {
                proof {
                    lemma_map_of_update(es@, i as int, (key, value));
                }
                es.set(i, (key, value));
            },
            Option::None => {
                let ghost s = es@;
                es.push((key, value));
                proof {
                    assert(es@.drop_last() =~= s);
                }
            },
        }
        self.entries = es;
    }
}

} // verus!
