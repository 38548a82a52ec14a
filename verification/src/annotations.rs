//! The annotation store of a span: byte-string keys mapped to byte-string
//! values, kept sorted by key with every key held once.

use vstd::prelude::*;
use crate::byte_order::KeyOrder;
use crate::byte_order::compare_bytes;
use crate::byte_order::lemma_lex_irreflexive;
use crate::byte_order::lemma_lex_transitive;
use crate::byte_order::lex_less;

verus! {

/// The mathematical model of an annotation store: its key/value pairs in
/// traversal order.
pub type Entries = Seq<(Seq<u8>, Seq<u8>)>;

/// Keys strictly increase along the sequence, so no key occurs twice.
pub open spec fn sorted_by_key(s: Entries) -> bool {
    forall|i: int, j: int|
        #![trigger s[i], s[j]]
        0 <= i < j < s.len() ==> lex_less(s[i].0, s[j].0)
}

/// Some pair of `s` has the key `key`.
pub open spec fn has_key(s: Entries, key: Seq<u8>) -> bool {
    exists|i: int| 0 <= i < s.len() && (#[trigger] s[i]).0 == key
}

/// The value that `s` holds under `key`, where it has that key.
pub open spec fn value_of(s: Entries, key: Seq<u8>) -> Seq<u8> {
    s[choose|i: int| 0 <= i < s.len() && (#[trigger] s[i]).0 == key].1
}

/// The mapping that the pairs of `s` stand for.
pub open spec fn entries_map(s: Entries) -> Map<Seq<u8>, Seq<u8>> {
    Map::new(|key: Seq<u8>| has_key(s, key), |key: Seq<u8>| value_of(s, key))
}

/// The pairs held by a vector of owned pairs.
pub open spec fn entries_view(v: Seq<(Vec<u8>, Vec<u8>)>) -> Entries {
    Seq::new(v.len(), |i: int| (v[i].0@, v[i].1@))
}

/// In a sorted sequence a key stands at one position only.
pub proof fn lemma_key_found_once(s: Entries, i: int, j: int)
    requires
        sorted_by_key(s),
        0 <= i < s.len(),
        0 <= j < s.len(),
        s[i].0 == s[j].0,
    ensures
        i == j,
{
    lemma_lex_irreflexive(s[i].0);
    if i < j {
        assert(lex_less(s[i].0, s[j].0));
    } else if j < i {
        assert(lex_less(s[j].0, s[i].0));
    }
}

/// The mapping of a sorted sequence holds each of its pairs.
pub proof fn lemma_map_holds_entry(s: Entries, i: int)
    requires
        sorted_by_key(s),
        0 <= i < s.len(),
    ensures
        entries_map(s).contains_key(s[i].0),
        entries_map(s)[s[i].0] == s[i].1,
{
    let key = s[i].0;
    assert(has_key(s, key));
    let j = choose|j: int| 0 <= j < s.len() && (#[trigger] s[j]).0 == key;
    lemma_key_found_once(s, i, j);
}

/// Replacing the value at position `i` keeps the order and overwrites the
/// mapping at that key.
pub proof fn lemma_update_entry(s: Entries, i: int, value: Seq<u8>)
    requires
        sorted_by_key(s),
        0 <= i < s.len(),
    ensures
        sorted_by_key(s.update(i, (s[i].0, value))),
        entries_map(s.update(i, (s[i].0, value))) == entries_map(s).insert(s[i].0, value),
{
    let key = s[i].0;
    let t = s.update(i, (key, value));
    assert forall|a: int, b: int| 0 <= a < b < t.len() implies lex_less(t[a].0, t[b].0) by {
        assert(t[a].0 == s[a].0);
        assert(t[b].0 == s[b].0);
    }
    let m = entries_map(s).insert(key, value);
    assert forall|q: Seq<u8>| entries_map(t).contains_key(q) <==> m.contains_key(q) by {
        if has_key(t, q) {
            let a = choose|a: int| 0 <= a < t.len() && (#[trigger] t[a]).0 == q;
            assert(s[a].0 == q);
        }
        if has_key(s, q) {
            let a = choose|a: int| 0 <= a < s.len() && (#[trigger] s[a]).0 == q;
            assert(t[a].0 == q);
        }
        assert(t[i].0 == key);
    }
    assert forall|q: Seq<u8>| entries_map(t).contains_key(q) implies entries_map(t)[q] == m[q] by {
        let a = choose|a: int| 0 <= a < t.len() && (#[trigger] t[a]).0 == q;
        lemma_map_holds_entry(t, a);
        if a != i {
            assert(s[a].0 == q);
            lemma_map_holds_entry(s, a);
            if q == key {
                lemma_key_found_once(t, a, i);
            }
        }
    }
    assert(entries_map(t) =~= m);
}

/// Inserting a new key at the position where the smaller keys end keeps the
/// order and adds the pair to the mapping.
pub proof fn lemma_insert_entry(s: Entries, i: int, key: Seq<u8>, value: Seq<u8>)
    requires
        sorted_by_key(s),
        0 <= i <= s.len(),
        forall|j: int| 0 <= j < i ==> lex_less((#[trigger] s[j]).0, key),
        forall|j: int| i <= j < s.len() ==> lex_less(key, (#[trigger] s[j]).0),
    ensures
        sorted_by_key(s.insert(i, (key, value))),
        entries_map(s.insert(i, (key, value))) == entries_map(s).insert(key, value),
{
    let t = s.insert(i, (key, value));
    assert forall|a: int, b: int| 0 <= a < b < t.len() implies lex_less(t[a].0, t[b].0) by {
        if b < i {
            assert(t[a] == s[a] && t[b] == s[b]);
        } else if b == i {
            assert(t[a] == s[a]);
        } else if a < i {
            assert(t[a] == s[a] && t[b] == s[b - 1]);
            if b - 1 == i {
                lemma_lex_transitive(s[a].0, key, s[b - 1].0);
            }
        } else if a == i {
            assert(t[b] == s[b - 1]);
        } else {
            assert(t[a] == s[a - 1] && t[b] == s[b - 1]);
        }
    }
    lemma_lex_irreflexive(key);
    let m = entries_map(s).insert(key, value);
    assert forall|q: Seq<u8>| entries_map(t).contains_key(q) <==> m.contains_key(q) by {
        if has_key(t, q) {
            let a = choose|a: int| 0 <= a < t.len() && (#[trigger] t[a]).0 == q;
            if a < i {
                assert(s[a].0 == q);
            } else if a > i {
                assert(s[a - 1].0 == q);
            }
        }
        if has_key(s, q) {
            let a = choose|a: int| 0 <= a < s.len() && (#[trigger] s[a]).0 == q;
            if a < i {
                assert(t[a].0 == q);
            } else {
                assert(t[a + 1].0 == q);
            }
        }
        assert(t[i].0 == key);
    }
    assert forall|q: Seq<u8>| entries_map(t).contains_key(q) implies entries_map(t)[q] == m[q] by {
        let a = choose|a: int| 0 <= a < t.len() && (#[trigger] t[a]).0 == q;
        lemma_map_holds_entry(t, a);
        if a < i {
            assert(s[a] == t[a]);
            lemma_map_holds_entry(s, a);
        } else if a > i {
            assert(s[a - 1] == t[a]);
            lemma_map_holds_entry(s, a - 1);
        }
    }
    assert(entries_map(t) =~= m);
}

proof fn lemma_sorted_prefix_agrees(s: Entries, t: Entries, n: int)
    requires
        sorted_by_key(s),
        sorted_by_key(t),
        entries_map(s) == entries_map(t),
        0 <= n <= s.len(),
    ensures
        n <= t.len(),
        forall|j: int| 0 <= j < n ==> s[j] == t[j],
    decreases n,
{
    if n > 0 {
        let i = n - 1;
        lemma_sorted_prefix_agrees(s, t, i);
        lemma_map_holds_entry(s, i);
        assert(has_key(t, s[i].0));
        let m = choose|m: int| 0 <= m < t.len() && (#[trigger] t[m]).0 == s[i].0;
        lemma_lex_irreflexive(s[i].0);
        if m < i {
            assert(s[m] == t[m]);
            assert(lex_less(s[m].0, s[i].0));
        }
        if m > i {
            lemma_map_holds_entry(t, i);
            assert(has_key(s, t[i].0));
            let p = choose|p: int| 0 <= p < s.len() && (#[trigger] s[p]).0 == t[i].0;
            assert(lex_less(t[i].0, t[m].0));
            if p < i {
                assert(s[p] == t[p]);
                lemma_key_found_once(t, p, i);
            } else if p > i {
                assert(lex_less(s[i].0, s[p].0));
                lemma_lex_transitive(s[i].0, t[i].0, s[i].0);
            }
        }
        assert(m == i);
        lemma_map_holds_entry(t, i);
    }
}

/// A sorted sequence of pairs is determined by the mapping it stands for:
/// the traversal depends on what was stored, not on the order of storing.
pub proof fn lemma_sorted_entries_determined(s: Entries, t: Entries)
    requires
        sorted_by_key(s),
        sorted_by_key(t),
        entries_map(s) == entries_map(t),
    ensures
        s == t,
{
    lemma_sorted_prefix_agrees(s, t, s.len() as int);
    lemma_sorted_prefix_agrees(t, s, t.len() as int);
    assert(s =~= t);
}

/// Storing under the same key twice leaves one pair with that key, and it
/// holds the later value: `s1` is a store after `first` was stored under
/// `key` in `s0`, and `s2` that store after `second` was stored under `key`.
pub proof fn lemma_overwrite_leaves_one_entry(
    s0: Entries,
    s1: Entries,
    s2: Entries,
    key: Seq<u8>,
    first: Seq<u8>,
    second: Seq<u8>,
)
    requires
        sorted_by_key(s2),
        entries_map(s1) == entries_map(s0).insert(key, first),
        entries_map(s2) == entries_map(s1).insert(key, second),
    ensures
        entries_map(s2) == entries_map(s0).insert(key, second),
        exists|i: int|
            0 <= i < s2.len() && #[trigger] s2[i] == (key, second) && forall|j: int|
                0 <= j < s2.len() && (#[trigger] s2[j]).0 == key ==> j == i,
{
    assert(entries_map(s2) =~= entries_map(s0).insert(key, second));
    assert(entries_map(s2).contains_key(key));
    assert(has_key(s2, key));
    let i = choose|i: int| 0 <= i < s2.len() && (#[trigger] s2[i]).0 == key;
    lemma_map_holds_entry(s2, i);
    assert(s2[i] == (key, second));
    assert forall|j: int| 0 <= j < s2.len() && (#[trigger] s2[j]).0 == key implies j == i by {
        lemma_key_found_once(s2, i, j);
    }
}

/// The traversal goes by key, not by the order of storing: two pairs with
/// different keys, stored into `s0` in either order, give the same sorted
/// sequence.
pub proof fn lemma_traversal_ignores_insertion_order(
    s0: Entries,
    a1: Entries,
    a2: Entries,
    b1: Entries,
    b2: Entries,
    key1: Seq<u8>,
    value1: Seq<u8>,
    key2: Seq<u8>,
    value2: Seq<u8>,
)
    requires
        key1 != key2,
        sorted_by_key(a2),
        sorted_by_key(b2),
        entries_map(a1) == entries_map(s0).insert(key1, value1),
        entries_map(a2) == entries_map(a1).insert(key2, value2),
        entries_map(b1) == entries_map(s0).insert(key2, value2),
        entries_map(b2) == entries_map(b1).insert(key1, value1),
    ensures
        a2 == b2,
{
    assert(entries_map(a2) =~= entries_map(b2));
    lemma_sorted_entries_determined(a2, b2);
}

/// Annotations of a span, sorted by key.
pub struct Annotations {
    entries: Vec<(Vec<u8>, Vec<u8>)>,
}

impl View for Annotations {
    type V = Entries;

    closed spec fn view(&self) -> Entries {
        entries_view(self.entries@)
    }
}

impl Annotations {
    #[verifier::type_invariant]
    spec fn keys_increase(self) -> bool {
        sorted_by_key(self@)
    }

    /// An empty store.
    pub fn new() -> (a: Self)
        ensures
            a@ == Seq::<(Seq<u8>, Seq<u8>)>::empty(),
    {
        let a = Annotations { entries: Vec::new() };
        assert(a@ =~= Seq::<(Seq<u8>, Seq<u8>)>::empty());
        a
    }

    /// The position where `key` stands, or where it would be inserted, and
    /// whether it stands there.
    fn slot(&self, key: &[u8]) -> (r: (usize, bool))
        ensures
            r.0 <= self@.len(),
            forall|j: int| 0 <= j < r.0 ==> lex_less((#[trigger] self@[j]).0, key@),
            r.1 ==> r.0 < self@.len() && self@[r.0 as int].0 == key@,
            !r.1 ==> forall|j: int| r.0 <= j < self@.len() ==> lex_less(key@, (#[trigger] self@[j]).0),
    {
        proof {
            use_type_invariant(self);
        }
        let mut lo: usize = 0;
        let mut hi: usize = self.entries.len();
        while lo < hi
            invariant
                lo <= hi <= self.entries.len(),
                self@.len() == self.entries.len(),
                sorted_by_key(self@),
                forall|j: int| 0 <= j < lo ==> lex_less((#[trigger] self@[j]).0, key@),
                forall|j: int| hi <= j < self@.len() ==> lex_less(key@, (#[trigger] self@[j]).0),
            decreases hi - lo,
        {
            let mid: usize = lo + (hi - lo) / 2;
            assert(self@[mid as int].0 == self.entries@[mid as int].0@);
            match compare_bytes(self.entries[mid].0.as_slice(), key) {
                KeyOrder::Before => {
                    assert forall|j: int| 0 <= j < mid + 1 implies lex_less(
                        (#[trigger] self@[j]).0,
                        key@,
                    ) by {
                        if j < mid {
                            assert(lex_less(self@[j].0, self@[mid as int].0));
                            lemma_lex_transitive(self@[j].0, self@[mid as int].0, key@);
                        }
                    }
                    lo = mid + 1;
                },
                KeyOrder::Same => {
                    assert forall|j: int| 0 <= j < mid implies lex_less(
                        (#[trigger] self@[j]).0,
                        key@,
                    ) by {
                        assert(lex_less(self@[j].0, self@[mid as int].0));
                    }
                    return (mid, true);
                },
                KeyOrder::After => {
                    assert forall|j: int| mid <= j < self@.len() implies lex_less(
                        key@,
                        (#[trigger] self@[j]).0,
                    ) by {
                        if mid < j {
                            assert(lex_less(self@[mid as int].0, self@[j].0));
                            lemma_lex_transitive(key@, self@[mid as int].0, self@[j].0);
                        }
                    }
                    hi = mid;
                },
            }
        }
        (lo, false)
    }

    /// Stores `value` under `key`: a new key is added at its place in the
    /// order, a key already held keeps its place and gets the new value.
    pub fn insert(&mut self, key: Vec<u8>, value: Vec<u8>)
        ensures
            sorted_by_key(final(self)@),
            entries_map(final(self)@) == entries_map(old(self)@).insert(key@, value@),
    {
        proof {
            use_type_invariant(&*self);
        }
        let (at, found) = self.slot(key.as_slice());
        let ghost before = self@;
        // The pairs are taken out while they change, so that the store is
        // sorted at every moment: empty in between, complete afterwards.
        let mut entries: Vec<(Vec<u8>, Vec<u8>)> = Vec::new();
        std::mem::swap(&mut self.entries, &mut entries);
        if found {
            entries.set(at, (key, value));
            proof {
                lemma_update_entry(before, at as int, value@);
                assert(entries_view(entries@) =~= before.update(at as int, (key@, value@)));
            }
        } else {
            entries.insert(at, (key, value));
            proof {
                lemma_insert_entry(before, at as int, key@, value@);
                assert(entries_view(entries@) =~= before.insert(at as int, (key@, value@)));
            }
        }
        std::mem::swap(&mut self.entries, &mut entries);
    }

    /// The pairs in key order, borrowed from the store.
    pub fn entries(&self) -> (r: &[(Vec<u8>, Vec<u8>)])
        ensures
            entries_view(r@) == self@,
            sorted_by_key(self@),
    {
        proof {
            use_type_invariant(self);
        }
        self.entries.as_slice()
    }
}

} // verus!
