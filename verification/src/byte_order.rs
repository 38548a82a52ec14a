//! Lexicographic order on byte strings, the order in which annotation keys
//! are kept and traversed.

use vstd::prelude::*;

verus! {

/// `a` and `b` hold the same byte at every position before `n`.
pub open spec fn agree_before(a: Seq<u8>, b: Seq<u8>, n: int) -> bool {
    &&& 0 <= n <= a.len()
    &&& n <= b.len()
    &&& forall|j: int| 0 <= j < n ==> a[j] == b[j]
}

/// Position `n` decides that `a` comes before `b`: the two agree before `n`,
/// and at `n` either `a` has ended while `b` goes on, or `a` holds the
/// smaller byte.
pub open spec fn less_at(a: Seq<u8>, b: Seq<u8>, n: int) -> bool {
    &&& agree_before(a, b, n)
    &&& n < b.len()
    &&& (n == a.len() || a[n] < b[n])
}

/// `a` comes strictly before `b` in lexicographic order.
pub open spec fn lex_less(a: Seq<u8>, b: Seq<u8>) -> bool {
    exists|n: int| less_at(a, b, n)
}

/// No byte string comes before itself.
pub proof fn lemma_lex_irreflexive(a: Seq<u8>)
    ensures
        !lex_less(a, a),
{
}

/// Of two byte strings at most one comes before the other.
pub proof fn lemma_lex_asymmetric(a: Seq<u8>, b: Seq<u8>)
    requires
        lex_less(a, b),
    ensures
        !lex_less(b, a),
{
    let n = choose|n: int| less_at(a, b, n);
    if lex_less(b, a) {
        let m = choose|m: int| less_at(b, a, m);
        if n < m {
            assert(b[n] == a[n]);
        } else if m < n {
            assert(a[m] == b[m]);
        }
    }
}

/// The order is transitive.
pub proof fn lemma_lex_transitive(a: Seq<u8>, b: Seq<u8>, c: Seq<u8>)
    requires
        lex_less(a, b),
        lex_less(b, c),
    ensures
        lex_less(a, c),
{
    let n = choose|n: int| less_at(a, b, n);
    let m = choose|m: int| less_at(b, c, m);
    if n <= m {
        assert forall|j: int| 0 <= j < n implies a[j] == c[j] by {
            assert(a[j] == b[j]);
            assert(b[j] == c[j]);
        }
        if n < m {
            assert(b[n] == c[n]);
        }
        assert(less_at(a, c, n));
    } else {
        assert forall|j: int| 0 <= j < m implies a[j] == c[j] by {
            assert(a[j] == b[j]);
            assert(b[j] == c[j]);
        }
        assert(a[m] == b[m]);
        assert(less_at(a, c, m));
    }
}

/// How one byte string stands to another in lexicographic order.
#[derive(Clone, Copy, Debug, PartialEq, Eq, Structural)]
pub enum KeyOrder {
    Before,
    Same,
    After,
}

/// Compares two byte strings lexicographically.
pub fn compare_bytes(a: &[u8], b: &[u8]) -> (r: KeyOrder)
    ensures
        r is Before <==> lex_less(a@, b@),
        r is Same <==> a@ == b@,
        r is After <==> lex_less(b@, a@),
{
    let mut i: usize = 0;
    while i < a.len() && i < b.len() && a[i] == b[i]
        invariant
            agree_before(a@, b@, i as int),
        decreases a.len() - i,
    {
        i += 1;
    }
    proof {
        lemma_lex_irreflexive(a@);
        if lex_less(a@, b@) {
            lemma_lex_asymmetric(a@, b@);
        }
        if lex_less(b@, a@) {
            lemma_lex_asymmetric(b@, a@);
        }
        assert(agree_before(b@, a@, i as int));
    }
    if i == a.len() {
        if i == b.len() {
            assert(a@ =~= b@);
            KeyOrder::Same
        } else {
            assert(less_at(a@, b@, i as int));
            KeyOrder::Before
        }
    } else if i == b.len() {
        assert(less_at(b@, a@, i as int));
        KeyOrder::After
    } else if a[i] < b[i] {
        assert(less_at(a@, b@, i as int));
        KeyOrder::Before
    } else {
        assert(less_at(b@, a@, i as int));
        KeyOrder::After
    }
}

} // verus!
