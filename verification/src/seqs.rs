//! Facts about sequences that the laws of the library use.

use vstd::prelude::*;

verus! {

/// An element is in a concatenation exactly when it is in one of the parts.
pub proof fn lemma_concat_contains<A>(s: Seq<A>, t: Seq<A>, x: A)
    ensures
        (s + t).contains(x) <==> (s.contains(x) || t.contains(x)),
{
    let u = s + t;
    if u.contains(x) {
        let k = choose|k: int| 0 <= k < u.len() && u[k] == x;
        if k < s.len() {
            assert(s[k] == x);
        } else {
            assert(t[k - s.len()] == x);
        }
    }
    if s.contains(x) {
        let k = choose|k: int| 0 <= k < s.len() && s[k] == x;
        assert(u[k] == x);
    }
    if t.contains(x) {
        let k = choose|k: int| 0 <= k < t.len() && t[k] == x;
        assert(u[k + s.len()] == x);
    }
}

/// A one-element sequence holds exactly its element.
pub proof fn lemma_singleton_contains<A>(a: A, x: A)
    ensures
        seq![a].contains(x) <==> x == a,
{
    if x == a {
        assert(seq![a][0] == x);
    }
}

/// The sequence of `a` where `present`, empty otherwise, holds `x` exactly
/// when `present` and `x` is `a`.
pub open spec fn optional<A>(present: bool, a: A) -> Seq<A> {
    if present {
        seq![a]
    } else {
        Seq::empty()
    }
}

pub proof fn lemma_optional_contains<A>(present: bool, a: A, x: A)
    ensures
        optional(present, a).contains(x) <==> (present && x == a),
        optional(present, a).len() == if present { 1int } else { 0int },
{
    if present {
        lemma_singleton_contains(a, x);
    }
}

/// The empty sequence holds nothing.
pub proof fn lemma_empty_contains<A>(x: A)
    ensures
        !Seq::<A>::empty().contains(x),
{
}

} // verus!
