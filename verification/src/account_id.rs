//! The order of account identifiers.
//!
//! Identifiers are opaque strings. Wherever two candidates are otherwise
//! equal, the one with the smaller identifier wins, so that a decision never
//! depends on the order in which a store lists its accounts.

use vstd::prelude::*;
use crate::text::chars_of;

verus! {

/// The characters of an optional string slice.
pub open spec fn str_view(id: Option<&str>) -> Option<Seq<char>> {
    match id {
        Some(s) => Some(s@),
        None => None,
    }
}

/// The characters of an optional string.
pub open spec fn string_view(id: Option<String>) -> Option<Seq<char>> {
    match id {
        Some(s) => Some(s@),
        None => None,
    }
}

/// `a` comes strictly before `b`: the strings are compared character by
/// character, by code point, and a proper prefix comes before its extensions.
pub open spec fn id_precedes(a: Seq<char>, b: Seq<char>) -> bool
    decreases a.len(),
{
    if b.len() == 0 {
        false
    } else if a.len() == 0 {
        true
    } else if a[0] != b[0] {
        (a[0] as int) < (b[0] as int)
    } else {
        id_precedes(a.drop_first(), b.drop_first())
    }
}

/// Tells whether the identifier `a` comes strictly before `b`.
pub fn id_less(a: &str, b: &str) -> (r: bool)
    ensures
        r == id_precedes(a@, b@),
{
    let x = chars_of(a);
    let y = chars_of(b);
    let mut i: usize = 0;
    proof {
        assert(x@.skip(0) =~= x@);
        assert(y@.skip(0) =~= y@);
    }
    while i < x.len() && i < y.len()
        invariant
            x@ == a@,
            y@ == b@,
            i <= x.len(),
            i <= y.len(),
            id_precedes(a@, b@) == id_precedes(x@.skip(i as int), y@.skip(i as int)),
        decreases x.len() - i,
    {
        proof {
            assert(x@.skip(i as int)[0] == x@[i as int]);
            assert(y@.skip(i as int)[0] == y@[i as int]);
            assert(x@.skip(i as int).drop_first() =~= x@.skip(i + 1));
            assert(y@.skip(i as int).drop_first() =~= y@.skip(i + 1));
        }
        if x[i] != y[i] {
            return x[i] < y[i];
        }
        i = i + 1;
    }
    i < y.len()
}

/// No identifier comes before itself.
pub proof fn lemma_id_irreflexive(a: Seq<char>)
    ensures
        !id_precedes(a, a),
    decreases a.len(),
{
    if a.len() > 0 {
        lemma_id_irreflexive(a.drop_first());
    }
}

/// Of two different identifiers exactly one comes first.
pub proof fn lemma_id_total(a: Seq<char>, b: Seq<char>)
    ensures
        a != b ==> (id_precedes(a, b) != id_precedes(b, a)),
        a == b ==> !id_precedes(a, b),
    decreases a.len(),
{
    if a == b {
        lemma_id_irreflexive(a);
    } else if a.len() > 0 && b.len() > 0 {
        if a[0] == b[0] {
            assert(a.drop_first() != b.drop_first()) by {
                if a.drop_first() == b.drop_first() {
                    assert(a =~= seq![a[0]] + a.drop_first());
                    assert(b =~= seq![b[0]] + b.drop_first());
                }
            }
            lemma_id_total(a.drop_first(), b.drop_first());
        }
    } else {
        assert(a.len() != b.len()) by {
            if a.len() == b.len() {
                assert(a =~= b);
            }
        }
    }
}

/// The order of identifiers is transitive.
pub proof fn lemma_id_transitive(a: Seq<char>, b: Seq<char>, c: Seq<char>)
    requires
        id_precedes(a, b),
        id_precedes(b, c),
    ensures
        id_precedes(a, c),
    decreases a.len(),
{
    if a.len() > 0 && b.len() > 0 && c.len() > 0 {
        if a[0] == b[0] && b[0] == c[0] {
            lemma_id_transitive(a.drop_first(), b.drop_first(), c.drop_first());
        }
    }
}

} // verus!
