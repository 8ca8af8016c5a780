//! Sets of keys held as vectors without repetition.

use vstd::prelude::*;
use crate::strings::str_eq;

verus! {

/// The texts of a sequence of strings, in order.
pub open spec fn texts(v: Seq<String>) -> Seq<Seq<char>> {
    Seq::new(v.len(), |i: int| v[i]@)
}

/// Whether `v` holds no text twice.
pub open spec fn distinct(v: Seq<String>) -> bool {
    forall|i: int, j: int| 0 <= i < j < v.len() ==> (#[trigger] v[i])@ != (#[trigger] v[j])@
}

/// Whether `v` holds the text `x`.
pub open spec fn holds(v: Seq<String>, x: Seq<char>) -> bool {
    exists|i: int| 0 <= i < v.len() && (#[trigger] v[i])@ == x
}

/// `distinct` and `holds` say of the strings what `no_duplicates` and
/// `contains` say of their texts.
pub proof fn lemma_texts(v: Seq<String>)
    ensures
        texts(v).len() == v.len(),
        distinct(v) == texts(v).no_duplicates(),
        forall|x: Seq<char>| holds(v, x) == texts(v).contains(x),
{
    let t = texts(v);
    if distinct(v) {
        assert forall|i: int, j: int| 0 <= i < t.len() && 0 <= j < t.len() && i != j implies t[i]
            != t[j] by {
            if i < j {
                assert(v[i]@ != v[j]@);
            } else {
                assert(v[j]@ != v[i]@);
            }
        }
    }
    if t.no_duplicates() {
        assert forall|i: int, j: int| 0 <= i < j < v.len() implies (#[trigger] v[i])@ != (
        #[trigger] v[j])@ by {
            assert(t[i] != t[j]);
        }
    }
    assert forall|x: Seq<char>| holds(v, x) == t.contains(x) by {
        if holds(v, x) {
            let i = choose|i: int| 0 <= i < v.len() && (#[trigger] v[i])@ == x;
            assert(t[i] == x);
        }
        if t.contains(x) {
            let i = choose|i: int| 0 <= i < t.len() && t[i] == x;
            assert(v[i]@ == x);
        }
    }
}

/// Whether `v` lists exactly the members of `set`, each once.
pub open spec fn lists_exactly(v: Seq<String>, set: Set<Seq<char>>) -> bool {
    distinct(v) && forall|x: Seq<char>| holds(v, x) == set.contains(x)
}

/// Position of `x` in `v`, if it occurs.
pub fn position(v: &Vec<String>, x: &str) -> (r: Option<usize>)
    ensures
        match r {
            Some(i) => i < v.len() && v[i as int]@ == x@,
            None => !holds(v@, x@),
        },
{
    let mut k: usize = 0;
    while k < v.len()
        invariant
            k <= v.len(),
            forall|i: int| 0 <= i < k ==> (#[trigger] v[i])@ != x@,
        decreases v.len() - k,
    {
        if str_eq(v[k].as_str(), x) {
            return Some(k);
        }
        k += 1;
    }
    None
}

/// Add `x` unless it is there already. Returns whether it was added.
pub fn key_insert(v: &mut Vec<String>, x: &str) -> (added: bool)
    requires
        distinct(old(v)@),
    ensures
        distinct(final(v)@),
        added == !holds(old(v)@, x@),
        forall|y: Seq<char>| holds(final(v)@, y) <==> holds(old(v)@, y) || y == x@,
        final(v).len() == old(v).len() + (if added { 1int } else { 0int }),
{
    match position(v, x) {
        Some(i) => {
            assert(holds(v@, x@));
            false
        },
        None => {
            let ghost before = v@;
            v.push(x.to_owned());
            proof {
                assert(v@[before.len() as int]@ == x@);
                assert forall|y: Seq<char>| holds(v@, y) <==> holds(before, y) || y == x@ by {
                    if holds(before, y) {
                        let i = choose|i: int| 0 <= i < before.len() && (#[trigger] before[i])@ == y;
                        assert(v@[i]@ == y);
                    }
                    if holds(v@, y) {
                        let i = choose|i: int| 0 <= i < v@.len() && (#[trigger] v@[i])@ == y;
                        if i < before.len() {
                            assert(before[i]@ == y);
                        }
                    }
                }
                assert forall|i: int, j: int| 0 <= i < j < v@.len() implies (#[trigger] v@[i])@ != (
                #[trigger] v@[j])@ by {
                    if j == before.len() {
                        assert(before[i]@ != x@);
                    } else {
                        assert(before[i]@ != before[j]@);
                    }
                }
            }
            true
        },
    }
}

/// Remove `x` if it is there. Returns whether it was removed.
pub fn key_remove(v: &mut Vec<String>, x: &str) -> (removed: bool)
    requires
        distinct(old(v)@),
    ensures
        distinct(final(v)@),
        removed == holds(old(v)@, x@),
        forall|y: Seq<char>| holds(final(v)@, y) <==> holds(old(v)@, y) && y != x@,
        final(v).len() == old(v).len() - (if removed { 1int } else { 0int }),
{
    match position(v, x) {
        None => false,
        Some(i) => {
            let ghost before = v@;
            v.remove(i);
            proof {
                assert(v@ == before.remove(i as int));
                assert(holds(before, x@));
                assert forall|a: int, b: int| 0 <= a < b < v@.len() implies (#[trigger] v@[a])@ != (
                #[trigger] v@[b])@ by {
                    let a0 = if a < i { a } else { a + 1 };
                    let b0 = if b < i { b } else { b + 1 };
                    assert(v@[a] == before[a0]);
                    assert(v@[b] == before[b0]);
                    assert(before[a0]@ != before[b0]@);
                }
                assert forall|y: Seq<char>| holds(v@, y) <==> holds(before, y) && y != x@ by {
                    if holds(before, y) && y != x@ {
                        let k = choose|k: int| 0 <= k < before.len() && (#[trigger] before[k])@ == y;
                        let k1 = if k < i { k } else { k - 1 };
                        assert(v@[k1] == before[k]);
                        assert(v@[k1]@ == y);
                    }
                    if holds(v@, y) {
                        let k = choose|k: int| 0 <= k < v@.len() && (#[trigger] v@[k])@ == y;
                        let k0 = if k < i { k } else { k + 1 };
                        assert(v@[k] == before[k0]);
                        assert(before[k0]@ == y);
                        if y == x@ {
                            if k0 < i {
                                assert(before[k0]@ != before[i as int]@);
                            } else {
                                assert(before[i as int]@ != before[k0]@);
                            }
                        }
                    }
                }
            }
            true
        },
    }
}

} // verus!
