//! Concurrent maps behind the registries.
//!
//! The registries keep their tables in `DashMap`s. Each table is described
//! by the mathematical map it holds; the functions below state what one
//! `DashMap` call does to that map.

use vstd::prelude::*;
use dashmap::{DashMap, DashSet};
use crate::realtime::keyset::{distinct, holds, key_insert, key_remove, lemma_texts, position, texts};

verus! {

#[verifier::external_type_specification]
#[verifier::external_body]
#[verifier::reject_recursive_types(K)]
#[verifier::reject_recursive_types(V)]
#[verifier::reject_recursive_types(S)]
pub struct ExDashMap<K, V, S>(DashMap<K, V, S>);

/// A table of counters keyed by a string.
pub type CounterTable = DashMap<String, u64>;

/// What a counter table holds.
pub uninterp spec fn counters(t: CounterTable) -> Map<Seq<char>, u64>;

/// `DashMap::new`: an empty table.
#[verifier::external_body]
pub(crate) fn counters_new() -> (t: CounterTable)
    ensures
        (counters(t) == Map::<Seq<char>, u64>::empty()),
{
    DashMap::new()
}

/// `DashMap::get`, copying the value out: the counter under `key`, if any.
#[verifier::external_body]
pub(crate) fn counters_get(t: &CounterTable, key: &str) -> (v: Option<u64>)
    ensures
        v == (if counters(*t).contains_key(key@) {
            Some(counters(*t)[key@])
        } else {
            None
        }),
{
    t.get(key).map(|r| *r.value())
}

/// `DashMap::insert`: binds `key` to `value` and returns the value that was
/// bound before, if any.
#[verifier::external_body]
pub(crate) fn counters_insert(t: &mut CounterTable, key: String, value: u64) -> (prev: Option<u64>)
    ensures
        counters(*final(t)) == counters(*old(t)).insert(key@, value),
        prev == (if counters(*old(t)).contains_key(key@) {
            Some(counters(*old(t))[key@])
        } else {
            None
        }),
{
    t.insert(key, value)
}

/// `DashMap::remove`: unbinds `key` and returns the value that was bound,
/// if any.
#[verifier::external_body]
pub(crate) fn counters_remove(t: &mut CounterTable, key: &str) -> (prev: Option<u64>)
    ensures
        counters(*final(t)) == counters(*old(t)).remove(key@),
        prev == (if counters(*old(t)).contains_key(key@) {
            Some(counters(*old(t))[key@])
        } else {
            None
        }),
{
    t.remove(key).map(|(_, v)| v)
}

/// `DashMap::iter`, cloning each key out: the keys of the table, each
/// once, in the order in which the map happens to be walked.
#[verifier::external_body]
pub(crate) fn counters_keys(t: &CounterTable) -> (v: Vec<String>)
    ensures
        distinct(v@),
        forall|k: Seq<char>| holds(v@, k) == counters(*t).contains_key(k),
{
    t.iter().map(|e| e.key().clone()).collect()
}

/// Read a counter; an absent counter reads zero.
pub fn counter_value(t: &CounterTable, key: &str) -> (v: u64)
    ensures
        v == (if counters(*t).contains_key(key@) { counters(*t)[key@] } else { 0 }),
{
    match counters_get(t, key) {
        Some(v) => v,
        None => 0,
    }
}

#[verifier::external_type_specification]
#[verifier::external_body]
#[verifier::reject_recursive_types(K)]
#[verifier::reject_recursive_types(S)]
pub struct ExDashSet<K, S>(DashSet<K, S>);

/// A table of key sets keyed by a string.
pub type ListTable = DashMap<String, DashSet<String>>;

/// What a set table holds: under each key, the texts of its set.
pub uninterp spec fn lists(t: ListTable) -> Map<Seq<char>, Set<Seq<char>>>;

/// `DashMap::new`: an empty table.
#[verifier::external_body]
pub(crate) fn lists_new() -> (t: ListTable)
    ensures
        (lists(t) == Map::<Seq<char>, Set<Seq<char>>>::empty()),
{
    DashMap::new()
}

/// `DashMap::get`, with the members that `DashSet::iter` yields cloned
/// out: the members under `key`, each once, in the order in which the set
/// happens to be walked; nothing when the key is not bound.
#[verifier::external_body]
pub(crate) fn lists_get(t: &ListTable, key: &str) -> (v: Option<Vec<String>>)
    ensures
        v is Some == lists(*t).contains_key(key@),
        v matches Some(l) ==> distinct(l@) && texts(l@).to_set() == lists(*t)[key@],
{
    t.get(key).map(|r| r.value().iter().map(|m| m.key().clone()).collect())
}

/// `DashMap::insert` of the `DashSet` collected from `value`: binds `key`
/// to the set of the texts of `value`, replacing what was bound.
#[verifier::external_body]
pub(crate) fn lists_insert(t: &mut ListTable, key: String, value: Vec<String>)
    ensures
        lists(*final(t)) == lists(*old(t)).insert(key@, texts(value@).to_set()),
{
    t.insert(key, value.into_iter().collect());
}

/// `DashMap::remove`: unbinds `key`.
#[verifier::external_body]
pub(crate) fn lists_remove(t: &mut ListTable, key: &str)
    ensures
        lists(*final(t)) == lists(*old(t)).remove(key@),
{
    t.remove(key);
}

/// A table whose sets are finite and not empty.
pub open spec fn lists_wf(m: Map<Seq<char>, Set<Seq<char>>>) -> bool {
    forall|k: Seq<char>| #[trigger] m.contains_key(k) ==> m[k].finite() && m[k].len() > 0
}

/// The table as a relation: the pairs of a key and a member of its set.
pub open spec fn pairs(m: Map<Seq<char>, Set<Seq<char>>>) -> Set<(Seq<char>, Seq<char>)> {
    Set::new(|p: (Seq<char>, Seq<char>)| m.contains_key(p.0) && m[p.0].contains(p.1))
}

/// Number of members under `key`.
pub open spec fn fan(m: Map<Seq<char>, Set<Seq<char>>>, key: Seq<char>) -> nat {
    if m.contains_key(key) {
        m[key].len()
    } else {
        0
    }
}

/// The set of the texts of a list without repetition is finite, as large
/// as the list, and holds what the list holds.
pub proof fn lemma_set_of(v: Seq<String>)
    requires
        distinct(v),
    ensures
        texts(v).to_set().finite(),
        texts(v).to_set().len() == v.len(),
        forall|x: Seq<char>| #[trigger] texts(v).to_set().contains(x) == holds(v, x),
{
    lemma_texts(v);
    texts(v).unique_seq_to_set();
    vstd::seq_lib::seq_to_set_is_finite(texts(v));
    assert forall|x: Seq<char>| #[trigger] texts(v).to_set().contains(x) == holds(v, x) by {
        assert(holds(v, x) == texts(v).contains(x));
    }
}

/// The members bound to `key`, as a list without repetition; an empty
/// list when the key is not bound.
fn members_or_none(t: &ListTable, key: &str) -> (v: Vec<String>)
    ensures
        distinct(v@),
        texts(v@).to_set() == (if lists(*t).contains_key(key@) {
            lists(*t)[key@]
        } else {
            Set::<Seq<char>>::empty()
        }),
        forall|x: Seq<char>| holds(v@, x) == pairs(lists(*t)).contains((key@, x)),
        lists(*t).contains_key(key@) ==> v.len() == lists(*t)[key@].len(),
        !lists(*t).contains_key(key@) ==> v.len() == 0,
{
    let v = match lists_get(t, key) {
        Some(l) => l,
        None => Vec::new(),
    };
    proof {
        lemma_set_of(v@);
        if !lists(*t).contains_key(key@) {
            assert(texts(v@).to_set() =~= Set::<Seq<char>>::empty());
        }
        assert forall|x: Seq<char>| holds(v@, x) == pairs(lists(*t)).contains((key@, x)) by {
            assert(texts(v@).to_set().contains(x) == holds(v@, x));
        }
    }
    v
}

/// Relate `member` to `key`. Returns whether the pair is new.
pub fn list_add(t: &mut ListTable, key: &str, member: &str) -> (added: bool)
    requires
        lists_wf(lists(*old(t))),
    ensures
        lists_wf(lists(*final(t))),
        added == !pairs(lists(*old(t))).contains((key@, member@)),
        pairs(lists(*final(t))) == pairs(lists(*old(t))).insert((key@, member@)),
        forall|k: Seq<char>|
            fan(lists(*final(t)), k) == #[trigger] fan(lists(*old(t)), k) + (if added && k == key@ {
                1int
            } else {
                0int
            }),
{
    let ghost m0 = lists(*t);
    let mut v = members_or_none(t, key);
    let ghost v0 = v@;
    let added = key_insert(&mut v, member);
    if added {
        let ghost v1 = v@;
        lists_insert(t, key.to_owned(), v);
        proof {
            let m1 = lists(*t);
            lemma_set_of(v1);
            assert(holds(v1, member@));
            assert forall|p: (Seq<char>, Seq<char>)| pairs(m1).contains(p) == pairs(m0).insert(
                (key@, member@),
            ).contains(p) by {
                if p.0 == key@ {
                    assert(texts(v1).to_set().contains(p.1) == holds(v1, p.1));
                    assert(holds(v1, p.1) <==> holds(v0, p.1) || p.1 == member@);
                    assert(holds(v0, p.1) == pairs(m0).contains((key@, p.1)));
                }
            }
            assert(pairs(m1) =~= pairs(m0).insert((key@, member@)));
        }
    } else {
        proof {
            assert(pairs(m0).contains((key@, member@)));
            assert(pairs(m0) =~= pairs(m0).insert((key@, member@)));
        }
    }
    added
}

/// Unrelate `member` from `key`; a key left without members is dropped.
/// Returns whether the pair was there.
pub fn list_remove(t: &mut ListTable, key: &str, member: &str) -> (removed: bool)
    requires
        lists_wf(lists(*old(t))),
    ensures
        lists_wf(lists(*final(t))),
        removed == pairs(lists(*old(t))).contains((key@, member@)),
        pairs(lists(*final(t))) == pairs(lists(*old(t))).remove((key@, member@)),
        forall|k: Seq<char>|
            fan(lists(*final(t)), k) == #[trigger] fan(lists(*old(t)), k) - (if removed && k
                == key@ {
                1int
            } else {
                0int
            }),
{
    let ghost m0 = lists(*t);
    let mut v = members_or_none(t, key);
    let ghost v0 = v@;
    let removed = key_remove(&mut v, member);
    if !removed {
        proof {
            assert(pairs(m0) =~= pairs(m0).remove((key@, member@)));
        }
        return false;
    }
    let ghost v1 = v@;
    proof {
        assert(holds(v0, member@));
        assert(m0.contains_key(key@));
        lemma_set_of(v1);
    }
    if v.len() == 0 {
        lists_remove(t, key);
    } else {
        lists_insert(t, key.to_owned(), v);
    }
    proof {
        let m1 = lists(*t);
        assert forall|p: (Seq<char>, Seq<char>)| pairs(m1).contains(p) == pairs(m0).remove(
            (key@, member@),
        ).contains(p) by {
            if p.0 == key@ {
                assert(texts(v1).to_set().contains(p.1) == holds(v1, p.1));
                assert(holds(v1, p.1) <==> holds(v0, p.1) && p.1 != member@);
                assert(holds(v0, p.1) == pairs(m0).contains((key@, p.1)));
                if v1.len() == 0 {
                    if holds(v1, p.1) {
                        let i = choose|i: int| 0 <= i < v1.len() && (#[trigger] v1[i])@ == p.1;
                    }
                }
            }
        }
        assert(pairs(m1) =~= pairs(m0).remove((key@, member@)));
    }
    true
}

/// The members under `key`, in no particular order and without repetition.
pub fn list_members(t: &ListTable, key: &str) -> (v: Vec<String>)
    ensures
        distinct(v@),
        v.len() == fan(lists(*t), key@),
        forall|x: Seq<char>| holds(v@, x) == pairs(lists(*t)).contains((key@, x)),
{
    members_or_none(t, key)
}

/// Number of members under `key`.
pub fn list_fan(t: &ListTable, key: &str) -> (n: usize)
    ensures
        n == fan(lists(*t), key@),
{
    members_or_none(t, key).len()
}

/// Whether `member` is related to `key`.
pub fn list_has(t: &ListTable, key: &str, member: &str) -> (b: bool)
    ensures
        b == pairs(lists(*t)).contains((key@, member@)),
{
    let v = members_or_none(t, key);
    assert(holds(v@, member@) == pairs(lists(*t)).contains((key@, member@)));
    position(&v, member).is_some()
}

/// A table of key lists keyed by a pair of strings.
pub type PairTable = DashMap<(String, String), Vec<String>>;

/// What a pair table holds: under each pair of keys, the texts of its list.
pub uninterp spec fn pair_lists(t: PairTable) -> Map<(Seq<char>, Seq<char>), Seq<Seq<char>>>;

/// `DashMap::new`: an empty table.
#[verifier::external_body]
pub(crate) fn pair_lists_new() -> (t: PairTable)
    ensures
        (pair_lists(t) == Map::<(Seq<char>, Seq<char>), Seq<Seq<char>>>::empty()),
{
    DashMap::new()
}

/// `DashMap::get`, cloning the value out: the list under `(a, b)`, if any.
#[verifier::external_body]
pub(crate) fn pair_lists_get(t: &PairTable, a: &str, b: &str) -> (v: Option<Vec<String>>)
    ensures
        v is Some == pair_lists(*t).contains_key((a@, b@)),
        v matches Some(l) ==> texts(l@) == pair_lists(*t)[(a@, b@)],
{
    t.get(&(a.to_owned(), b.to_owned())).map(|r| r.value().clone())
}

/// `DashMap::insert`: binds `(a, b)` to `value`, replacing what was bound.
#[verifier::external_body]
pub(crate) fn pair_lists_insert(t: &mut PairTable, a: String, b: String, value: Vec<String>)
    ensures
        pair_lists(*final(t)) == pair_lists(*old(t)).insert((a@, b@), texts(value@)),
{
    t.insert((a, b), value);
}

/// `DashMap::remove`: unbinds `(a, b)`.
#[verifier::external_body]
pub(crate) fn pair_lists_remove(t: &mut PairTable, a: &str, b: &str)
    ensures
        pair_lists(*final(t)) == pair_lists(*old(t)).remove((a@, b@)),
{
    t.remove(&(a.to_owned(), b.to_owned()));
}

/// A pair table whose lists are non-empty and free of repetition.
pub open spec fn pair_lists_wf(m: Map<(Seq<char>, Seq<char>), Seq<Seq<char>>>) -> bool {
    forall|k: (Seq<char>, Seq<char>)| #[trigger]
        m.contains_key(k) ==> m[k].len() > 0 && m[k].no_duplicates()
}

/// Whether `member` is listed under `(a, b)`.
pub open spec fn listed(
    m: Map<(Seq<char>, Seq<char>), Seq<Seq<char>>>,
    a: Seq<char>,
    b: Seq<char>,
    member: Seq<char>,
) -> bool {
    m.contains_key((a, b)) && m[(a, b)].contains(member)
}

/// Number of members under `(a, b)`.
pub open spec fn pair_fan(m: Map<(Seq<char>, Seq<char>), Seq<Seq<char>>>, a: Seq<char>, b: Seq<char>) -> nat {
    if m.contains_key((a, b)) {
        m[(a, b)].len()
    } else {
        0
    }
}

/// List `member` under `(a, b)`. Returns whether it is new there.
pub fn pair_add(t: &mut PairTable, a: &str, b: &str, member: &str) -> (added: bool)
    requires
        pair_lists_wf(pair_lists(*old(t))),
    ensures
        pair_lists_wf(pair_lists(*final(t))),
        added == !listed(pair_lists(*old(t)), a@, b@, member@),
        forall|x: Seq<char>, y: Seq<char>, z: Seq<char>|
            #[trigger] listed(pair_lists(*final(t)), x, y, z) == (listed(
                pair_lists(*old(t)),
                x,
                y,
                z,
            ) || (x == a@ && y == b@ && z == member@)),
        forall|x: Seq<char>, y: Seq<char>|
            pair_fan(pair_lists(*final(t)), x, y) == #[trigger] pair_fan(pair_lists(*old(t)), x, y)
                + (if added && x == a@ && y == b@ {
                1int
            } else {
                0int
            }),
{
    let ghost m0 = pair_lists(*t);
    let mut v = match pair_lists_get(t, a, b) {
        Some(l) => l,
        None => Vec::new(),
    };
    let ghost v0 = v@;
    proof {
        lemma_texts(v0);
        if !m0.contains_key((a@, b@)) {
            assert(texts(v0) =~= Seq::<Seq<char>>::empty());
        }
        assert(holds(v0, member@) == texts(v0).contains(member@));
    }
    let added = key_insert(&mut v, member);
    proof {
        lemma_texts(v@);
    }
    if added {
        let ghost tv = texts(v@);
        pair_lists_insert(t, a.to_owned(), b.to_owned(), v);
        proof {
            let m1 = pair_lists(*t);
            assert(m1 == m0.insert((a@, b@), tv));
            assert(tv.len() > 0);
            assert forall|x: Seq<char>, y: Seq<char>, z: Seq<char>| #[trigger]
                listed(m1, x, y, z) == (listed(m0, x, y, z) || (x == a@ && y == b@ && z
                    == member@)) by {
                if x == a@ && y == b@ {
                    assert(holds(v@, z) == tv.contains(z));
                    assert(holds(v0, z) == texts(v0).contains(z));
                    assert(holds(v@, z) <==> holds(v0, z) || z == member@);
                }
            }
        }
    }
    added
}

/// Unlist `member` from `(a, b)`; a pair left without members is dropped.
/// Returns whether it was listed.
pub fn pair_remove(t: &mut PairTable, a: &str, b: &str, member: &str) -> (removed: bool)
    requires
        pair_lists_wf(pair_lists(*old(t))),
    ensures
        pair_lists_wf(pair_lists(*final(t))),
        removed == listed(pair_lists(*old(t)), a@, b@, member@),
        forall|x: Seq<char>, y: Seq<char>, z: Seq<char>|
            #[trigger] listed(pair_lists(*final(t)), x, y, z) == (listed(
                pair_lists(*old(t)),
                x,
                y,
                z,
            ) && !(x == a@ && y == b@ && z == member@)),
        forall|x: Seq<char>, y: Seq<char>|
            pair_fan(pair_lists(*final(t)), x, y) == #[trigger] pair_fan(pair_lists(*old(t)), x, y)
                - (if removed && x == a@ && y == b@ {
                1int
            } else {
                0int
            }),
{
    let ghost m0 = pair_lists(*t);
    let mut v = match pair_lists_get(t, a, b) {
        Some(l) => l,
        None => {
            return false;
        },
    };
    let ghost v0 = v@;
    proof {
        lemma_texts(v0);
        assert(holds(v0, member@) == texts(v0).contains(member@));
    }
    let removed = key_remove(&mut v, member);
    proof {
        lemma_texts(v@);
    }
    if !removed {
        return false;
    }
    let ghost tv = texts(v@);
    if v.len() == 0 {
        pair_lists_remove(t, a, b);
    } else {
        pair_lists_insert(t, a.to_owned(), b.to_owned(), v);
    }
    proof {
        let m1 = pair_lists(*t);
        assert forall|x: Seq<char>, y: Seq<char>, z: Seq<char>| #[trigger]
            listed(m1, x, y, z) == (listed(m0, x, y, z) && !(x == a@ && y == b@ && z
                == member@)) by {
            if x == a@ && y == b@ {
                assert(holds(v@, z) == tv.contains(z));
                assert(holds(v0, z) == texts(v0).contains(z));
                assert(holds(v@, z) <==> holds(v0, z) && z != member@);
                if tv.len() == 0 {
                    assert(!tv.contains(z));
                }
            }
        }
    }
    true
}

/// Number of members under `(a, b)`.
pub fn pair_count(t: &PairTable, a: &str, b: &str) -> (n: usize)
    ensures
        n == pair_fan(pair_lists(*t), a@, b@),
{
    match pair_lists_get(t, a, b) {
        Some(l) => {
            proof {
                lemma_texts(l@);
            }
            l.len()
        },
        None => 0,
    }
}

/// Whether `member` is listed under `(a, b)`.
pub fn pair_has(t: &PairTable, a: &str, b: &str, member: &str) -> (r: bool)
    ensures
        r == listed(pair_lists(*t), a@, b@, member@),
{
    match pair_lists_get(t, a, b) {
        Some(l) => {
            proof {
                lemma_texts(l@);
                assert(holds(l@, member@) == texts(l@).contains(member@));
            }
            position(&l, member).is_some()
        },
        None => false,
    }
}

/// The members related to `key`.
pub open spec fn members_of(m: Map<Seq<char>, Set<Seq<char>>>, key: Seq<char>) -> Set<Seq<char>> {
    Set::new(|x: Seq<char>| pairs(m).contains((key, x)))
}

/// In a well-formed table the number of members under a key is the
/// cardinality of the set of its members, and is positive exactly when the
/// key has a member.
pub proof fn lemma_fan(m: Map<Seq<char>, Set<Seq<char>>>, key: Seq<char>)
    requires
        lists_wf(m),
    ensures
        members_of(m, key).finite(),
        members_of(m, key).len() == fan(m, key),
        fan(m, key) > 0 <==> exists|x: Seq<char>| pairs(m).contains((key, x)),
{
    if m.contains_key(key) {
        assert(members_of(m, key) =~= m[key]);
        let x = m[key].choose();
        assert(m[key].contains(x));
        assert(pairs(m).contains((key, x)));
    } else {
        assert(members_of(m, key) =~= Set::<Seq<char>>::empty());
    }
}

/// The members listed under `(a, b)`.
pub open spec fn pair_members(
    m: Map<(Seq<char>, Seq<char>), Seq<Seq<char>>>,
    a: Seq<char>,
    b: Seq<char>,
) -> Set<Seq<char>> {
    Set::new(|x: Seq<char>| listed(m, a, b, x))
}

/// In a well-formed pair table the number of members under a pair is the
/// cardinality of the set of its members, and is positive exactly when the
/// pair has a member.
pub proof fn lemma_pair_fan(m: Map<(Seq<char>, Seq<char>), Seq<Seq<char>>>, a: Seq<char>, b: Seq<char>)
    requires
        pair_lists_wf(m),
    ensures
        pair_members(m, a, b).finite(),
        pair_members(m, a, b).len() == pair_fan(m, a, b),
        pair_fan(m, a, b) > 0 <==> exists|x: Seq<char>| listed(m, a, b, x),
{
    if m.contains_key((a, b)) {
        let l = m[(a, b)];
        assert(pair_members(m, a, b) =~= l.to_set());
        l.unique_seq_to_set();
        vstd::seq_lib::seq_to_set_is_finite(l);
        assert(listed(m, a, b, l[0]));
    } else {
        assert(pair_members(m, a, b) =~= Set::<Seq<char>>::empty());
    }
}

} // verus!
