//! Canonical order of metric labels.
//!
//! Labels are ordered by key, then by value; strings compare by their
//! UTF-8 bytes.

use vstd::prelude::*;
use vstd::utf8::encode_utf8;
use crate::protocol::text::pair_texts;
use crate::strings::str_eq;

verus! {

/// Whether `a` comes before `b` in the lexicographic order of bytes.
pub open spec fn bytes_lt(a: Seq<u8>, b: Seq<u8>) -> bool
    decreases a.len(),
{
    if b.len() == 0 {
        false
    } else if a.len() == 0 {
        true
    } else if a[0] != b[0] {
        a[0] < b[0]
    } else {
        bytes_lt(a.skip(1), b.skip(1))
    }
}

/// Whether the text `a` comes before the text `b`.
pub open spec fn text_lt(a: Seq<char>, b: Seq<char>) -> bool {
    bytes_lt(encode_utf8(a), encode_utf8(b))
}

/// Whether the label `x` comes before the label `y`: by key, then by value.
pub open spec fn label_lt(x: (Seq<char>, Seq<char>), y: (Seq<char>, Seq<char>)) -> bool {
    text_lt(x.0, y.0) || (x.0 == y.0 && text_lt(x.1, y.1))
}

/// Whether no label of `s` comes before an earlier one.
pub open spec fn sorted(s: Seq<(Seq<char>, Seq<char>)>) -> bool {
    forall|i: int, j: int| 0 <= i < j < s.len() ==> !label_lt(#[trigger] s[j], #[trigger] s[i])
}

/// `<` on `str`: the lexicographic order of the strings' bytes.
#[verifier::external_body]
fn str_lt(a: &str, b: &str) -> (r: bool)
    ensures
        r == text_lt(a@, b@),
{
    a < b
}

/// The order of bytes is transitive.
pub proof fn lemma_bytes_lt_transitive(a: Seq<u8>, b: Seq<u8>, c: Seq<u8>)
    requires
        bytes_lt(a, b),
        bytes_lt(b, c),
    ensures
        bytes_lt(a, c),
    decreases a.len(),
{
    if a.len() > 0 && a[0] == b[0] && b[0] == c[0] {
        lemma_bytes_lt_transitive(a.skip(1), b.skip(1), c.skip(1));
    }
}

/// No byte string comes before itself.
pub proof fn lemma_bytes_lt_irreflexive(a: Seq<u8>)
    ensures
        !bytes_lt(a, a),
    decreases a.len(),
{
    if a.len() > 0 {
        lemma_bytes_lt_irreflexive(a.skip(1));
    }
}

/// No label comes before itself.
pub proof fn lemma_label_lt_irreflexive(x: (Seq<char>, Seq<char>))
    ensures
        !label_lt(x, x),
{
    lemma_bytes_lt_irreflexive(encode_utf8(x.0));
    lemma_bytes_lt_irreflexive(encode_utf8(x.1));
}

/// The order of labels is transitive.
pub proof fn lemma_label_lt_transitive(
    x: (Seq<char>, Seq<char>),
    y: (Seq<char>, Seq<char>),
    z: (Seq<char>, Seq<char>),
)
    requires
        label_lt(x, y),
        label_lt(y, z),
    ensures
        label_lt(x, z),
{
    lemma_bytes_lt_irreflexive(encode_utf8(x.0));
    lemma_bytes_lt_irreflexive(encode_utf8(z.0));
    if text_lt(x.0, y.0) && text_lt(y.0, z.0) {
        lemma_bytes_lt_transitive(encode_utf8(x.0), encode_utf8(y.0), encode_utf8(z.0));
    }
    if x.0 == y.0 && y.0 == z.0 {
        lemma_bytes_lt_transitive(encode_utf8(x.1), encode_utf8(y.1), encode_utf8(z.1));
    }
}

/// Whether the label `x` comes before the label `y`.
fn label_before(x: &(String, String), y: &(String, String)) -> (r: bool)
    ensures
        r == label_lt((x.0@, x.1@), (y.0@, y.1@)),
{
    if str_lt(x.0.as_str(), y.0.as_str()) {
        true
    } else if str_eq(x.0.as_str(), y.0.as_str()) {
        str_lt(x.1.as_str(), y.1.as_str())
    } else {
        false
    }
}

/// The labels in canonical order: the same labels, each as often as
/// given, none before an earlier one.
pub fn sort_labels(labels: &Vec<(String, String)>) -> (out: Vec<(String, String)>)
    ensures
        sorted(pair_texts(out@)),
        pair_texts(out@).to_multiset() == pair_texts(labels@).to_multiset(),
        out.len() == labels.len(),
{
    let mut out: Vec<(String, String)> = Vec::new();
    let mut k: usize = 0;
    proof {
        assert(pair_texts(labels@).take(0) =~= pair_texts(out@));
    }
    while k < labels.len()
        invariant
            k <= labels.len(),
            out.len() == k,
            sorted(pair_texts(out@)),
            pair_texts(out@).to_multiset() == pair_texts(labels@).take(k as int).to_multiset(),
        decreases labels.len() - k,
    {
        let item = (labels[k].0.clone(), labels[k].1.clone());
        let ghost x = (item.0@, item.1@);
        let ghost before = pair_texts(out@);
        let mut p: usize = 0;
        while p < out.len() && !label_before(&item, &out[p])
            invariant
                p <= out.len(),
                before == pair_texts(out@),
                x == (item.0@, item.1@),
                forall|i: int| 0 <= i < p ==> !label_lt(x, #[trigger] before[i]),
            decreases out.len() - p,
        {
            p += 1;
        }
        let ghost out_before = out@;
        assert(p < out.len() ==> label_lt(x, (out_before[p as int].0@, out_before[p as int].1@)));
        out.insert(p, item);
        proof {
            let after = pair_texts(out@);
            assert(after =~= before.insert(p as int, x));
            vstd::seq_lib::to_multiset_insert(before, p as int, x);
            let all = pair_texts(labels@);
            assert(all.take(k as int + 1) =~= all.take(k as int).push(x));
            vstd::seq_lib::to_multiset_build(all.take(k as int), x);
            assert forall|i: int, j: int| 0 <= i < j < after.len() implies !label_lt(
                #[trigger] after[j],
                #[trigger] after[i],
            ) by {
                if j == p {
                    assert(after[i] == before[i]);
                    assert(after[j] == x);
                    assert(!label_lt(x, before[i]));
                } else if i == p {
                    assert(after[i] == x);
                    assert(after[j] == before[j - 1]);
                    assert(before[p as int] == (out_before[p as int].0@, out_before[p as int].1@));
                    assert(label_lt(x, before[p as int]));
                    if j - 1 > p {
                        assert(!label_lt(before[j - 1], before[p as int]));
                    }
                    if label_lt(before[j - 1], x) {
                        lemma_label_lt_transitive(before[j - 1], x, before[p as int]);
                        lemma_label_lt_irreflexive(before[p as int]);
                    }
                } else {
                    let i0 = if i < p { i } else { i - 1 };
                    let j0 = if j < p { j } else { j - 1 };
                    assert(after[i] == before[i0]);
                    assert(after[j] == before[j0]);
                    assert(!label_lt(before[j0], before[i0]));
                }
            }
        }
        k += 1;
    }
    proof {
        assert(pair_texts(labels@).take(labels.len() as int) =~= pair_texts(labels@));
    }
    out
}

} // verus!
