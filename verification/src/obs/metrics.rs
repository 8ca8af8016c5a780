//! Metrics: label escaping, the histogram ladder, sampling and the text
//! exposition of one series.

use vstd::prelude::*;
use vstd::string::{StrSliceExecFns, StringExecFns};

verus! {

/// The escaped form of one character of a label value: a backslash, a
/// double quote and a line feed are written as `\\`, `\"` and `\n`.
pub open spec fn escaped_char(c: char) -> Seq<char> {
    if c == '\\' {
        seq!['\\', '\\']
    } else if c == '"' {
        seq!['\\', '"']
    } else if c == '\n' {
        seq!['\\', 'n']
    } else {
        seq![c]
    }
}

/// The escaped form of a label value.
pub open spec fn escaped(s: Seq<char>) -> Seq<char>
    decreases s.len(),
{
    if s.len() == 0 {
        Seq::empty()
    } else {
        escaped(s.drop_last()) + escaped_char(s.last())
    }
}

/// Escape a label value.
pub fn escape_label(v: &str) -> (r: String)
    ensures
        r@ == escaped(v@),
{
    let n = v.unicode_len();
    let mut out = String::new();
    let mut k: usize = 0;
    proof {
        assert(v@.take(0) =~= Seq::<char>::empty());
        reveal_strlit("\\\\");
        reveal_strlit("\\\"");
        reveal_strlit("\\n");
    }
    while k < n
        invariant
            k <= n,
            n == v@.len(),
            out@ == escaped(v@.take(k as int)),
            "\\\\"@ =~= seq!['\\', '\\'],
            "\\\""@ =~= seq!['\\', '"'],
            "\\n"@ =~= seq!['\\', 'n'],
        decreases n - k,
    {
        let c = v.get_char(k);
        proof {
            assert(v@.take(k as int + 1).drop_last() =~= v@.take(k as int));
            assert(v@.take(k as int + 1).last() == c);
        }
        if c == '\\' {
            out.append("\\\\");
        } else if c == '"' {
            out.append("\\\"");
        } else if c == '\n' {
            out.append("\\n");
        } else {
            let one = v.substring_char(k, k + 1);
            assert(one@ =~= seq![c]);
            out.append(one);
        }
        k += 1;
    }
    proof {
        assert(v@.take(n as int) =~= v@);
    }
    out
}

/// Number of finite buckets of a histogram.
pub const BUCKETS: usize = 9;

/// Upper bound, in microseconds, of bucket `i` of the ladder: 100, 500,
/// 1 000, 5 000, 10 000, 50 000, 100 000, 500 000, 1 000 000.
pub open spec fn ladder(i: int) -> u64 {
    if i == 0 {
        100
    } else if i == 1 {
        500
    } else if i == 2 {
        1_000
    } else if i == 3 {
        5_000
    } else if i == 4 {
        10_000
    } else if i == 5 {
        50_000
    } else if i == 6 {
        100_000
    } else if i == 7 {
        500_000
    } else {
        1_000_000
    }
}

/// Upper bound, in microseconds, of bucket `i` of the ladder.
pub fn bucket_bound(i: usize) -> (b: u64)
    requires
        i < BUCKETS,
    ensures
        b == ladder(i as int),
{
    if i == 0 {
        100
    } else if i == 1 {
        500
    } else if i == 2 {
        1_000
    } else if i == 3 {
        5_000
    } else if i == 4 {
        10_000
    } else if i == 5 {
        50_000
    } else if i == 6 {
        100_000
    } else if i == 7 {
        500_000
    } else {
        1_000_000
    }
}

/// One histogram: cumulative buckets over the ladder, the number of
/// observations and their sum in microseconds. Counters saturate.
#[derive(Debug, Clone, PartialEq, Eq)]
pub struct Histogram {
    pub count: u64,
    pub sum: u64,
    pub buckets: Vec<u64>,
}

/// `a + b`, or the largest `u64` when the sum does not fit.
pub open spec fn sat_add(a: u64, b: u64) -> u64 {
    if a + b > u64::MAX {
        u64::MAX
    } else {
        (a + b) as u64
    }
}

/// `a + b`, saturating.
pub fn saturating_sum(a: u64, b: u64) -> (r: u64)
    ensures
        r == sat_add(a, b),
{
    if a > u64::MAX - b {
        u64::MAX
    } else {
        a + b
    }
}

impl Histogram {
    /// The histogram's invariant: one counter per bucket of the ladder.
    pub open spec fn wf(&self) -> bool {
        self.buckets.len() == BUCKETS
    }

    /// A histogram without observations.
    pub fn new() -> (h: Histogram)
        ensures
            h.wf(),
            h.count == 0,
            h.sum == 0,
            forall|i: int| 0 <= i < BUCKETS ==> h.buckets[i] == 0,
    {
        let mut buckets: Vec<u64> = Vec::new();
        let mut k: usize = 0;
        while k < BUCKETS
            invariant
                k <= BUCKETS,
                buckets.len() == k,
                forall|i: int| 0 <= i < k ==> buckets[i] == 0,
            decreases BUCKETS - k,
        {
            buckets.push(0);
            k += 1;
        }
        Histogram { count: 0, sum: 0, buckets }
    }

    /// Record an observation of `micros` microseconds: it counts in every
    /// bucket whose bound it does not exceed.
    pub fn observe(&mut self, micros: u64)
        requires
            old(self).wf(),
        ensures
            final(self).wf(),
            final(self).count == sat_add(old(self).count, 1),
            final(self).sum == sat_add(old(self).sum, micros),
            forall|i: int|
                0 <= i < BUCKETS ==> final(self).buckets[i] == (if micros <= ladder(i) {
                    sat_add(old(self).buckets[i], 1)
                } else {
                    old(self).buckets[i]
                }),
    {
        self.count = saturating_sum(self.count, 1);
        self.sum = saturating_sum(self.sum, micros);
        let ghost before = self.buckets@;
        let mut k: usize = 0;
        while k < BUCKETS
            invariant
                k <= BUCKETS,
                self.buckets.len() == BUCKETS,
                before.len() == BUCKETS,
                self.count == sat_add(old(self).count, 1),
                self.sum == sat_add(old(self).sum, micros),
                forall|i: int|
                    0 <= i < k ==> self.buckets[i] == (if micros <= ladder(i) {
                        sat_add(before[i], 1)
                    } else {
                        before[i]
                    }),
                forall|i: int| k <= i < BUCKETS ==> self.buckets[i] == before[i],
            decreases BUCKETS - k,
        {
            if micros <= bucket_bound(k) {
                let next = saturating_sum(self.buckets[k], 1);
                self.buckets.set(k, next);
            }
            k += 1;
        }
    }
}

/// Whether event number `n` is one of the sampled ones: every 1024th.
pub open spec fn is_sampled(n: u64) -> bool {
    n % 1024 == 0
}

/// Whether event number `n` is sampled.
pub fn sampled(n: u64) -> (b: bool)
    ensures
        b == is_sampled(n),
{
    n % 1024 == 0
}

/// The text of one label: `key="value"`, the value escaped.
pub open spec fn label_text(key: Seq<char>, value: Seq<char>) -> Seq<char> {
    key + "=\""@ + escaped(value) + "\""@
}

/// The text of the first `n` labels, separated by commas.
pub open spec fn labels_text(labels: Seq<(String, String)>, n: int) -> Seq<char>
    decreases n,
{
    if n <= 0 {
        Seq::empty()
    } else if n == 1 {
        label_text(labels[0].0@, labels[0].1@)
    } else {
        labels_text(labels, n - 1) + ","@ + label_text(labels[n - 1].0@, labels[n - 1].1@)
    }
}

/// Render labels as `k1="v1",k2="v2"`, in the order given.
pub fn render_labels(labels: &Vec<(String, String)>) -> (r: String)
    ensures
        r@ == labels_text(labels@, labels.len() as int),
{
    let mut out = String::new();
    let mut k: usize = 0;
    assert(out@ =~= Seq::<char>::empty());
    while k < labels.len()
        invariant
            k <= labels.len(),
            out@ == labels_text(labels@, k as int),
        decreases labels.len() - k,
    {
        if k > 0 {
            out.append(",");
        }
        out.append(labels[k].0.as_str());
        out.append("=\"");
        out.append(escape_label(labels[k].1.as_str()).as_str());
        out.append("\"");
        proof {
            assert(out@ =~= labels_text(labels@, k as int + 1));
        }
        k += 1;
    }
    out
}

/// The `# TYPE` line that opens the exposition of a metric.
pub fn type_line(name: &str, kind: &str) -> (r: String)
    ensures
        r@ == "# TYPE "@ + name@ + " "@ + kind@ + "\n"@,
{
    let mut out = "# TYPE ".to_owned();
    out.append(name);
    out.append(" ");
    out.append(kind);
    out.append("\n");
    out
}

} // verus!
