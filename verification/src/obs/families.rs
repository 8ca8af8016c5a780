//! Labeled counters and gauges.
//!
//! A family holds one value per series. A series is keyed by its labels in
//! canonical order.

use vstd::prelude::*;
use vstd::string::StringExecFns;
use dashmap::DashMap;
use crate::obs::labels::{sort_labels, sorted};
use crate::obs::metrics::{labels_text, render_labels, sat_add, saturating_sum, type_line};
use crate::protocol::text::pair_texts;
use crate::strings::{decimal_repr, decimal_text};

verus! {

/// Whether `c` is `labels` in canonical order.
pub open spec fn canonical(c: Seq<(String, String)>, labels: Seq<(String, String)>) -> bool {
    sorted(pair_texts(c)) && pair_texts(c).to_multiset() == pair_texts(labels).to_multiset()
}

/// The key of a series: its labels, as texts.
pub type SeriesKey = Seq<(Seq<char>, Seq<char>)>;

/// The key of the series of `labels`: the labels in canonical order.
pub fn series_key(labels: &Vec<(String, String)>) -> (key: Vec<(String, String)>)
    ensures
        canonical(key@, labels@),
{
    sort_labels(labels)
}

/// Whether `keys` lists exactly the keys in `dom`, each once.
pub open spec fn lists_series(keys: Seq<Vec<(String, String)>>, dom: Set<SeriesKey>) -> bool {
    &&& forall|i: int, j: int|
        0 <= i < j < keys.len() ==> pair_texts((#[trigger] keys[i])@) != pair_texts(
            (#[trigger] keys[j])@,
        )
    &&& forall|i: int| 0 <= i < keys.len() ==> dom.contains(pair_texts((#[trigger] keys[i])@))
    &&& forall|k: SeriesKey|
        dom.contains(k) ==> exists|i: int|
            0 <= i < keys.len() && pair_texts((#[trigger] keys[i])@) == k
}

/// A table of counters keyed by series.
pub type CounterSeries = DashMap<Vec<(String, String)>, u64>;

/// What a table of counters holds.
pub uninterp spec fn counter_series(t: CounterSeries) -> Map<SeriesKey, u64>;

/// `DashMap::new`: an empty table.
#[verifier::external_body]
fn counter_series_new() -> (t: CounterSeries)
    ensures
        (counter_series(t) == Map::<SeriesKey, u64>::empty()),
{
    DashMap::new()
}

/// `DashMap::get`, copying the value out: the counter under `key`, if any.
#[verifier::external_body]
fn counter_series_get(t: &CounterSeries, key: &Vec<(String, String)>) -> (v: Option<u64>)
    ensures
        v == (if counter_series(*t).contains_key(pair_texts(key@)) {
            Some(counter_series(*t)[pair_texts(key@)])
        } else {
            None
        }),
{
    t.get(key).map(|r| *r.value())
}

/// `DashMap::insert`: binds `key` to `value`, replacing what was bound.
#[verifier::external_body]
fn counter_series_insert(t: &mut CounterSeries, key: Vec<(String, String)>, value: u64)
    ensures
        counter_series(*final(t)) == counter_series(*old(t)).insert(pair_texts(key@), value),
{
    t.insert(key, value);
}

/// `DashMap::iter`, cloning each key out: the keys of the table, each
/// once, in the order in which the map happens to be walked.
#[verifier::external_body]
fn counter_series_keys(t: &CounterSeries) -> (v: Vec<Vec<(String, String)>>)
    ensures
        lists_series(v@, counter_series(*t).dom()),
{
    t.iter().map(|e| e.key().clone()).collect()
}

/// One line of an exposition: `name{key} value`.
pub open spec fn series_line(name: Seq<char>, key: Seq<char>, value: Seq<char>) -> Seq<char> {
    name + "{"@ + key + "} "@ + value + "\n"@
}

/// Render one line of an exposition.
pub fn render_series_line(name: &str, key: &str, value: &str) -> (r: String)
    ensures
        r@ == series_line(name@, key@, value@),
{
    let mut out = name.to_owned();
    out.append("{");
    out.append(key);
    out.append("} ");
    out.append(value);
    out.append("\n");
    out
}

/// The value of a series that may not exist yet: zero until it does.
pub open spec fn count_of(m: Map<SeriesKey, u64>, key: SeriesKey) -> u64 {
    if m.contains_key(key) {
        m[key]
    } else {
        0
    }
}

/// The lines of the first `n` of `keys`, in order.
pub open spec fn counter_lines(
    name: Seq<char>,
    keys: Seq<Vec<(String, String)>>,
    m: Map<SeriesKey, u64>,
    n: int,
) -> Seq<char>
    decreases n,
{
    if n <= 0 {
        Seq::empty()
    } else {
        counter_lines(name, keys, m, n - 1) + series_line(
            name,
            labels_text(keys[n - 1]@, keys[n - 1]@.len() as int),
            decimal_repr(count_of(m, pair_texts(keys[n - 1]@)) as int),
        )
    }
}

/// Whether `text` is the exposition of a counter family: the `# TYPE` line,
/// then one line per series, in some order.
pub open spec fn renders_counters(text: Seq<char>, name: Seq<char>, m: Map<SeriesKey, u64>) -> bool {
    exists|keys: Seq<Vec<(String, String)>>|
        #![trigger lists_series(keys, m.dom())]
        lists_series(keys, m.dom()) && text == "# TYPE "@ + name + " "@ + "counter"@ + "\n"@
            + counter_lines(name, keys, m, keys.len() as int)
}

/// A family of monotonic counters. Counters saturate.
pub struct CounterVec {
    table: CounterSeries,
}

impl CounterVec {
    /// The value of each series, by its key.
    pub closed spec fn series(&self) -> Map<SeriesKey, u64> {
        counter_series(self.table)
    }

    /// A family without series.
    pub fn new() -> (c: CounterVec)
        ensures
            (c.series() == Map::<SeriesKey, u64>::empty()),
    {
        CounterVec { table: counter_series_new() }
    }

    /// Add `v` to the series of `labels`, creating it at zero if need be.
    /// Returns the key of the series.
    pub fn add(&mut self, labels: &Vec<(String, String)>, v: u64) -> (key: Vec<(String, String)>)
        ensures
            canonical(key@, labels@),
            final(self).series() == old(self).series().insert(
                pair_texts(key@),
                sat_add(count_of(old(self).series(), pair_texts(key@)), v),
            ),
    {
        let key = series_key(labels);
        let cur = match counter_series_get(&self.table, &key) {
            Some(c) => c,
            None => 0,
        };
        let ghost k = pair_texts(key@);
        let stored = copy_labels(&key);
        counter_series_insert(&mut self.table, stored, saturating_sum(cur, v));
        key
    }

    /// Add one to the series of `labels`.
    pub fn inc(&mut self, labels: &Vec<(String, String)>) -> (key: Vec<(String, String)>)
        ensures
            canonical(key@, labels@),
            final(self).series() == old(self).series().insert(
                pair_texts(key@),
                sat_add(count_of(old(self).series(), pair_texts(key@)), 1),
            ),
    {
        self.add(labels, 1)
    }

    /// The key of the series of `labels` and its value; zero if there is
    /// no such series.
    pub fn get(&self, labels: &Vec<(String, String)>) -> (r: (Vec<(String, String)>, u64))
        ensures
            canonical(r.0@, labels@),
            r.1 == count_of(self.series(), pair_texts(r.0@)),
    {
        let key = series_key(labels);
        let v = match counter_series_get(&self.table, &key) {
            Some(c) => c,
            None => 0,
        };
        (key, v)
    }

    /// The exposition of the family under `name`.
    pub fn render(&self, name: &str) -> (text: String)
        ensures
            renders_counters(text@, name@, self.series()),
    {
        let keys = counter_series_keys(&self.table);
        let mut out = type_line(name, "counter");
        let ghost head = out@;
        let mut k: usize = 0;
        while k < keys.len()
            invariant
                k <= keys.len(),
                out@ == head + counter_lines(name@, keys@, self.series(), k as int),
            decreases keys.len() - k,
        {
            let v = match counter_series_get(&self.table, &keys[k]) {
                Some(c) => c,
                None => 0,
            };
            let line = render_series_line(
                name,
                render_labels(&keys[k]).as_str(),
                decimal_text(v).as_str(),
            );
            out.append(line.as_str());
            proof {
                assert(out@ =~= head + counter_lines(name@, keys@, self.series(), k as int + 1));
            }
            k += 1;
        }
        proof {
            assert(head =~= "# TYPE "@ + name@ + " "@ + "counter"@ + "\n"@);
        }
        out
    }
}

/// A copy of `labels`, label by label.
pub fn copy_labels(labels: &Vec<(String, String)>) -> (c: Vec<(String, String)>)
    ensures
        pair_texts(c@) == pair_texts(labels@),
{
    let mut c: Vec<(String, String)> = Vec::new();
    let mut k: usize = 0;
    while k < labels.len()
        invariant
            k <= labels.len(),
            c.len() == k,
            forall|i: int| 0 <= i < k ==> (#[trigger] c[i]).0@ == labels[i].0@ && c[i].1@ == labels[i].1@,
        decreases labels.len() - k,
    {
        c.push((labels[k].0.clone(), labels[k].1.clone()));
        k += 1;
    }
    proof {
        assert(pair_texts(c@) =~= pair_texts(labels@));
    }
    c
}

/// `a + b`, clamped to the range of `i64`.
pub open spec fn sat_add_signed(a: i64, b: i64) -> i64 {
    if a + b > i64::MAX {
        i64::MAX
    } else if a + b < i64::MIN {
        i64::MIN
    } else {
        (a + b) as i64
    }
}

/// `a + b`, clamped to the range of `i64`.
pub fn saturating_sum_signed(a: i64, b: i64) -> (r: i64)
    ensures
        r == sat_add_signed(a, b),
{
    let s: i128 = a as i128 + b as i128;
    if s > i64::MAX as i128 {
        i64::MAX
    } else if s < i64::MIN as i128 {
        i64::MIN
    } else {
        s as i64
    }
}

/// The value of a gauge that may not exist yet: zero until it does.
pub open spec fn level_of(m: Map<SeriesKey, i64>, key: SeriesKey) -> i64 {
    if m.contains_key(key) {
        m[key]
    } else {
        0
    }
}

/// The decimal text of a signed number.
pub open spec fn signed_text(v: i64) -> Seq<char> {
    if v < 0 {
        "-"@ + decimal_repr(-(v as int))
    } else {
        decimal_repr(v as int)
    }
}

/// Render a signed number.
pub fn render_signed(v: i64) -> (r: String)
    ensures
        r@ == signed_text(v),
{
    if v < 0 {
        let magnitude: u64 = if v == i64::MIN {
            9_223_372_036_854_775_808
        } else {
            (-v) as u64
        };
        let mut out = "-".to_owned();
        out.append(decimal_text(magnitude).as_str());
        out
    } else {
        decimal_text(v as u64)
    }
}

/// A table of gauges keyed by series.
pub type GaugeSeries = DashMap<Vec<(String, String)>, i64>;

/// What a table of gauges holds.
pub uninterp spec fn gauge_series(t: GaugeSeries) -> Map<SeriesKey, i64>;

/// `DashMap::new`: an empty table.
#[verifier::external_body]
fn gauge_series_new() -> (t: GaugeSeries)
    ensures
        (gauge_series(t) == Map::<SeriesKey, i64>::empty()),
{
    DashMap::new()
}

/// `DashMap::get`, copying the value out: the gauge under `key`, if any.
#[verifier::external_body]
fn gauge_series_get(t: &GaugeSeries, key: &Vec<(String, String)>) -> (v: Option<i64>)
    ensures
        v == (if gauge_series(*t).contains_key(pair_texts(key@)) {
            Some(gauge_series(*t)[pair_texts(key@)])
        } else {
            None
        }),
{
    t.get(key).map(|r| *r.value())
}

/// `DashMap::insert`: binds `key` to `value`, replacing what was bound.
#[verifier::external_body]
fn gauge_series_insert(t: &mut GaugeSeries, key: Vec<(String, String)>, value: i64)
    ensures
        gauge_series(*final(t)) == gauge_series(*old(t)).insert(pair_texts(key@), value),
{
    t.insert(key, value);
}

/// `DashMap::iter`, cloning each key out: the keys of the table, each
/// once, in the order in which the map happens to be walked.
#[verifier::external_body]
fn gauge_series_keys(t: &GaugeSeries) -> (v: Vec<Vec<(String, String)>>)
    ensures
        lists_series(v@, gauge_series(*t).dom()),
{
    t.iter().map(|e| e.key().clone()).collect()
}

/// The lines of the first `n` of `keys`, in order.
pub open spec fn gauge_lines(
    name: Seq<char>,
    keys: Seq<Vec<(String, String)>>,
    m: Map<SeriesKey, i64>,
    n: int,
) -> Seq<char>
    decreases n,
{
    if n <= 0 {
        Seq::empty()
    } else {
        gauge_lines(name, keys, m, n - 1) + series_line(
            name,
            labels_text(keys[n - 1]@, keys[n - 1]@.len() as int),
            signed_text(level_of(m, pair_texts(keys[n - 1]@))),
        )
    }
}

/// Whether `text` is the exposition of a gauge family.
pub open spec fn renders_gauges(text: Seq<char>, name: Seq<char>, m: Map<SeriesKey, i64>) -> bool {
    exists|keys: Seq<Vec<(String, String)>>|
        #![trigger lists_series(keys, m.dom())]
        lists_series(keys, m.dom()) && text == "# TYPE "@ + name + " "@ + "gauge"@ + "\n"@
            + gauge_lines(name, keys, m, keys.len() as int)
}

/// A family of gauges. Gauges are clamped to the range of `i64`.
pub struct GaugeVec {
    table: GaugeSeries,
}

impl GaugeVec {
    /// The value of each series, by its key.
    pub closed spec fn series(&self) -> Map<SeriesKey, i64> {
        gauge_series(self.table)
    }

    /// A family without series.
    pub fn new() -> (g: GaugeVec)
        ensures
            (g.series() == Map::<SeriesKey, i64>::empty()),
    {
        GaugeVec { table: gauge_series_new() }
    }

    /// Add `delta` to the series of `labels`, creating it at zero if need
    /// be. Returns the key of the series.
    pub fn add(&mut self, labels: &Vec<(String, String)>, delta: i64) -> (key: Vec<(String, String)>)
        ensures
            canonical(key@, labels@),
            final(self).series() == old(self).series().insert(
                pair_texts(key@),
                sat_add_signed(level_of(old(self).series(), pair_texts(key@)), delta),
            ),
    {
        let key = series_key(labels);
        let cur: i64 = match gauge_series_get(&self.table, &key) {
            Some(v) => v,
            None => 0,
        };
        let stored = copy_labels(&key);
        gauge_series_insert(&mut self.table, stored, saturating_sum_signed(cur, delta));
        key
    }

    /// Add one to the series of `labels`.
    pub fn inc(&mut self, labels: &Vec<(String, String)>) -> (key: Vec<(String, String)>)
        ensures
            canonical(key@, labels@),
            final(self).series() == old(self).series().insert(
                pair_texts(key@),
                sat_add_signed(level_of(old(self).series(), pair_texts(key@)), 1),
            ),
    {
        self.add(labels, 1)
    }

    /// Take one from the series of `labels`.
    pub fn dec(&mut self, labels: &Vec<(String, String)>) -> (key: Vec<(String, String)>)
        ensures
            canonical(key@, labels@),
            final(self).series() == old(self).series().insert(
                pair_texts(key@),
                sat_add_signed(level_of(old(self).series(), pair_texts(key@)), -1i64),
            ),
    {
        self.add(labels, -1)
    }

    /// The key of the series of `labels` and its value; zero if there is
    /// no such series.
    pub fn get(&self, labels: &Vec<(String, String)>) -> (r: (Vec<(String, String)>, i64))
        ensures
            canonical(r.0@, labels@),
            r.1 == level_of(self.series(), pair_texts(r.0@)),
    {
        let key = series_key(labels);
        let v: i64 = match gauge_series_get(&self.table, &key) {
            Some(v) => v,
            None => 0,
        };
        (key, v)
    }

    /// The exposition of the family under `name`.
    pub fn render(&self, name: &str) -> (text: String)
        ensures
            renders_gauges(text@, name@, self.series()),
    {
        let keys = gauge_series_keys(&self.table);
        let mut out = type_line(name, "gauge");
        let ghost head = out@;
        let mut k: usize = 0;
        while k < keys.len()
            invariant
                k <= keys.len(),
                out@ == head + gauge_lines(name@, keys@, self.series(), k as int),
            decreases keys.len() - k,
        {
            let v: i64 = match gauge_series_get(&self.table, &keys[k]) {
                Some(v) => v,
                None => 0,
            };
            let line = render_series_line(
                name,
                render_labels(&keys[k]).as_str(),
                render_signed(v).as_str(),
            );
            out.append(line.as_str());
            proof {
                assert(out@ =~= head + gauge_lines(name@, keys@, self.series(), k as int + 1));
            }
            k += 1;
        }
        proof {
            assert(head =~= "# TYPE "@ + name@ + " "@ + "gauge"@ + "\n"@);
        }
        out
    }
}

} // verus!
