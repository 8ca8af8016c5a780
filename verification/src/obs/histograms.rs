//! Labeled histograms and the gateway's metric registry.

use vstd::prelude::*;
use vstd::string::{StrSliceExecFns, StringExecFns};
use dashmap::DashMap;
use crate::obs::families::{
    canonical,
    copy_labels,
    lists_series,
    render_series_line,
    renders_counters,
    renders_gauges,
    series_key,
    series_line,
    CounterVec,
    GaugeVec,
    SeriesKey,
};
use crate::obs::metrics::{labels_text, render_labels};
use crate::protocol::text::pair_texts;
use crate::obs::metrics::{bucket_bound, ladder, sat_add, type_line, Histogram, BUCKETS};
use crate::strings::{decimal_repr, decimal_text};

verus! {

/// Mathematical content of a histogram.
pub struct HistogramView {
    pub count: u64,
    pub sum: u64,
    pub buckets: Seq<u64>,
}

impl View for Histogram {
    type V = HistogramView;

    open spec fn view(&self) -> HistogramView {
        HistogramView { count: self.count, sum: self.sum, buckets: self.buckets@ }
    }
}

/// A table of histograms keyed by series.
pub type HistogramTable = DashMap<Vec<(String, String)>, Histogram>;

/// What a histogram table holds.
pub uninterp spec fn histograms(t: HistogramTable) -> Map<SeriesKey, HistogramView>;

/// `DashMap::new`: an empty table.
#[verifier::external_body]
fn histograms_new() -> (t: HistogramTable)
    ensures
        (histograms(t) == Map::<SeriesKey, HistogramView>::empty()),
{
    DashMap::new()
}

/// `DashMap::get`, cloning the value out: the histogram under `key`, if
/// any.
#[verifier::external_body]
fn histograms_get(t: &HistogramTable, key: &Vec<(String, String)>) -> (h: Option<Histogram>)
    ensures
        h is Some == histograms(*t).contains_key(pair_texts(key@)),
        h matches Some(x) ==> x@ == histograms(*t)[pair_texts(key@)],
{
    t.get(key).map(|r| r.value().clone())
}

/// `DashMap::insert`: binds `key` to `value`, replacing what was bound.
#[verifier::external_body]
fn histograms_insert(t: &mut HistogramTable, key: Vec<(String, String)>, value: Histogram)
    ensures
        histograms(*final(t)) == histograms(*old(t)).insert(pair_texts(key@), value@),
{
    t.insert(key, value);
}

/// `DashMap::iter`, cloning each key out: the keys of the table, each
/// once, in the order in which the map happens to be walked.
#[verifier::external_body]
fn histograms_keys(t: &HistogramTable) -> (v: Vec<Vec<(String, String)>>)
    ensures
        lists_series(v@, histograms(*t).dom()),
{
    t.iter().map(|e| e.key().clone()).collect()
}

/// A histogram without observations.
pub open spec fn blank_histogram() -> HistogramView {
    HistogramView { count: 0, sum: 0, buckets: Seq::new(BUCKETS as nat, |i: int| 0u64) }
}

/// The histogram of a series that may not exist yet.
pub open spec fn histogram_of(m: Map<SeriesKey, HistogramView>, key: SeriesKey) -> HistogramView {
    if m.contains_key(key) {
        m[key]
    } else {
        blank_histogram()
    }
}

/// A histogram after one more observation of `micros` microseconds.
pub open spec fn observed(h: HistogramView, micros: u64) -> HistogramView {
    HistogramView {
        count: sat_add(h.count, 1),
        sum: sat_add(h.sum, micros),
        buckets: Seq::new(
            BUCKETS as nat,
            |i: int|
                if micros <= ladder(i) {
                    sat_add(h.buckets[i], 1)
                } else {
                    h.buckets[i]
                },
        ),
    }
}

/// The prefix of the labels inside a bucket line: the key and a comma,
/// or nothing for a series without labels.
pub open spec fn bucket_prefix(key: Seq<char>) -> Seq<char> {
    if key.len() == 0 {
        key
    } else {
        key + ","@
    }
}

/// The line of bucket `i` of a series.
pub open spec fn bucket_line(name: Seq<char>, key: Seq<char>, i: int, h: HistogramView) -> Seq<char> {
    name + "_bucket{"@ + bucket_prefix(key) + "le=\""@ + decimal_repr(ladder(i) as int) + "\"} "@
        + decimal_repr(h.buckets[i] as int) + "\n"@
}

/// The lines of the first `n` buckets of a series.
pub open spec fn bucket_lines(name: Seq<char>, key: Seq<char>, h: HistogramView, n: int) -> Seq<char>
    decreases n,
{
    if n <= 0 {
        Seq::empty()
    } else {
        bucket_lines(name, key, h, n - 1) + bucket_line(name, key, n - 1, h)
    }
}

/// The exposition of one series: its nine buckets, the `+Inf` bucket, the
/// sum and the count.
pub open spec fn histogram_text(name: Seq<char>, key: Seq<char>, h: HistogramView) -> Seq<char> {
    bucket_lines(name, key, h, BUCKETS as int) + name + "_bucket{"@ + bucket_prefix(key)
        + "le=\"+Inf\"} "@ + decimal_repr(h.count as int) + "\n"@ + series_line(
        name + "_sum"@,
        key,
        decimal_repr(h.sum as int),
    ) + series_line(name + "_count"@, key, decimal_repr(h.count as int))
}

/// The expositions of the first `n` of `keys`, in order.
pub open spec fn histogram_texts(
    name: Seq<char>,
    keys: Seq<Vec<(String, String)>>,
    m: Map<SeriesKey, HistogramView>,
    n: int,
) -> Seq<char>
    decreases n,
{
    if n <= 0 {
        Seq::empty()
    } else {
        histogram_texts(name, keys, m, n - 1) + histogram_text(
            name,
            labels_text(keys[n - 1]@, keys[n - 1]@.len() as int),
            histogram_of(m, pair_texts(keys[n - 1]@)),
        )
    }
}

/// Whether `text` is the exposition of a histogram family.
pub open spec fn renders_histograms(
    text: Seq<char>,
    name: Seq<char>,
    m: Map<SeriesKey, HistogramView>,
) -> bool {
    exists|keys: Seq<Vec<(String, String)>>|
        #![trigger lists_series(keys, m.dom())]
        lists_series(keys, m.dom()) && text == "# TYPE "@ + name + " "@ + "histogram"@ + "\n"@
            + histogram_texts(name, keys, m, keys.len() as int)
}

/// Render one series of a histogram family.
fn render_histogram(name: &str, key: &str, h: &Histogram) -> (r: String)
    requires
        h.wf(),
    ensures
        r@ == histogram_text(name@, key@, h@),
{
    let mut prefix = key.to_owned();
    if key.unicode_len() > 0 {
        prefix.append(",");
    }
    assert(prefix@ =~= bucket_prefix(key@));
    let mut out = String::new();
    let mut i: usize = 0;
    assert(out@ =~= bucket_lines(name@, key@, h@, 0));
    while i < BUCKETS
        invariant
            i <= BUCKETS,
            h.wf(),
            prefix@ == bucket_prefix(key@),
            out@ == bucket_lines(name@, key@, h@, i as int),
        decreases BUCKETS - i,
    {
        out.append(name);
        out.append("_bucket{");
        out.append(prefix.as_str());
        out.append("le=\"");
        out.append(decimal_text(bucket_bound(i)).as_str());
        out.append("\"} ");
        out.append(decimal_text(h.buckets[i]).as_str());
        out.append("\n");
        proof {
            assert(out@ =~= bucket_lines(name@, key@, h@, i as int) + bucket_line(
                name@,
                key@,
                i as int,
                h@,
            ));
        }
        i += 1;
    }
    out.append(name);
    out.append("_bucket{");
    out.append(prefix.as_str());
    out.append("le=\"+Inf\"} ");
    out.append(decimal_text(h.count).as_str());
    out.append("\n");
    let mut sum_name = name.to_owned();
    sum_name.append("_sum");
    out.append(render_series_line(sum_name.as_str(), key, decimal_text(h.sum).as_str()).as_str());
    let mut count_name = name.to_owned();
    count_name.append("_count");
    out.append(
        render_series_line(count_name.as_str(), key, decimal_text(h.count).as_str()).as_str(),
    );
    assert(out@ =~= histogram_text(name@, key@, h@));
    out
}

/// A family of histograms over the ladder of buckets.
pub struct HistogramVec {
    table: HistogramTable,
}

impl HistogramVec {
    /// The histogram of each series, by its key.
    pub closed spec fn series(&self) -> Map<SeriesKey, HistogramView> {
        histograms(self.table)
    }

    /// The family's invariant: every histogram has one counter per bucket.
    pub open spec fn wf(&self) -> bool {
        forall|k: SeriesKey| #[trigger]
            self.series().contains_key(k) ==> self.series()[k].buckets.len() == BUCKETS
    }

    /// A family without series.
    pub fn new() -> (h: HistogramVec)
        ensures
            h.wf(),
            (h.series() == Map::<SeriesKey, HistogramView>::empty()),
    {
        HistogramVec { table: histograms_new() }
    }

    /// Record an observation of `micros` microseconds in the series of
    /// `labels`, creating it if need be. Returns the key of the series.
    pub fn observe(&mut self, labels: &Vec<(String, String)>, micros: u64) -> (key: Vec<
        (String, String),
    >)
        requires
            old(self).wf(),
        ensures
            final(self).wf(),
            canonical(key@, labels@),
            final(self).series() == old(self).series().insert(
                pair_texts(key@),
                observed(histogram_of(old(self).series(), pair_texts(key@)), micros),
            ),
    {
        let key = series_key(labels);
        let mut h = match histograms_get(&self.table, &key) {
            Some(h) => h,
            None => Histogram::new(),
        };
        let ghost before = h@;
        assert(before =~= histogram_of(self.series(), pair_texts(key@))) by {
            if !self.series().contains_key(pair_texts(key@)) {
                assert(before.buckets =~= blank_histogram().buckets);
            }
        }
        h.observe(micros);
        proof {
            assert(h@.buckets =~= observed(before, micros).buckets);
        }
        let stored = copy_labels(&key);
        histograms_insert(&mut self.table, stored, h);
        key
    }

    /// The exposition of the family under `name`.
    pub fn render(&self, name: &str) -> (text: String)
        requires
            self.wf(),
        ensures
            renders_histograms(text@, name@, self.series()),
    {
        let keys = histograms_keys(&self.table);
        let mut out = type_line(name, "histogram");
        let ghost head = out@;
        let mut k: usize = 0;
        while k < keys.len()
            invariant
                k <= keys.len(),
                self.wf(),
                lists_series(keys@, self.series().dom()),
                out@ == head + histogram_texts(name@, keys@, self.series(), k as int),
            decreases keys.len() - k,
        {
            assert(self.series().dom().contains(pair_texts(keys[k as int]@)));
            match histograms_get(&self.table, &keys[k]) {
                Some(h) => {
                    let labels = render_labels(&keys[k]);
                    out.append(render_histogram(name, labels.as_str(), &h).as_str());
                },
                None => {},
            }
            proof {
                assert(out@ =~= head + histogram_texts(name@, keys@, self.series(), k as int + 1));
            }
            k += 1;
        }
        proof {
            assert(head =~= "# TYPE "@ + name@ + " "@ + "histogram"@ + "\n"@);
        }
        out
    }
}

/// The gateway's metrics.
pub struct GatewayMetrics {
    pub ws_upgrades: CounterVec,
    pub ws_active_sessions: GaugeVec,
    pub policy_decisions: CounterVec,
    pub handshake_rejections: CounterVec,
    /// Dispatch durations, in microseconds.
    pub dispatch_duration: HistogramVec,
    pub decode_errors: CounterVec,
    pub service_errors: CounterVec,
    pub writer_timeouts: CounterVec,
    pub unknown_service_errors: CounterVec,
    /// Whether the gateway drains.
    pub draining: bool,
}

/// The lines of the drain gauge: 1 while draining, else 0.
pub open spec fn draining_text(draining: bool) -> Seq<char> {
    if draining {
        "# TYPE wsprism_draining gauge\nwsprism_draining 1\n"@
    } else {
        "# TYPE wsprism_draining gauge\nwsprism_draining 0\n"@
    }
}

/// The lines of the first `n` extra values: `name value` each.
pub open spec fn extra_text(extra: Seq<(String, u64)>, n: int) -> Seq<char>
    decreases n,
{
    if n <= 0 {
        Seq::empty()
    } else {
        extra_text(extra, n - 1) + extra[n - 1].0@ + " "@ + decimal_repr(extra[n - 1].1 as int)
            + "\n"@
    }
}

/// Whether `parts` are the expositions of the nine families, in the order
/// in which they are exposed.
pub open spec fn families_rendered(parts: Seq<Seq<char>>, m: &GatewayMetrics) -> bool {
    &&& parts.len() == 9
    &&& renders_counters(parts[0], "wsprism_ws_upgrades_total"@, m.ws_upgrades.series())
    &&& renders_gauges(parts[1], "wsprism_ws_sessions_active"@, m.ws_active_sessions.series())
    &&& renders_counters(parts[2], "wsprism_policy_decisions_total"@, m.policy_decisions.series())
    &&& renders_counters(
        parts[3],
        "wsprism_handshake_rejections_total"@,
        m.handshake_rejections.series(),
    )
    &&& renders_histograms(
        parts[4],
        "wsprism_dispatch_duration_micros"@,
        m.dispatch_duration.series(),
    )
    &&& renders_counters(parts[5], "wsprism_decode_errors_total"@, m.decode_errors.series())
    &&& renders_counters(parts[6], "wsprism_service_errors_total"@, m.service_errors.series())
    &&& renders_counters(parts[7], "wsprism_writer_timeouts_total"@, m.writer_timeouts.series())
    &&& renders_counters(
        parts[8],
        "wsprism_unknown_service_total"@,
        m.unknown_service_errors.series(),
    )
}

/// Whether `text` is the exposition of the gateway's metrics: the nine
/// families, the drain gauge, then the extra values.
pub open spec fn renders_gateway(text: Seq<char>, m: &GatewayMetrics, extra: Seq<(String, u64)>) -> bool {
    exists|parts: Seq<Seq<char>>|
        #![trigger families_rendered(parts, m)]
        families_rendered(parts, m) && text == parts[0] + parts[1] + parts[2] + parts[3] + parts[4]
            + parts[5] + parts[6] + parts[7] + parts[8] + draining_text(m.draining) + extra_text(
            extra,
            extra.len() as int,
        )
}

impl GatewayMetrics {
    /// The registry's invariant: that of its histograms.
    pub open spec fn wf(&self) -> bool {
        self.dispatch_duration.wf()
    }

    /// Whether no family of the registry holds a series yet.
    pub open spec fn without_series(&self) -> bool {
        &&& self.ws_upgrades.series() =~= Map::empty()
        &&& self.ws_active_sessions.series() =~= Map::empty()
        &&& self.policy_decisions.series() =~= Map::empty()
        &&& self.handshake_rejections.series() =~= Map::empty()
        &&& self.dispatch_duration.series() =~= Map::empty()
        &&& self.decode_errors.series() =~= Map::empty()
        &&& self.service_errors.series() =~= Map::empty()
        &&& self.writer_timeouts.series() =~= Map::empty()
        &&& self.unknown_service_errors.series() =~= Map::empty()
    }

    /// A registry without series, of a gateway that does not drain.
    pub fn new() -> (m: GatewayMetrics)
        ensures
            m.wf(),
            !m.draining,
            m.without_series(),
    {
        GatewayMetrics {
            ws_upgrades: CounterVec::new(),
            ws_active_sessions: GaugeVec::new(),
            policy_decisions: CounterVec::new(),
            handshake_rejections: CounterVec::new(),
            dispatch_duration: HistogramVec::new(),
            decode_errors: CounterVec::new(),
            service_errors: CounterVec::new(),
            writer_timeouts: CounterVec::new(),
            unknown_service_errors: CounterVec::new(),
            draining: false,
        }
    }

    /// Mark the gateway as draining.
    pub fn set_draining(&mut self)
        ensures
            final(self).draining,
            final(self).ws_upgrades == old(self).ws_upgrades,
            final(self).ws_active_sessions == old(self).ws_active_sessions,
            final(self).policy_decisions == old(self).policy_decisions,
            final(self).handshake_rejections == old(self).handshake_rejections,
            final(self).dispatch_duration == old(self).dispatch_duration,
            final(self).decode_errors == old(self).decode_errors,
            final(self).service_errors == old(self).service_errors,
            final(self).writer_timeouts == old(self).writer_timeouts,
            final(self).unknown_service_errors == old(self).unknown_service_errors,
    {
        self.draining = true;
    }

    /// Whether the gateway drains.
    pub fn is_draining(&self) -> (b: bool)
        ensures
            b == self.draining,
    {
        self.draining
    }

    /// The exposition of every metric, followed by the extra values that
    /// the caller supplies.
    pub fn render(&self, extra: &Vec<(String, u64)>) -> (text: String)
        requires
            self.wf(),
        ensures
            renders_gateway(text@, self, extra@),
    {
        let p0 = self.ws_upgrades.render("wsprism_ws_upgrades_total");
        let p1 = self.ws_active_sessions.render("wsprism_ws_sessions_active");
        let p2 = self.policy_decisions.render("wsprism_policy_decisions_total");
        let p3 = self.handshake_rejections.render("wsprism_handshake_rejections_total");
        let p4 = self.dispatch_duration.render("wsprism_dispatch_duration_micros");
        let p5 = self.decode_errors.render("wsprism_decode_errors_total");
        let p6 = self.service_errors.render("wsprism_service_errors_total");
        let p7 = self.writer_timeouts.render("wsprism_writer_timeouts_total");
        let p8 = self.unknown_service_errors.render("wsprism_unknown_service_total");
        let ghost parts = seq![p0@, p1@, p2@, p3@, p4@, p5@, p6@, p7@, p8@];
        let mut out = p0;
        out.append(p1.as_str());
        out.append(p2.as_str());
        out.append(p3.as_str());
        out.append(p4.as_str());
        out.append(p5.as_str());
        out.append(p6.as_str());
        out.append(p7.as_str());
        out.append(p8.as_str());
        if self.draining {
            out.append("# TYPE wsprism_draining gauge\nwsprism_draining 1\n");
        } else {
            out.append("# TYPE wsprism_draining gauge\nwsprism_draining 0\n");
        }
        let ghost head = out@;
        let mut k: usize = 0;
        while k < extra.len()
            invariant
                k <= extra.len(),
                out@ == head + extra_text(extra@, k as int),
            decreases extra.len() - k,
        {
            out.append(extra[k].0.as_str());
            out.append(" ");
            out.append(decimal_text(extra[k].1).as_str());
            out.append("\n");
            proof {
                assert(out@ =~= head + extra_text(extra@, k as int + 1));
            }
            k += 1;
        }
        proof {
            assert(families_rendered(parts, self));
            assert(out@ =~= parts[0] + parts[1] + parts[2] + parts[3] + parts[4] + parts[5]
                + parts[6] + parts[7] + parts[8] + draining_text(self.draining) + extra_text(
                extra@,
                extra.len() as int,
            ));
        }
        out
    }
}

} // verus!
