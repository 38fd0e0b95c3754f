//! Asking a page of metrics for samples and sums.

use vstd::prelude::*;
use vstd::string::*;

use crate::assoc::AssocMap;
use crate::test_helpers::scrape::{
    gathered_last, gathered_samples, pair_map, plain_samples, raw_views, scrape, scraped,
    RawScrape, SampleValue, SampleView,
};
use crate::text::{lines, lines_of, same_text, strip_suffix, stripped, views};

verus! {

/// What labels say.
pub open spec fn label_map(labels: AssocMap<String, String>) -> Map<Seq<char>, Seq<char>> {
    labels@.map_values(|v: String| v@)
}

/// A sample of a metric.
pub struct Sample {
    pub metric: String,
    pub labels: AssocMap<String, String>,
    pub value: SampleValue,
}

impl View for Sample {
    type V = SampleView;

    open spec fn view(&self) -> SampleView {
        SampleView { metric: self.metric@, labels: label_map(self.labels), value: self.value }
    }
}

/// What each of the samples says.
pub open spec fn sample_views(samples: Seq<Sample>) -> Seq<SampleView> {
    samples.map_values(|s: Sample| s@)
}

/// The labels that pairs of name and value make.
pub fn labels_from_pairs(pairs: &Vec<(String, String)>) -> (r: AssocMap<String, String>)
    ensures
        r.wf(),
        label_map(r) == pair_map(pairs@),
{
    let mut r: AssocMap<String, String> = AssocMap::new();
    let mut i: usize = 0;
    assert(label_map(r) =~= pair_map(pairs@.take(0)));
    while i < pairs.len()
        invariant
            i <= pairs@.len(),
            r.wf(),
            label_map(r) == pair_map(pairs@.take(i as int)),
        decreases pairs@.len() - i,
    {
        let ghost before = r;
        r.insert(pairs[i].0.clone(), pairs[i].1.clone());
        i += 1;
        proof {
            let next = pairs@.take(i as int);
            assert(next.drop_last() =~= pairs@.take(i - 1));
            assert(label_map(r) =~= label_map(before).insert(next.last().0@, next.last().1@));
        }
    }
    assert(pairs@.take(i as int) =~= pairs@);
    r
}

/// Whether `base` has every label of `check`, with the same value.
pub fn superset_of(base: &AssocMap<String, String>, check: &AssocMap<String, String>) -> (r: bool)
    requires
        base.wf(),
        check.wf(),
    ensures
        r == label_map(*check).submap_of(label_map(*base)),
{
    let mut i: usize = 0;
    while i < check.len()
        invariant
            base.wf(),
            check.wf(),
            i <= check.size(),
            forall|j: int|
                0 <= j < i ==> label_map(*base).contains_key(#[trigger] check.key_at(j))
                    && label_map(*base)[check.key_at(j)] == label_map(*check)[check.key_at(j)],
        decreases check.size() - i,
    {
        let (k, v) = check.entry(i);
        assert(label_map(*check).dom().contains(k@));
        let same = match base.get(k) {
            Some(b) => *b == *v,
            None => false,
        };
        if !same {
            assert(label_map(*check)[k@] == v@);
            assert(label_map(*base).dom().contains(k@) ==> label_map(*base)[k@] != v@);
            return false;
        }
        i += 1;
    }
    proof {
        check.lemma_keys();
    }
    true
}

/// What a page of metrics says.
pub struct PageView {
    pub docs: Set<Seq<char>>,
    pub samples: Seq<SampleView>,
}

/// Whether a sample is one of `metric` with at least `labels`.
pub open spec fn matches_query(
    s: SampleView,
    metric: Seq<char>,
    labels: Map<Seq<char>, Seq<char>>,
) -> bool {
    s.metric == metric && labels.submap_of(s.labels)
}

/// Whether a sample can be added up.
pub open spec fn is_number(s: SampleView) -> bool {
    s.value is Counter || s.value is Untyped
}

/// The number that a sample is.
pub open spec fn number(s: SampleView) -> nat {
    match s.value {
        SampleValue::Counter(n) => n as nat,
        SampleValue::Untyped(n) => n as nat,
        _ => 0,
    }
}

/// The sum of samples.
pub open spec fn sum(samples: Seq<SampleView>) -> nat
    decreases samples.len(),
{
    if samples.len() == 0 {
        0
    } else {
        sum(samples.drop_last()) + number(samples.last())
    }
}

/// Whether samples can be added up in 64 bits.
pub open spec fn summable(samples: Seq<SampleView>) -> bool {
    &&& forall|i: int| 0 <= i < samples.len() ==> is_number(#[trigger] samples[i])
    &&& sum(samples) <= u64::MAX
}

impl PageView {
    /// The samples of `metric` with at least `labels`, in order; nothing where the page
    /// does not describe the metric. A counter is described without the `_total` at the end
    /// of its name.
    pub open spec fn queried(
        self,
        metric: Seq<char>,
        labels: Map<Seq<char>, Seq<char>>,
    ) -> Option<Seq<SampleView>> {
        if self.docs.contains(stripped(metric, "_total"@)) {
            Some(self.samples.filter(|s: SampleView| matches_query(s, metric, labels)))
        } else {
            None
        }
    }

    /// The sum of the samples of `metric` with at least `labels`; zero where the page does
    /// not describe the metric.
    pub open spec fn query_sum(self, metric: Seq<char>, labels: Map<Seq<char>, Seq<char>>) -> nat {
        match self.queried(metric, labels) {
            Some(samples) => sum(samples),
            None => 0,
        }
    }

    /// Whether the samples of `metric` with at least `labels` can be added up.
    pub open spec fn can_sum(self, metric: Seq<char>, labels: Map<Seq<char>, Seq<char>>) -> bool {
        match self.queried(metric, labels) {
            Some(samples) => summable(samples),
            None => true,
        }
    }
}

/// A page of metrics.
pub struct ParsedMetrics {
    pub docs: Vec<String>,
    pub samples: Vec<Sample>,
}

impl View for ParsedMetrics {
    type V = PageView;

    open spec fn view(&self) -> PageView {
        PageView { docs: views(self.docs@).to_set(), samples: sample_views(self.samples@) }
    }
}

/// What each of the samples referred to says.
pub open spec fn ref_views(samples: Seq<&Sample>) -> Seq<SampleView> {
    samples.map_values(|s: &Sample| s@)
}

/// The sum of the first samples is no more than the sum of all.
proof fn lemma_sum_of_first(samples: Seq<SampleView>, n: int)
    requires
        0 <= n <= samples.len(),
    ensures
        sum(samples.take(n)) <= sum(samples),
    decreases samples.len(),
{
    if n < samples.len() {
        lemma_sum_of_first(samples.drop_last(), n);
        assert(samples.drop_last().take(n) =~= samples.take(n));
    } else {
        assert(samples.take(n) =~= samples);
    }
}

impl ParsedMetrics {
    /// The labels of every sample are in order.
    pub open spec fn wf(self) -> bool {
        forall|i: int| 0 <= i < self.samples@.len() ==> (#[trigger] self.samples@[i]).labels.wf()
    }

    /// The page that was scraped.
    pub fn from_scrape(raw: RawScrape) -> (r: ParsedMetrics)
        ensures
            r.wf(),
            r@.docs == views(raw.docs@).to_set(),
            r@.samples == raw_views(raw.samples@),
    {
        let mut samples: Vec<Sample> = Vec::new();
        let mut i: usize = 0;
        while i < raw.samples.len()
            invariant
                i <= raw.samples@.len(),
                samples@.len() == i,
                forall|j: int| 0 <= j < i ==> (#[trigger] samples@[j]).labels.wf(),
                forall|j: int| 0 <= j < i ==> (#[trigger] samples@[j])@ == raw.samples@[j]@,
            decreases raw.samples@.len() - i,
        {
            let s = &raw.samples[i];
            samples.push(
                Sample {
                    metric: s.metric.clone(),
                    labels: labels_from_pairs(&s.labels),
                    value: s.value,
                },
            );
            i += 1;
        }
        assert(sample_views(samples@) =~= raw_views(raw.samples@));
        ParsedMetrics { docs: raw.docs, samples }
    }

    /// Reads a page of metrics.
    pub fn parse(body: &str) -> (r: ParsedMetrics)
        ensures
            r.wf(),
            r@.docs == scraped(lines_of(body@)).docs,
            plain_samples(r@.samples) == scraped(lines_of(body@)).plain,
            gathered_samples(r@.samples) == scraped(lines_of(body@)).gathered,
            gathered_last(r@.samples),
    {
        let raw = scrape(lines(body));
        ParsedMetrics::from_scrape(raw)
    }

    /// Whether the page describes `metric`.
    fn describes(&self, metric: &str) -> (r: bool)
        ensures
            r == self@.docs.contains(metric@),
    {
        let mut i: usize = 0;
        while i < self.docs.len()
            invariant
                i <= self.docs@.len(),
                forall|j: int| 0 <= j < i ==> (#[trigger] self.docs@[j])@ != metric@,
            decreases self.docs@.len() - i,
        {
            if same_text(self.docs[i].as_str(), metric) {
                assert(views(self.docs@)[i as int] == metric@);
                return true;
            }
            i += 1;
        }
        assert forall|j: int| 0 <= j < views(self.docs@).len() implies views(self.docs@)[j]
            != metric@ by {
            assert(self.docs@[j]@ != metric@);
        }
        false
    }

    /// The samples of `metric` with at least `labels`; nothing where the page does not
    /// describe the metric.
    pub fn query(&self, metric: &str, labels: &AssocMap<String, String>) -> (r: Option<
        Vec<&Sample>,
    >)
        requires
            self.wf(),
            labels.wf(),
        ensures
            match r {
                Some(samples) => self@.queried(metric@, label_map(*labels)) == Some(
                    ref_views(samples@),
                ),
                None => self@.queried(metric@, label_map(*labels)) is None,
            },
    {
        if !self.describes(strip_suffix(metric, "_total")) {
            return None;
        }
        let ghost all = sample_views(self.samples@);
        let ghost wanted = |s: SampleView| matches_query(s, metric@, label_map(*labels));
        let mut found: Vec<&Sample> = Vec::new();
        let mut i: usize = 0;
        proof {
            reveal(Seq::filter);
            assert(ref_views(found@) =~= all.take(0).filter(wanted));
        }
        while i < self.samples.len()
            invariant
                self.wf(),
                labels.wf(),
                i <= self.samples@.len(),
                all == sample_views(self.samples@),
                wanted == (|s: SampleView| matches_query(s, metric@, label_map(*labels))),
                ref_views(found@) == all.take(i as int).filter(wanted),
            decreases self.samples@.len() - i,
        {
            let s = &self.samples[i];
            let ghost before = found@;
            let ghost next = all.take(i + 1);
            proof {
                reveal(Seq::filter);
                assert(next.drop_last() =~= all.take(i as int));
                assert(next.last() == s@);
            }
            if same_text(s.metric.as_str(), metric) && superset_of(&s.labels, labels) {
                found.push(s);
                assert(ref_views(found@) =~= ref_views(before).push(s@));
            }
            i += 1;
        }
        assert(all.take(i as int) =~= all);
        Some(found)
    }

    /// Whether the samples of `metric` with at least `labels` can be added up.
    pub fn is_summable(&self, metric: &str, labels: &AssocMap<String, String>) -> (r: bool)
        requires
            self.wf(),
            labels.wf(),
        ensures
            r == self@.can_sum(metric@, label_map(*labels)),
    {
        match self.query(metric, labels) {
            None => true,
            Some(samples) => {
                let ghost all = ref_views(samples@);
                let mut total: u64 = 0;
                let mut i: usize = 0;
                while i < samples.len()
                    invariant
                        i <= samples@.len(),
                        all == ref_views(samples@),
                        self@.queried(metric@, label_map(*labels)) == Some(all),
                        total == sum(all.take(i as int)),
                        forall|j: int| 0 <= j < i ==> is_number(#[trigger] all[j]),
                    decreases samples@.len() - i,
                {
                    let ghost next = all.take(i + 1);
                    proof {
                        assert(next.drop_last() =~= all.take(i as int));
                        assert(next.last() == all[i as int]);
                        lemma_sum_of_first(all, i + 1);
                    }
                    let n = match samples[i].value {
                        SampleValue::Counter(n) => n,
                        SampleValue::Untyped(n) => n,
                        _ => {
                            assert(!is_number(all[i as int]));
                            return false;
                        },
                    };
                    match total.checked_add(n) {
                        Some(t) => {
                            total = t;
                        },
                        None => return false,
                    }
                    i += 1;
                }
                assert(all.take(i as int) =~= all);
                true
            },
        }
    }

    /// The sum of the samples of `metric` with at least `labels`; zero where the page does
    /// not describe the metric.
    pub fn query_sum(&self, metric: &str, labels: &AssocMap<String, String>) -> (r: u64)
        requires
            self.wf(),
            labels.wf(),
            self@.can_sum(metric@, label_map(*labels)),
        ensures
            r == self@.query_sum(metric@, label_map(*labels)),
    {
        match self.query(metric, labels) {
            None => 0,
            Some(samples) => {
                let ghost all = ref_views(samples@);
                let mut total: u64 = 0;
                let mut i: usize = 0;
                while i < samples.len()
                    invariant
                        i <= samples@.len(),
                        all == ref_views(samples@),
                        summable(all),
                        total == sum(all.take(i as int)),
                    decreases samples@.len() - i,
                {
                    let ghost next = all.take(i + 1);
                    proof {
                        assert(next.drop_last() =~= all.take(i as int));
                        assert(next.last() == all[i as int]);
                        lemma_sum_of_first(all, i + 1);
                    }
                    let n = match samples[i].value {
                        SampleValue::Counter(n) => n,
                        SampleValue::Untyped(n) => n,
                        _ => {
                            assert(is_number(all[i as int]));
                            vstd::pervasive::unreached()
                        },
                    };
                    total = total + n;
                    i += 1;
                }
                assert(all.take(i as int) =~= all);
                total
            },
        }
    }
}

} // verus!
