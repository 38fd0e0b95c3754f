//! Reading pages of metrics.

use prometheus_parse::{Scrape, Value};
use vstd::multiset::Multiset;
use vstd::prelude::*;
use vstd::string::*;

use crate::text::views;

verus! {

/// The value of a sample. Only counters and samples without a type are read as numbers.
#[derive(Clone, Copy, Debug, PartialEq, Eq, Structural)]
pub enum SampleValue {
    Counter(u64),
    Gauge,
    Histogram,
    Summary,
    Untyped(u64),
}

/// A sample, with its labels as pairs of name and value.
#[derive(Debug, PartialEq, Eq)]
pub struct RawSample {
    pub metric: String,
    pub labels: Vec<(String, String)>,
    pub value: SampleValue,
}

/// A page: the names of the metrics that are described in it, and the samples.
#[derive(Debug, PartialEq, Eq)]
pub struct RawScrape {
    pub docs: Vec<String>,
    pub samples: Vec<RawSample>,
}

/// What a sample says.
pub struct SampleView {
    pub metric: Seq<char>,
    pub labels: Map<Seq<char>, Seq<char>>,
    pub value: SampleValue,
}

/// What a page says.
pub struct ScrapeView {
    pub docs: Set<Seq<char>>,
    /// The samples of one line each, in the order of their lines.
    pub plain: Seq<SampleView>,
    /// The samples that are gathered from several lines: histograms and summaries.
    pub gathered: Multiset<SampleView>,
}

/// Whether a sample is gathered from several lines.
pub open spec fn is_gathered(s: SampleView) -> bool {
    s.value is Histogram || s.value is Summary
}

/// The samples of one line each, in order.
pub open spec fn plain_samples(samples: Seq<SampleView>) -> Seq<SampleView> {
    samples.filter(|s: SampleView| !is_gathered(s))
}

/// The samples that are gathered from several lines.
pub open spec fn gathered_samples(samples: Seq<SampleView>) -> Multiset<SampleView> {
    samples.filter(|s: SampleView| is_gathered(s)).to_multiset()
}

/// Whether the samples that are gathered from several lines come after all the others.
pub open spec fn gathered_last(samples: Seq<SampleView>) -> bool {
    forall|i: int, j: int|
        0 <= i < j < samples.len() && is_gathered(#[trigger] samples[i]) ==> is_gathered(
            #[trigger] samples[j],
        )
}

/// The labels that pairs of name and value make; of two with one name the later counts.
pub open spec fn pair_map(pairs: Seq<(String, String)>) -> Map<Seq<char>, Seq<char>>
    decreases pairs.len(),
{
    if pairs.len() == 0 {
        Map::empty()
    } else {
        pair_map(pairs.drop_last()).insert(pairs.last().0@, pairs.last().1@)
    }
}

impl View for RawSample {
    type V = SampleView;

    open spec fn view(&self) -> SampleView {
        SampleView {
            metric: self.metric@,
            labels: pair_map(self.labels@),
            value: self.value,
        }
    }
}

/// What each of the samples says.
pub open spec fn raw_views(samples: Seq<RawSample>) -> Seq<SampleView> {
    samples.map_values(|s: RawSample| s@)
}

impl View for RawScrape {
    type V = ScrapeView;

    open spec fn view(&self) -> ScrapeView {
        ScrapeView {
            docs: views(self.docs@).to_set(),
            plain: plain_samples(raw_views(self.samples@)),
            gathered: gathered_samples(raw_views(self.samples@)),
        }
    }
}

/// What `prometheus_parse::Scrape::parse` reads from the lines of a page: the metrics with a
/// line of help, and the samples with their labels and values.
pub uninterp spec fn scraped(lines: Seq<Seq<char>>) -> ScrapeView;

/// Calls `prometheus_parse::Scrape::parse` on lines none of which is an error, so that it
/// gives no error either. What it reads is left to a name over the lines. Samples come in the
/// order of their lines, but for histograms and summaries: they are gathered from several
/// lines and come last, in no set order. The labels of a sample come in no set order either.
/// Of orders that are not set the name says nothing. Numbers become integers as `as` makes
/// them: without their fraction, and the nearest integer there is where they are out of
/// range. The instant of a sample is left out.
#[verifier::external_body]
pub(crate) fn scrape(lines: Vec<String>) -> (r: RawScrape)
    ensures
        r@ == scraped(views(lines@)),
        gathered_last(raw_views(r.samples@)),
{
    let page = Scrape::parse(lines.into_iter().map(Ok)).unwrap();
    let samples = page.samples.into_iter().map(|s| RawSample {
        metric: s.metric,
        labels: s.labels.iter().map(|(k, v)| (k.clone(), v.clone())).collect(),
        value: match s.value {
            Value::Counter(n) => SampleValue::Counter(n as u64),
            Value::Gauge(_) => SampleValue::Gauge,
            Value::Histogram(_) => SampleValue::Histogram,
            Value::Summary(_) => SampleValue::Summary,
            Value::Untyped(n) => SampleValue::Untyped(n as u64),
        },
    });
    RawScrape { docs: page.docs.into_keys().collect(), samples: samples.collect() }
}

} // verus!
