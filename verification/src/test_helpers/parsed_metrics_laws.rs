//! What holds of queries whatever the page.

use vstd::prelude::*;

use crate::test_helpers::parsed_metrics::{
    is_number, matches_query, number, sum, summable, PageView, ParsedMetrics, Sample,
};
use crate::test_helpers::scrape::{
    is_gathered, pair_map, plain_samples, RawSample, SampleValue, SampleView,
};
use crate::text::{stripped, views};

verus! {

/// Labels include themselves, and what includes an including set includes the included one.
pub proof fn superset_is_an_order(
    a: Map<Seq<char>, Seq<char>>,
    b: Map<Seq<char>, Seq<char>>,
    c: Map<Seq<char>, Seq<char>>,
)
    ensures
        a.submap_of(a),
        a.submap_of(b) && b.submap_of(c) ==> a.submap_of(c),
        a.submap_of(b) && b.submap_of(a) ==> a == b,
        Map::<Seq<char>, Seq<char>>::empty().submap_of(a),
{
    if a.submap_of(b) && b.submap_of(c) {
        assert forall|k: Seq<char>| #[trigger] a.dom().contains(k) implies c.dom().contains(k)
            && a[k] == c[k] by {
            assert(b.dom().contains(k));
        }
    }
    if a.submap_of(b) && b.submap_of(a) {
        assert(a =~= b);
    }
}

/// Samples that pass a stricter filter pass a laxer one, and do not add up to more.
proof fn lemma_stricter(
    samples: Seq<SampleView>,
    lax: spec_fn(SampleView) -> bool,
    strict: spec_fn(SampleView) -> bool,
)
    requires
        forall|s: SampleView| #[trigger] strict(s) ==> lax(s),
    ensures
        samples.filter(strict) == samples.filter(lax).filter(strict),
        samples.filter(strict).len() <= samples.filter(lax).len(),
        sum(samples.filter(strict)) <= sum(samples.filter(lax)),
    decreases samples.len(),
{
    reveal(Seq::filter);
    if samples.len() > 0 {
        let init = samples.drop_last();
        let last = samples.last();
        lemma_stricter(init, lax, strict);
        if lax(last) {
            let l = init.filter(lax);
            assert(l.push(last).drop_last() =~= l);
            if strict(last) {
                let s = init.filter(strict);
                assert(s.push(last).drop_last() =~= s);
            }
        }
    }
}

/// Asking for more labels selects among the samples that fewer labels select, in the same
/// order, and the sum does not grow.
pub proof fn more_labels_select_fewer(
    page: PageView,
    metric: Seq<char>,
    fewer: Map<Seq<char>, Seq<char>>,
    more: Map<Seq<char>, Seq<char>>,
)
    requires
        fewer.submap_of(more),
    ensures
        page.queried(metric, more) is Some == page.queried(metric, fewer) is Some,
        page.queried(metric, more) matches Some(some) ==> some == page.queried(
            metric,
            fewer,
        )->0.filter(|s: SampleView| matches_query(s, metric, more)),
        page.query_sum(metric, more) <= page.query_sum(metric, fewer),
{
    let lax = |s: SampleView| matches_query(s, metric, fewer);
    let strict = |s: SampleView| matches_query(s, metric, more);
    assert forall|s: SampleView| #[trigger] strict(s) implies lax(s) by {
        superset_is_an_order(fewer, more, s.labels);
    }
    lemma_stricter(page.samples, lax, strict);
}

/// The sum over two pages, one after the other, is the sum of the two sums.
pub proof fn sums_add_up(a: Seq<SampleView>, b: Seq<SampleView>)
    ensures
        sum(a + b) == sum(a) + sum(b),
    decreases b.len(),
{
    if b.len() == 0 {
        assert(a + b =~= a);
    } else {
        sums_add_up(a, b.drop_last());
        assert((a + b).drop_last() =~= a + b.drop_last());
        assert((a + b).last() == b.last());
    }
}

/// A query gives only samples of the metric that have the labels, and gives all of them.
pub proof fn queries_are_exact(
    page: PageView,
    metric: Seq<char>,
    labels: Map<Seq<char>, Seq<char>>,
    s: SampleView,
)
    ensures
        page.queried(metric, labels) matches Some(found) ==> (found.contains(s) <==> (
        page.samples.contains(s) && s.metric == metric && labels.submap_of(s.labels))),
{
    let wanted = |s: SampleView| matches_query(s, metric, labels);
    let found = page.samples.filter(wanted);
    if found.contains(s) {
        page.samples.lemma_filter_contains_rev(wanted, s);
        let i = found.index_of(s);
        assert(wanted(found[i]));
    }
    if page.samples.contains(s) && wanted(s) {
        page.samples.lemma_filter_contains(wanted, page.samples.index_of(s));
    }
}

/// Where no sample that passes a filter is gathered from several lines, leaving those out
/// first changes nothing.
proof fn lemma_plain_suffice(samples: Seq<SampleView>, wanted: spec_fn(SampleView) -> bool)
    requires
        forall|i: int|
            0 <= i < samples.filter(wanted).len() ==> !is_gathered(
                #[trigger] samples.filter(wanted)[i],
            ),
    ensures
        plain_samples(samples).filter(wanted) == samples.filter(wanted),
    decreases samples.len(),
{
    reveal(Seq::filter);
    let plain = |s: SampleView| !is_gathered(s);
    if samples.len() > 0 {
        let init = samples.drop_last();
        let last = samples.last();
        let found = init.filter(wanted);
        assert forall|i: int| 0 <= i < found.len() implies !is_gathered(#[trigger] found[i]) by {
            assert(samples.filter(wanted)[i] == found[i]);
        }
        lemma_plain_suffice(init, wanted);
        if wanted(last) {
            assert(samples.filter(wanted)[found.len() as int] == last);
            assert(plain(last));
        }
        if plain(last) {
            let p = init.filter(plain);
            assert(p.push(last).drop_last() =~= p);
        }
    }
}

/// A sum does not depend on what is gathered from several lines: what can be added up stands
/// on one line each, and comes in the order of the lines.
pub proof fn sums_are_over_plain_samples(
    page: PageView,
    metric: Seq<char>,
    labels: Map<Seq<char>, Seq<char>>,
)
    requires
        page.can_sum(metric, labels),
    ensures
        (PageView { samples: plain_samples(page.samples), ..page }).queried(metric, labels)
            == page.queried(metric, labels),
        (PageView { samples: plain_samples(page.samples), ..page }).query_sum(metric, labels)
            == page.query_sum(metric, labels),
{
    if let Some(found) = page.queried(metric, labels) {
        let wanted = |s: SampleView| matches_query(s, metric, labels);
        assert forall|i: int|
            0 <= i < page.samples.filter(wanted).len() implies !is_gathered(
            #[trigger] page.samples.filter(wanted)[i],
        ) by {
            assert(is_number(found[i]));
        }
        lemma_plain_suffice(page.samples, wanted);
    }
}

/// A sample is asked for by its metric and by labels that it has with the same values.
pub proof fn what_matches(
    s: SampleView,
    metric: Seq<char>,
    labels: Map<Seq<char>, Seq<char>>,
)
    ensures
        matches_query(s, metric, labels) <==> s.metric == metric && forall|k: Seq<char>| #[trigger]
            labels.dom().contains(k) ==> s.labels.dom().contains(k) && s.labels[k] == labels[k],
{
}

/// Filters go through samples one after the other.
proof fn lemma_filter_push(
    samples: Seq<SampleView>,
    s: SampleView,
    wanted: spec_fn(SampleView) -> bool,
)
    ensures
        samples.push(s).filter(wanted) == if wanted(s) {
            samples.filter(wanted).push(s)
        } else {
            samples.filter(wanted)
        },
{
    reveal(Seq::filter);
    assert(samples.push(s).drop_last() =~= samples);
}

/// A query goes through the page sample by sample and takes each that it asks for, in order,
/// where the page describes the metric, without `_total` at the end of its name; elsewhere it
/// gives nothing.
pub proof fn queries_go_sample_by_sample(
    page: PageView,
    s: SampleView,
    metric: Seq<char>,
    labels: Map<Seq<char>, Seq<char>>,
)
    ensures
        ({
            let asked = s.metric == metric && labels.submap_of(s.labels);
            let longer = PageView { samples: page.samples.push(s), ..page };
            let empty = PageView { samples: Seq::empty(), ..page };
            let base = stripped(metric, "_total"@);
            &&& page.queried(metric, labels) is Some <==> page.docs.contains(base)
            &&& page.docs.contains(base) ==> empty.queried(metric, labels)->0.len() == 0
            &&& page.docs.contains(base) && asked ==> longer.queried(metric, labels)->0
                == page.queried(metric, labels)->0.push(s)
            &&& page.docs.contains(base) && !asked ==> longer.queried(metric, labels)->0
                == page.queried(metric, labels)->0
        }),
{
    let wanted = |s: SampleView| matches_query(s, metric, labels);
    lemma_filter_push(page.samples, s, wanted);
    reveal(Seq::filter);
}

/// Counters and samples without a type are added up as the numbers that they are; nothing
/// else can be.
pub proof fn what_adds_up(samples: Seq<SampleView>, s: SampleView)
    ensures
        sum(Seq::empty()) == 0,
        s.value matches SampleValue::Counter(n) ==> is_number(s) && number(s) == n,
        s.value matches SampleValue::Untyped(n) ==> is_number(s) && number(s) == n,
        is_number(s) <==> s.value is Counter || s.value is Untyped,
        sum(samples.push(s)) == sum(samples) + number(s),
        summable(samples) <==> (forall|i: int|
            0 <= i < samples.len() ==> (#[trigger] samples[i]).value is Counter
                || samples[i].value is Untyped) && sum(samples) < 0x1_0000_0000_0000_0000,
{
    assert(samples.push(s).drop_last() =~= samples);
    if summable(samples) {
        assert forall|i: int| 0 <= i < samples.len() implies (#[trigger] samples[i]).value is Counter
            || samples[i].value is Untyped by {
            assert(is_number(samples[i]));
        }
    }
}

/// The sum of a query is that of the samples that it gives, and zero where the page does not
/// describe the metric.
pub proof fn sums_are_of_what_is_queried(
    page: PageView,
    metric: Seq<char>,
    labels: Map<Seq<char>, Seq<char>>,
)
    ensures
        page.queried(metric, labels) matches Some(found) ==> page.query_sum(metric, labels) == sum(
            found,
        ) && page.can_sum(metric, labels) == summable(found),
        page.queried(metric, labels) is None ==> page.query_sum(metric, labels) == 0
            && page.can_sum(metric, labels),
{
}

/// Pairs make labels of their names and values; of two with one name the later counts.
pub proof fn later_pairs_count(pairs: Seq<(String, String)>, i: int)
    requires
        0 <= i < pairs.len(),
    ensures
        pair_map(pairs).contains_key(pairs[i].0@),
        (forall|j: int| i < j < pairs.len() ==> (#[trigger] pairs[j]).0@ != pairs[i].0@)
            ==> pair_map(pairs)[pairs[i].0@] == pairs[i].1@,
    decreases pairs.len(),
{
    if i < pairs.len() - 1 {
        later_pairs_count(pairs.drop_last(), i);
        assert(pairs.drop_last()[i] == pairs[i]);
        if forall|j: int| i < j < pairs.len() ==> (#[trigger] pairs[j]).0@ != pairs[i].0@ {
            assert forall|j: int| i < j < pairs.drop_last().len() implies (
            #[trigger] pairs.drop_last()[j]).0@ != pairs.drop_last()[i].0@ by {
                assert(pairs[j].0@ != pairs[i].0@);
            }
            assert(pairs[pairs.len() - 1].0@ != pairs[i].0@);
        }
    }
}

/// Pairs make no labels but those that they name.
pub proof fn labels_come_from_pairs(pairs: Seq<(String, String)>, name: Seq<char>)
    requires
        pair_map(pairs).contains_key(name),
    ensures
        exists|i: int| 0 <= i < pairs.len() && (#[trigger] pairs[i]).0@ == name,
    decreases pairs.len(),
{
    if pairs.last().0@ == name {
        assert(pairs[pairs.len() - 1].0@ == name);
    } else {
        labels_come_from_pairs(pairs.drop_last(), name);
        let i = choose|i: int|
            0 <= i < pairs.drop_last().len() && (#[trigger] pairs.drop_last()[i]).0@ == name;
        assert(pairs[i].0@ == name);
    }
}

/// Samples and pages say what their fields hold.
pub proof fn samples_say_what_they_hold(
    s: Sample,
    raw: RawSample,
    page: ParsedMetrics,
    doc: Seq<char>,
    i: int,
)
    requires
        0 <= i < page.samples@.len(),
    ensures
        s@.metric == s.metric@,
        s@.value == s.value,
        s@.labels.dom() == s.labels@.dom(),
        forall|k: Seq<char>|
            s.labels@.contains_key(k) ==> #[trigger] s@.labels[k] == s.labels@[k]@,
        raw@.metric == raw.metric@,
        raw@.value == raw.value,
        raw@.labels == pair_map(raw.labels@),
        page@.samples.len() == page.samples@.len(),
        page@.samples[i] == page.samples@[i]@,
        page@.docs.contains(doc) <==> exists|j: int|
            0 <= j < page.docs@.len() && (#[trigger] page.docs@[j])@ == doc,
{
    assert(s@.labels.dom() =~= s.labels@.dom());
    let docs = views(page.docs@);
    if page@.docs.contains(doc) {
        let j = docs.index_of(doc);
        assert(page.docs@[j]@ == doc);
    }
    if exists|j: int| 0 <= j < page.docs@.len() && (#[trigger] page.docs@[j])@ == doc {
        let j = choose|j: int| 0 <= j < page.docs@.len() && (#[trigger] page.docs@[j])@ == doc;
        assert(docs[j] == doc);
        assert(docs.contains(doc));
    }
}

/// Samples of several lines are the histograms and the summaries; those of one line keep
/// their order, and each sample is of one kind or the other.
pub proof fn samples_are_of_two_kinds(samples: Seq<SampleView>, s: SampleView)
    ensures
        is_gathered(s) <==> s.value is Histogram || s.value is Summary,
        plain_samples(Seq::empty()).len() == 0,
        is_gathered(s) ==> plain_samples(samples.push(s)) == plain_samples(samples),
        !is_gathered(s) ==> plain_samples(samples.push(s)) == plain_samples(samples).push(s),
{
    lemma_filter_push(samples, s, |s: SampleView| !is_gathered(s));
    reveal(Seq::filter);
}

} // verus!
