//! Counters by label, as they are exported.

use prometheus_client::metrics::counter::Counter;
use prometheus_client::metrics::family::Family;
use prometheus_client::registry::Registry;

use vstd::prelude::*;

use crate::proxy::label_value::{LabelValueView, ShownLabel};

verus! {

/// Labels as names and values, in the order in which they are exported.
pub type LabelSet = Vec<(String, ShownLabel)>;

/// What a [`LabelSet`] says.
pub type LabelSetView = Seq<(Seq<char>, LabelValueView)>;

/// What the labels in a vector say.
pub open spec fn label_views(labels: Seq<(String, ShownLabel)>) -> LabelSetView {
    labels.map_values(|l: (String, ShownLabel)| (l.0@, l.1@))
}

/// The registry that metrics are exported from.
#[verifier::external_type_specification]
#[verifier::external_body]
pub struct ExRegistry(Registry);

/// A metric that a registry lists: its name, its help text, and which family it shows.
pub type MetricView = (Seq<char>, Seq<char>, nat);

/// The metrics that were registered, oldest first.
pub uninterp spec fn registered(registry: Registry) -> Seq<MetricView>;

/// A family of counters, one per set of labels.
#[verifier::external_body]
pub struct CounterFamily {
    inner: Family<LabelSet, Counter>,
}

/// The counters of a family by their labels.
pub uninterp spec fn family_counts(family: CounterFamily) -> Map<LabelSetView, u64>;

/// Which family this is. All handles on one family stand for the same counters, so whatever
/// is counted through one shows through the others.
pub uninterp spec fn family_identity(family: CounterFamily) -> nat;

impl View for CounterFamily {
    type V = Map<LabelSetView, u64>;

    open spec fn view(&self) -> Map<LabelSetView, u64> {
        family_counts(*self)
    }
}

/// The count for `labels`; a counter that does not exist yet stands at zero.
pub open spec fn count_of(counts: Map<LabelSetView, u64>, labels: LabelSetView) -> u64 {
    if counts.contains_key(labels) {
        counts[labels]
    } else {
        0
    }
}

/// The counts after the one for `labels` grew by `v`. A counter wraps around at the end of
/// its range.
pub open spec fn counted(
    counts: Map<LabelSetView, u64>,
    labels: LabelSetView,
    v: u64,
) -> Map<LabelSetView, u64> {
    counts.insert(labels, count_of(counts, labels).wrapping_add(v))
}

impl CounterFamily {
    /// A family without counters, by `Family::default`.
    ///
    /// Claimed of it: it holds no counter.
    #[verifier::external_body]
    pub(crate) fn new() -> (f: CounterFamily)
        ensures
            family_counts(f).dom() == Set::<LabelSetView>::empty(),
    {
        CounterFamily { inner: Family::default() }
    }

    /// Counts `v` for `labels`, by `Family::get_or_create` and `Counter::inc_by`.
    ///
    /// Claimed of them: labels are told apart by their names and by what their values are, as
    /// `==` on [`ShownLabel`] does, with which its derived `Hash` agrees; the counter for the
    /// labels is created at zero where there is none; it grows by `v`, wrapping around; no
    /// other counter changes; and it is still the same family.
    #[verifier::external_body]
    pub(crate) fn inc_by(&mut self, labels: &LabelSet, v: u64)
        ensures
            family_counts(*final(self)) == counted(
                family_counts(*old(self)),
                label_views(labels@),
                v,
            ),
            family_identity(*final(self)) == family_identity(*old(self)),
    {
        self.inner.get_or_create(labels).inc_by(v);
    }

    /// Has the family exported from `registry` under `name`, by `Registry::register`.
    ///
    /// Claimed of it: the registry lists the name last, with the help text and a full stop
    /// added to it, as a metric that shows this very family, of which it is given another
    /// handle; and it keeps all that it listed.
    #[verifier::external_body]
    pub(crate) fn register(&self, registry: &mut Registry, name: &str, help: &str)
        ensures
            registered(*final(registry)) == registered(*old(registry)).push(
                (name@, help@ + "."@, family_identity(*self)),
            ),
    {
        registry.register(name, help, self.inner.clone());
    }
}

} // verus!
