//! What registering, counting and observing do to the values that a
//! registry reports, and what they leave alone.

use crate::metrics::{
    saturating_succ, saturating_sum, CounterView, HistogramView, LabelSet, MetricView,
    RegistryView,
};
use crate::text::lemma_first_index;
use vstd::prelude::*;

verus! {

/// Counting under one label set adds one to its count, held at `u64::MAX`,
/// and leaves every other count as it was.
pub proof fn lemma_counter_increment(c: CounterView, labels: LabelSet, other: LabelSet)
    ensures
        c.increment(labels).value(other) == (if other == labels {
            saturating_succ(c.value(labels))
        } else {
            c.value(other)
        }),
        c.increment(labels).cells.len() >= c.cells.len(),
{
    let after = c.increment(labels);
    c.keys().index_of_first_ensures(labels);
    c.keys().index_of_first_ensures(other);
    match c.keys().index_of_first(labels) {
        Some(i) => {
            assert(after.keys() =~= c.keys());
        },
        None => {
            assert(after.keys() =~= c.keys().push(labels));
            if other == labels {
                lemma_first_index(after.keys(), other, c.keys().len() as int);
            } else {
                match c.keys().index_of_first(other) {
                    Some(j) => {
                        lemma_first_index(after.keys(), other, j);
                    },
                    None => {
                        assert forall|j: int| 0 <= j < after.keys().len() implies after.keys()[j]
                            != other by {
                            if j < c.keys().len() {
                                assert(c.keys()[j] == after.keys()[j]);
                                assert(!c.keys().contains(other));
                            }
                        }
                        lemma_first_index(after.keys(), other, after.keys().len() as int);
                    },
                }
            }
        },
    }
}

/// A counter in which no label set has two cells stays so when it counts.
pub proof fn lemma_counter_increment_distinct(c: CounterView, labels: LabelSet)
    requires
        c.distinct(),
    ensures
        c.increment(labels).distinct(),
{
    let after = c.increment(labels);
    c.keys().index_of_first_ensures(labels);
    match c.keys().index_of_first(labels) {
        Some(i) => {
            assert(after.keys() =~= c.keys());
        },
        None => {
            assert(after.keys() =~= c.keys().push(labels));
            assert forall|i: int, j: int|
                0 <= i < after.keys().len() && 0 <= j < after.keys().len() && i
                    != j implies after.keys()[i] != after.keys()[j] by {
                if i < c.keys().len() && j < c.keys().len() {
                    assert(c.keys()[i] != c.keys()[j]);
                } else if i < c.keys().len() {
                    assert(c.keys().contains(c.keys()[i]));
                } else {
                    assert(c.keys().contains(c.keys()[j]));
                }
            }
        },
    }
}

/// Registering gives a free name its metric and changes nothing under any
/// name that is taken.
pub proof fn lemma_register(
    r: RegistryView,
    name: Seq<char>,
    help: Seq<char>,
    metric: MetricView,
    other: Seq<char>,
)
    ensures
        r.register(name, help, metric).metric(other) == (if other == name && r.metric(name)
            is None {
            Some(metric)
        } else {
            r.metric(other)
        }),
{
    let after = r.register(name, help, metric);
    r.names().index_of_first_ensures(name);
    r.names().index_of_first_ensures(other);
    if r.names().contains(name) {
    } else {
        assert(after.names() =~= r.names().push(name));
        if other == name {
            lemma_first_index(after.names(), other, r.names().len() as int);
        } else {
            match r.names().index_of_first(other) {
                Some(j) => {
                    lemma_first_index(after.names(), other, j);
                },
                None => {
                    assert forall|j: int| 0 <= j < after.names().len() implies after.names()[j]
                        != other by {
                        if j < r.names().len() {
                            assert(r.names()[j] == after.names()[j]);
                            assert(!r.names().contains(other));
                        }
                    }
                    lemma_first_index(after.names(), other, after.names().len() as int);
                },
            }
        }
    }
}

/// A registry in which no name is registered twice stays so when it
/// registers.
pub proof fn lemma_register_distinct(
    r: RegistryView,
    name: Seq<char>,
    help: Seq<char>,
    metric: MetricView,
)
    requires
        r.distinct(),
    ensures
        r.register(name, help, metric).distinct(),
{
    let after = r.register(name, help, metric);
    if r.names().contains(name) {
    } else {
        assert(after.names() =~= r.names().push(name));
        assert forall|i: int, j: int|
            0 <= i < after.names().len() && 0 <= j < after.names().len() && i
                != j implies after.names()[i] != after.names()[j] by {
            if i < r.names().len() && j < r.names().len() {
                assert(r.names()[i] != r.names()[j]);
            } else if i < r.names().len() {
                assert(r.names().contains(r.names()[i]));
            } else {
                assert(r.names().contains(r.names()[j]));
            }
        }
    }
}

/// Counting in the counter `name` counts there and nowhere else; where
/// `name` is not a counter nothing changes. The names stay as they are.
pub proof fn lemma_increment(r: RegistryView, name: Seq<char>, labels: LabelSet, other: Seq<char>)
    ensures
        r.increment(name, labels).names() == r.names(),
        r.increment(name, labels).metric(other) == (match r.metric(other) {
            Some(MetricView::Counter(c)) if other == name => Some(
                MetricView::Counter(c.increment(labels)),
            ),
            m => m,
        }),
{
    let after = r.increment(name, labels);
    r.names().index_of_first_ensures(name);
    r.names().index_of_first_ensures(other);
    assert(after.names() =~= r.names());
}

/// Observing in the histogram `name` observes there and nowhere else; where
/// `name` is not a histogram nothing changes. The names stay as they are.
pub proof fn lemma_observe(r: RegistryView, name: Seq<char>, value: u64, other: Seq<char>)
    ensures
        r.observe(name, value).names() == r.names(),
        r.observe(name, value).metric(other) == (match r.metric(other) {
            Some(MetricView::Histogram(h)) if other == name => Some(
                MetricView::Histogram(h.observe(value)),
            ),
            m => m,
        }),
{
    let after = r.observe(name, value);
    r.names().index_of_first_ensures(name);
    r.names().index_of_first_ensures(other);
    assert(after.names() =~= r.names());
}

/// Nothing registered is ever removed or renamed: counting and observing
/// keep the names as they are, and registering keeps them and may add one
/// at the end.
pub proof fn lemma_names_are_stable(
    r: RegistryView,
    name: Seq<char>,
    help: Seq<char>,
    metric: MetricView,
    labels: LabelSet,
    value: u64,
)
    ensures
        r.increment(name, labels).names() == r.names(),
        r.observe(name, value).names() == r.names(),
        r.names().is_prefix_of(r.register(name, help, metric).names()),
{
    r.names().index_of_first_ensures(name);
    assert(r.increment(name, labels).names() =~= r.names());
    assert(r.observe(name, value).names() =~= r.names());
    let after = r.register(name, help, metric);
    if !r.names().contains(name) {
        assert(after.names() =~= r.names().push(name));
    }
    assert(r.names() =~= after.names().subrange(0, r.names().len() as int));
}

/// A counter never decreases and never loses a label set: counting keeps
/// every label set where it is, may add one at the end, and lowers no
/// count.
pub proof fn lemma_counter_is_monotone(c: CounterView, labels: LabelSet, other: LabelSet)
    ensures
        c.keys().is_prefix_of(c.increment(labels).keys()),
        c.increment(labels).value(other) >= c.value(other),
{
    lemma_counter_increment(c, labels, other);
    let after = c.increment(labels);
    c.keys().index_of_first_ensures(labels);
    match c.keys().index_of_first(labels) {
        Some(i) => {
            assert(after.keys() =~= c.keys());
        },
        None => {
            assert(after.keys() =~= c.keys().push(labels));
        },
    }
    assert(c.keys() =~= after.keys().subrange(0, c.keys().len() as int));
}

/// A histogram is never reset: an observation lowers neither the count nor
/// the sum nor any bucket.
pub proof fn lemma_histogram_is_monotone(h: HistogramView, value: u64)
    ensures
        h.observe(value).count >= h.count,
        h.observe(value).sum >= h.sum,
        h.observe(value).buckets.len() == h.buckets.len(),
        forall|i: int|
            0 <= i < h.buckets.len() ==> (#[trigger] h.observe(value).buckets[i]).1
                >= h.buckets[i].1,
{
}

/// `n`, held at `u64::MAX`.
pub open spec fn held(n: int) -> u64 {
    if n <= 0 {
        0
    } else if n <= u64::MAX {
        n as u64
    } else {
        u64::MAX
    }
}

/// The histogram after each of `values` has been observed in turn.
pub open spec fn observe_all(h: HistogramView, values: Seq<u64>) -> HistogramView
    decreases values.len(),
{
    if values.len() == 0 {
        h
    } else {
        observe_all(h, values.drop_last()).observe(values.last())
    }
}

/// How many of `values` are at most `upper`.
pub open spec fn at_most(values: Seq<u64>, upper: u64) -> nat
    decreases values.len(),
{
    if values.len() == 0 {
        0
    } else {
        at_most(values.drop_last(), upper) + (if values.last() <= upper {
            1nat
        } else {
            0nat
        })
    }
}

/// The sum of `values`.
pub open spec fn total(values: Seq<u64>) -> nat
    decreases values.len(),
{
    if values.len() == 0 {
        0
    } else {
        total(values.drop_last()) + values.last() as nat
    }
}

/// What a fresh histogram shows after any run of observations: the count
/// is their number, the sum is their sum, and each bucket holds the number
/// of observations at or below its bound, each held at `u64::MAX`. The
/// bounds are the ones it was made with.
pub proof fn lemma_histogram_totals(uppers: Seq<u64>, values: Seq<u64>)
    ensures
        ({
            let h = observe_all(HistogramView::fresh(uppers), values);
            &&& h.count == held(values.len() as int)
            &&& h.sum == held(total(values) as int)
            &&& h.buckets.len() == uppers.len()
            &&& forall|i: int|
                0 <= i < uppers.len() ==> (#[trigger] h.buckets[i]) == (
                    uppers[i],
                    held(at_most(values, uppers[i]) as int),
                )
        }),
    decreases values.len(),
{
    if values.len() > 0 {
        lemma_histogram_totals(uppers, values.drop_last());
    }
}

} // verus!
