//! Counters and histograms, and the registry that owns them by name.
//!
//! Every value here is an unsigned integer: a duration is a number of
//! microseconds, a size a number of bytes. Counts and sums saturate at
//! `u64::MAX` instead of wrapping, so a counter never decreases.

use crate::registry_laws::{lemma_counter_increment_distinct, lemma_register_distinct};
use crate::text::{lemma_first_index, str_eq};
use vstd::prelude::*;

verus! {

/// A label set as contracts see it: pairs of name and value, in order.
pub type LabelSet = Seq<(Seq<char>, Seq<char>)>;

/// `n + 1`, held at `u64::MAX`.
pub open spec fn saturating_succ(n: u64) -> u64 {
    if n < u64::MAX {
        (n + 1) as u64
    } else {
        u64::MAX
    }
}

/// `a + b`, held at `u64::MAX`.
pub open spec fn saturating_sum(a: u64, b: u64) -> u64 {
    if a + b <= u64::MAX {
        (a + b) as u64
    } else {
        u64::MAX
    }
}

/// One `name="value"` pair of a label set.
#[derive(Debug)]
pub struct Label {
    pub name: String,
    pub value: String,
}

impl View for Label {
    type V = (Seq<char>, Seq<char>);

    open spec fn view(&self) -> (Seq<char>, Seq<char>) {
        (self.name@, self.value@)
    }
}

impl DeepView for Label {
    type V = (Seq<char>, Seq<char>);

    open spec fn deep_view(&self) -> (Seq<char>, Seq<char>) {
        self@
    }
}

impl Label {
    pub fn new(name: &str, value: &str) -> (label: Label)
        ensures
            label@ == (name@, value@),
    {
        Label { name: String::from_str(name), value: String::from_str(value) }
    }
}

/// A label set of one pair.
pub fn single_label(name: &str, value: &str) -> (labels: Vec<Label>)
    ensures
        labels.deep_view() == seq![(name@, value@)],
{
    let mut labels: Vec<Label> = Vec::new();
    labels.push(Label::new(name, value));
    assert(labels.deep_view() =~= seq![(name@, value@)]);
    labels
}

/// A copy of a label set.
pub fn clone_labels(labels: &Vec<Label>) -> (copy: Vec<Label>)
    ensures
        copy.deep_view() == labels.deep_view(),
{
    let mut copy: Vec<Label> = Vec::new();
    let mut i: usize = 0;
    while i < labels.len()
        invariant
            i <= labels.len(),
            copy@.len() == i,
            forall|j: int| 0 <= j < i ==> (#[trigger] copy@[j])@ == labels@[j]@,
        decreases labels.len() - i,
    {
        copy.push(Label { name: labels[i].name.clone(), value: labels[i].value.clone() });
        i = i + 1;
    }
    assert(copy.deep_view() =~= labels.deep_view());
    copy
}

/// Whether two label sets hold the same pairs in the same order.
pub fn same_labels(a: &Vec<Label>, b: &Vec<Label>) -> (same: bool)
    ensures
        same == (a.deep_view() == b.deep_view()),
{
    if a.len() != b.len() {
        assert(a.deep_view().len() != b.deep_view().len());
        return false;
    }
    let mut i: usize = 0;
    while i < a.len()
        invariant
            a.len() == b.len(),
            i <= a.len(),
            forall|j: int| 0 <= j < i ==> a.deep_view()[j] == b.deep_view()[j],
        decreases a.len() - i,
    {
        if !(a[i].name == b[i].name && a[i].value == b[i].value) {
            assert(a.deep_view()[i as int] != b.deep_view()[i as int]);
            return false;
        }
        i = i + 1;
    }
    assert(a.deep_view() =~= b.deep_view());
    true
}

/// What a counter holds: one cell per label set seen so far, oldest first.
pub ghost struct CounterView {
    pub cells: Seq<(LabelSet, u64)>,
}

impl CounterView {
    /// The label sets of the cells, in the cells' order.
    pub open spec fn keys(self) -> Seq<LabelSet> {
        self.cells.map_values(|c: (LabelSet, u64)| c.0)
    }

    /// The count under `labels`: 0 for a label set never seen.
    pub open spec fn value(self, labels: LabelSet) -> u64 {
        match self.keys().index_of_first(labels) {
            Some(i) => self.cells[i].1,
            None => 0,
        }
    }

    /// The counter after one more observation of `labels`: its cell counts
    /// one more, and a label set not seen before gets a new last cell.
    pub open spec fn increment(self, labels: LabelSet) -> CounterView {
        match self.keys().index_of_first(labels) {
            Some(i) => CounterView {
                cells: self.cells.update(i, (labels, saturating_succ(self.cells[i].1))),
            },
            None => CounterView { cells: self.cells.push((labels, 1u64)) },
        }
    }

    /// No label set has two cells.
    pub open spec fn distinct(self) -> bool {
        self.keys().no_duplicates()
    }
}

/// One cell of a counter: a label set and its count.
#[derive(Debug)]
pub struct CounterCell {
    pub labels: Vec<Label>,
    pub value: u64,
}

/// A family of monotone counts, one per label set, created on first use.
pub struct MetricCounter {
    cells: Vec<CounterCell>,
}

impl View for MetricCounter {
    type V = CounterView;

    closed spec fn view(&self) -> CounterView {
        CounterView {
            cells: Seq::new(
                self.cells@.len(),
                |i: int| (self.cells@[i].labels.deep_view(), self.cells@[i].value),
            ),
        }
    }
}

impl MetricCounter {
    /// A counter without cells.
    pub fn new() -> (counter: MetricCounter)
        ensures
            counter@.cells == Seq::<(LabelSet, u64)>::empty(),
            counter@.distinct(),
    {
        let counter = MetricCounter { cells: Vec::new() };
        assert(counter@.cells =~= Seq::<(LabelSet, u64)>::empty());
        counter
    }

    fn find(&self, labels: &Vec<Label>) -> (at: usize)
        ensures
            self@.keys().index_of_first(labels.deep_view()) == (if at < self@.cells.len() {
                Some(at as int)
            } else {
                None::<int>
            }),
            at <= self.cells@.len(),
            self.cells@.len() == self@.cells.len(),
            at < self.cells@.len() ==> self.cells@[at as int].labels.deep_view()
                == labels.deep_view(),
    {
        let mut i: usize = 0;
        while i < self.cells.len()
            invariant
                i <= self.cells@.len(),
                forall|j: int| 0 <= j < i ==> self@.keys()[j] != labels.deep_view(),
            decreases self.cells.len() - i,
        {
            if same_labels(&self.cells[i].labels, labels) {
                proof {
                    lemma_first_index(self@.keys(), labels.deep_view(), i as int);
                }
                return i;
            }
            i = i + 1;
        }
        proof {
            lemma_first_index(self@.keys(), labels.deep_view(), i as int);
        }
        i
    }

    /// Counts one more under `labels`.
    pub fn increment(&mut self, labels: Vec<Label>)
        ensures
            final(self)@ == old(self)@.increment(labels.deep_view()),
            old(self)@.distinct() ==> final(self)@.distinct(),
    {
        proof {
            if old(self)@.distinct() {
                lemma_counter_increment_distinct(old(self)@, labels.deep_view());
            }
        }
        let at: usize = self.find(&labels);
        if at < self.cells.len() {
            let v: u64 = self.cells[at].value;
            self.cells[at].value = if v < u64::MAX {
                v + 1
            } else {
                v
            };
            assert(final(self)@.cells =~= old(self)@.increment(labels.deep_view()).cells);
        } else {
            self.cells.push(CounterCell { labels, value: 1 });
            assert(final(self)@.cells =~= old(self)@.increment(labels.deep_view()).cells);
        }
    }

    /// The count under `labels`.
    pub fn get(&self, labels: &Vec<Label>) -> (value: u64)
        ensures
            value == self@.value(labels.deep_view()),
    {
        let at: usize = self.find(labels);
        if at < self.cells.len() {
            self.cells[at].value
        } else {
            0
        }
    }

    /// The number of label sets seen so far.
    pub fn len(&self) -> (n: usize)
        ensures
            n == self@.cells.len(),
    {
        self.cells.len()
    }

    /// The cell at `i`, counting from the oldest.
    pub fn cell(&self, i: usize) -> (cell: &CounterCell)
        requires
            i < self@.cells.len(),
        ensures
            cell.labels.deep_view() == self@.cells[i as int].0,
            cell.value == self@.cells[i as int].1,
    {
        &self.cells[i]
    }

    /// A copy of the counter as it stands.
    pub fn snapshot(&self) -> (copy: MetricCounter)
        ensures
            copy@ == self@,
    {
        let copy = MetricCounter { cells: self.cells() };
        assert(copy@.cells =~= self@.cells);
        copy
    }

    /// A copy of the cells, oldest first.
    pub fn cells(&self) -> (copy: Vec<CounterCell>)
        ensures
            copy@.len() == self@.cells.len(),
            forall|i: int|
                0 <= i < copy@.len() ==> (#[trigger] copy@[i]).labels.deep_view()
                    == self@.cells[i].0 && copy@[i].value == self@.cells[i].1,
    {
        let mut copy: Vec<CounterCell> = Vec::new();
        let mut i: usize = 0;
        while i < self.cells.len()
            invariant
                i <= self.cells@.len(),
                copy@.len() == i,
                forall|j: int|
                    0 <= j < i ==> (#[trigger] copy@[j]).labels.deep_view() == self@.cells[j].0
                        && copy@[j].value == self@.cells[j].1,
            decreases self.cells.len() - i,
        {
            copy.push(
                CounterCell {
                    labels: clone_labels(&self.cells[i].labels),
                    value: self.cells[i].value,
                },
            );
            i = i + 1;
        }
        copy
    }
}

/// Whether each bound is below the next.
pub open spec fn strictly_increasing(uppers: Seq<u64>) -> bool {
    forall|i: int, j: int| 0 <= i < j < uppers.len() ==> uppers[i] < uppers[j]
}

/// What a histogram holds: for each upper bound, in the order given at
/// construction, how many observations were at or below it; their sum; and
/// how many there were.
pub ghost struct HistogramView {
    pub buckets: Seq<(u64, u64)>,
    pub sum: u64,
    pub count: u64,
}

impl HistogramView {
    /// The upper bounds, in their order.
    pub open spec fn uppers(self) -> Seq<u64> {
        self.buckets.map_values(|b: (u64, u64)| b.0)
    }

    /// A histogram over `uppers` that has seen nothing.
    pub open spec fn fresh(uppers: Seq<u64>) -> HistogramView {
        HistogramView { buckets: uppers.map_values(|u: u64| (u, 0u64)), sum: 0, count: 0 }
    }

    /// The histogram after one more observation `value`: every bucket whose
    /// bound is at least `value` counts one more, and so does the total.
    pub open spec fn observe(self, value: u64) -> HistogramView {
        HistogramView {
            buckets: self.buckets.map_values(
                |b: (u64, u64)|
                    if value <= b.0 {
                        (b.0, saturating_succ(b.1))
                    } else {
                        b
                    },
            ),
            sum: saturating_sum(self.sum, value),
            count: saturating_succ(self.count),
        }
    }

    /// The bounds increase, the cumulative counts do not decrease along
    /// them, and none exceeds the total.
    pub open spec fn wf(self) -> bool {
        &&& strictly_increasing(self.uppers())
        &&& forall|i: int, j: int|
            0 <= i <= j < self.buckets.len() ==> self.buckets[i].1 <= self.buckets[j].1
        &&& forall|i: int| 0 <= i < self.buckets.len() ==> self.buckets[i].1 <= self.count
    }
}

/// A fresh histogram over increasing bounds is well formed.
pub proof fn lemma_fresh_wf(uppers: Seq<u64>)
    requires
        strictly_increasing(uppers),
    ensures
        HistogramView::fresh(uppers).wf(),
        HistogramView::fresh(uppers).uppers() == uppers,
{
    assert(HistogramView::fresh(uppers).uppers() =~= uppers);
}

/// An observation keeps a histogram well formed and its bounds in place.
pub proof fn lemma_observe_wf(h: HistogramView, value: u64)
    requires
        h.wf(),
    ensures
        h.observe(value).wf(),
        h.observe(value).uppers() == h.uppers(),
{
    let after = h.observe(value);
    assert(after.uppers() =~= h.uppers());
    assert forall|i: int, j: int| 0 <= i <= j < after.buckets.len() implies after.buckets[i].1
        <= after.buckets[j].1 by {
        assert(h.buckets[i].1 <= h.buckets[j].1);
        if i < j {
            assert(h.uppers()[i] < h.uppers()[j]);
        }
    }
    assert forall|i: int| 0 <= i < after.buckets.len() implies after.buckets[i].1
        <= after.count by {
        assert(h.buckets[i].1 <= h.count);
    }
}

/// One bucket of a histogram: its upper bound and the number of
/// observations at or below it.
#[derive(Clone, Copy, Debug)]
pub struct Bucket {
    pub upper: u64,
    pub cumulative: u64,
}

/// A distribution of observed durations or sizes over fixed buckets.
pub struct MetricHistogram {
    buckets: Vec<Bucket>,
    sum: u64,
    count: u64,
}

impl View for MetricHistogram {
    type V = HistogramView;

    closed spec fn view(&self) -> HistogramView {
        HistogramView {
            buckets: Seq::new(
                self.buckets@.len(),
                |i: int| (self.buckets@[i].upper, self.buckets@[i].cumulative),
            ),
            sum: self.sum,
            count: self.count,
        }
    }
}

/// The default schedule for durations in microseconds: from 5 ms to 10 s.
pub open spec fn default_uppers() -> Seq<u64> {
    seq![
        5_000u64,
        10_000u64,
        25_000u64,
        50_000u64,
        100_000u64,
        250_000u64,
        500_000u64,
        1_000_000u64,
        2_500_000u64,
        5_000_000u64,
        10_000_000u64,
    ]
}

/// The default schedule for sizes in bytes: powers of four from 64 B to
/// 16 MiB.
pub open spec fn size_uppers() -> Seq<u64> {
    seq![
        64u64,
        256u64,
        1_024u64,
        4_096u64,
        16_384u64,
        65_536u64,
        262_144u64,
        1_048_576u64,
        4_194_304u64,
        16_777_216u64,
    ]
}

/// The bounds of `default_uppers`.
pub fn default_buckets() -> (uppers: Vec<u64>)
    ensures
        uppers@ == default_uppers(),
        strictly_increasing(uppers@),
{
    let uppers: Vec<u64> = vec![
        5_000u64,
        10_000u64,
        25_000u64,
        50_000u64,
        100_000u64,
        250_000u64,
        500_000u64,
        1_000_000u64,
        2_500_000u64,
        5_000_000u64,
        10_000_000u64,
    ];
    assert(uppers@ =~= default_uppers());
    uppers
}

/// The bounds of `size_uppers`.
pub fn size_buckets() -> (uppers: Vec<u64>)
    ensures
        uppers@ == size_uppers(),
        strictly_increasing(uppers@),
{
    let uppers: Vec<u64> = vec![
        64u64,
        256u64,
        1_024u64,
        4_096u64,
        16_384u64,
        65_536u64,
        262_144u64,
        1_048_576u64,
        4_194_304u64,
        16_777_216u64,
    ];
    assert(uppers@ =~= size_uppers());
    uppers
}

impl MetricHistogram {
    /// A histogram over the default schedule that has seen nothing.
    pub fn new() -> (histogram: MetricHistogram)
        ensures
            histogram@ == HistogramView::fresh(default_uppers()),
            histogram@.wf(),
    {
        MetricHistogram::with_buckets(default_buckets()).unwrap()
    }

    /// A histogram over `uppers` that has seen nothing. The bounds are fixed
    /// from here on; a schedule that does not increase is refused.
    pub fn with_buckets(uppers: Vec<u64>) -> (made: Option<MetricHistogram>)
        ensures
            made is Some <==> strictly_increasing(uppers@),
            made matches Some(h) ==> h@ == HistogramView::fresh(uppers@) && h@.wf(),
    {
        proof {
            if strictly_increasing(uppers@) {
                lemma_fresh_wf(uppers@);
            }
        }
        let mut buckets: Vec<Bucket> = Vec::new();
        let mut i: usize = 0;
        while i < uppers.len()
            invariant
                i <= uppers.len(),
                buckets@.len() == i,
                forall|j: int|
                    0 <= j < i ==> (#[trigger] buckets@[j]).upper == uppers@[j]
                        && buckets@[j].cumulative == 0,
                forall|j: int, k: int| 0 <= j < k < i ==> uppers@[j] < uppers@[k],
            decreases uppers.len() - i,
        {
            if i > 0 && uppers[i - 1] >= uppers[i] {
                return None;
            }
            buckets.push(Bucket { upper: uppers[i], cumulative: 0 });
            i = i + 1;
        }
        let histogram = MetricHistogram { buckets, sum: 0, count: 0 };
        assert(histogram@.buckets =~= HistogramView::fresh(uppers@).buckets);
        Some(histogram)
    }

    /// Records one observation.
    pub fn observe(&mut self, value: u64)
        ensures
            final(self)@ == old(self)@.observe(value),
            old(self)@.wf() ==> final(self)@.wf(),
    {
        proof {
            if old(self)@.wf() {
                lemma_observe_wf(old(self)@, value);
            }
        }
        let mut i: usize = 0;
        while i < self.buckets.len()
            invariant
                i <= self.buckets@.len(),
                self.buckets@.len() == old(self).buckets@.len(),
                self.sum == old(self).sum,
                self.count == old(self).count,
                forall|j: int|
                    0 <= j < i ==> (#[trigger] self.buckets@[j]).upper == old(self).buckets@[j].upper && self.buckets@[j].cumulative == (if value <= old(self).buckets@[j].upper {
                        saturating_succ(old(self).buckets@[j].cumulative)
                    } else {
                        old(self).buckets@[j].cumulative
                    }),
                forall|j: int|
                    i <= j < self.buckets@.len() ==> (#[trigger] self.buckets@[j]) == old(self).buckets@[j],
            decreases self.buckets.len() - i,
        {
            if value <= self.buckets[i].upper {
                let c: u64 = self.buckets[i].cumulative;
                if c < u64::MAX {
                    self.buckets[i].cumulative = c + 1;
                }
            }
            i = i + 1;
        }
        self.sum = if self.sum <= u64::MAX - value {
            self.sum + value
        } else {
            u64::MAX
        };
        if self.count < u64::MAX {
            self.count = self.count + 1;
        }
        assert(final(self)@.buckets =~= old(self)@.observe(value).buckets);
    }

    /// The number of observations.
    pub fn count(&self) -> (n: u64)
        ensures
            n == self@.count,
    {
        self.count
    }

    /// The sum of the observations.
    pub fn sum(&self) -> (total: u64)
        ensures
            total == self@.sum,
    {
        self.sum
    }

    /// The number of buckets.
    pub fn len(&self) -> (n: usize)
        ensures
            n == self@.buckets.len(),
    {
        self.buckets.len()
    }

    /// The bucket at `i`, in the order of the bounds.
    pub fn bucket(&self, i: usize) -> (bucket: Bucket)
        requires
            i < self@.buckets.len(),
        ensures
            bucket.upper == self@.buckets[i as int].0,
            bucket.cumulative == self@.buckets[i as int].1,
    {
        self.buckets[i]
    }

    /// A copy of the histogram as it stands.
    pub fn snapshot(&self) -> (copy: MetricHistogram)
        ensures
            copy@ == self@,
    {
        let copy = MetricHistogram { buckets: self.buckets(), sum: self.sum, count: self.count };
        assert(copy@.buckets =~= self@.buckets);
        copy
    }

    /// A copy of the buckets, in the order of their bounds.
    pub fn buckets(&self) -> (copy: Vec<Bucket>)
        ensures
            copy@.len() == self@.buckets.len(),
            forall|i: int|
                0 <= i < copy@.len() ==> (#[trigger] copy@[i]).upper == self@.buckets[i].0
                    && copy@[i].cumulative == self@.buckets[i].1,
    {
        let mut copy: Vec<Bucket> = Vec::new();
        let mut i: usize = 0;
        while i < self.buckets.len()
            invariant
                i <= self.buckets@.len(),
                copy@.len() == i,
                forall|j: int|
                    0 <= j < i ==> (#[trigger] copy@[j]).upper == self@.buckets[j].0
                        && copy@[j].cumulative == self@.buckets[j].1,
            decreases self.buckets.len() - i,
        {
            copy.push(
                Bucket { upper: self.buckets[i].upper, cumulative: self.buckets[i].cumulative },
            );
            i = i + 1;
        }
        copy
    }
}

/// The two kinds of metric a registry holds.
#[derive(Clone, Copy, Debug, PartialEq, Eq, Structural)]
pub enum MetricKind {
    Counter,
    Histogram,
}

/// What a metric holds.
pub ghost enum MetricView {
    Counter(CounterView),
    Histogram(HistogramView),
}

impl MetricView {
    pub open spec fn kind(self) -> MetricKind {
        match self {
            MetricView::Counter(_) => MetricKind::Counter,
            MetricView::Histogram(_) => MetricKind::Histogram,
        }
    }

    /// A counter in which no label set has two cells, or a well-formed
    /// histogram.
    pub open spec fn wf(self) -> bool {
        match self {
            MetricView::Counter(c) => c.distinct(),
            MetricView::Histogram(h) => h.wf(),
        }
    }

    /// The metric of `kind` that has seen nothing: a counter without cells,
    /// or a histogram over the default schedule.
    pub open spec fn fresh(kind: MetricKind) -> MetricView {
        match kind {
            MetricKind::Counter => MetricView::Counter(CounterView { cells: Seq::empty() }),
            MetricKind::Histogram => MetricView::Histogram(
                HistogramView::fresh(default_uppers()),
            ),
        }
    }
}

/// A registered metric as contracts see it.
pub ghost struct FamilyView {
    pub name: Seq<char>,
    pub help: Seq<char>,
    pub metric: MetricView,
}

/// What a registry holds: its families in the order of registration.
pub ghost struct RegistryView {
    pub families: Seq<FamilyView>,
}

impl RegistryView {
    /// The registered names, in the order of registration.
    pub open spec fn names(self) -> Seq<Seq<char>> {
        self.families.map_values(|f: FamilyView| f.name)
    }

    /// The metric registered under `name`, if there is one.
    pub open spec fn metric(self, name: Seq<char>) -> Option<MetricView> {
        match self.names().index_of_first(name) {
            Some(i) => Some(self.families[i].metric),
            None => None,
        }
    }

    /// The kind registered under `name`, if there is one.
    pub open spec fn kind_of(self, name: Seq<char>) -> Option<MetricKind> {
        match self.metric(name) {
            Some(m) => Some(m.kind()),
            None => None,
        }
    }

    /// Whether `name` is taken by a metric of another kind than `kind`.
    pub open spec fn conflicts(self, name: Seq<char>, kind: MetricKind) -> bool {
        self.kind_of(name) matches Some(k) && k != kind
    }

    /// The registry after registering `metric` under `name`: a new last
    /// family where the name is free, no change where it is taken.
    pub open spec fn register(
        self,
        name: Seq<char>,
        help: Seq<char>,
        metric: MetricView,
    ) -> RegistryView {
        if self.names().contains(name) {
            self
        } else {
            RegistryView { families: self.families.push(FamilyView { name, help, metric }) }
        }
    }

    /// The registry after counting one more under `labels` in the counter
    /// `name`; no change where `name` is not a counter.
    pub open spec fn increment(self, name: Seq<char>, labels: LabelSet) -> RegistryView {
        match self.names().index_of_first(name) {
            Some(i) => match self.families[i].metric {
                MetricView::Counter(c) => RegistryView {
                    families: self.families.update(
                        i,
                        FamilyView {
                            name: self.families[i].name,
                            help: self.families[i].help,
                            metric: MetricView::Counter(c.increment(labels)),
                        },
                    ),
                },
                MetricView::Histogram(_) => self,
            },
            None => self,
        }
    }

    /// The registry after observing `value` in the histogram `name`; no
    /// change where `name` is not a histogram.
    pub open spec fn observe(self, name: Seq<char>, value: u64) -> RegistryView {
        match self.names().index_of_first(name) {
            Some(i) => match self.families[i].metric {
                MetricView::Histogram(h) => RegistryView {
                    families: self.families.update(
                        i,
                        FamilyView {
                            name: self.families[i].name,
                            help: self.families[i].help,
                            metric: MetricView::Histogram(h.observe(value)),
                        },
                    ),
                },
                MetricView::Counter(_) => self,
            },
            None => self,
        }
    }

    /// The count under `labels` in the counter `name`; 0 where there is no
    /// such counter.
    pub open spec fn counter_value(self, name: Seq<char>, labels: LabelSet) -> u64 {
        match self.metric(name) {
            Some(MetricView::Counter(c)) => c.value(labels),
            _ => 0,
        }
    }

    /// The number of observations in the histogram `name`; 0 where there is
    /// no such histogram.
    pub open spec fn histogram_count(self, name: Seq<char>) -> u64 {
        match self.metric(name) {
            Some(MetricView::Histogram(h)) => h.count,
            _ => 0,
        }
    }

    /// No name is registered twice.
    pub open spec fn distinct(self) -> bool {
        self.names().no_duplicates()
    }

    /// No name is registered twice, and every metric is well formed.
    pub open spec fn wf(self) -> bool {
        &&& self.distinct()
        &&& forall|i: int| 0 <= i < self.families.len() ==> (#[trigger] self.families[i]).metric.wf()
    }
}

/// A counter or a histogram.
pub enum Metric {
    Counter(MetricCounter),
    Histogram(MetricHistogram),
}

impl View for Metric {
    type V = MetricView;

    open spec fn view(&self) -> MetricView {
        match self {
            Metric::Counter(c) => MetricView::Counter(c@),
            Metric::Histogram(h) => MetricView::Histogram(h@),
        }
    }
}

impl Metric {
    /// The metric of `kind` that has seen nothing.
    pub fn fresh(kind: MetricKind) -> (metric: Metric)
        ensures
            metric@ == MetricView::fresh(kind),
            metric@.wf(),
    {
        match kind {
            MetricKind::Counter => {
                let c = MetricCounter::new();
                assert(c@ == CounterView { cells: Seq::empty() });
                Metric::Counter(c)
            },
            MetricKind::Histogram => Metric::Histogram(MetricHistogram::new()),
        }
    }

    pub fn kind(&self) -> (kind: MetricKind)
        ensures
            kind == self@.kind(),
    {
        match self {
            Metric::Counter(_) => MetricKind::Counter,
            Metric::Histogram(_) => MetricKind::Histogram,
        }
    }

    /// A copy of the metric as it stands.
    pub fn snapshot(&self) -> (copy: Metric)
        ensures
            copy@ == self@,
    {
        match self {
            Metric::Counter(c) => Metric::Counter(c.snapshot()),
            Metric::Histogram(h) => Metric::Histogram(h.snapshot()),
        }
    }
}

/// A metric with the name and the help text it was registered with.
pub struct MetricFamily {
    pub name: String,
    pub help: String,
    pub metric: Metric,
}

impl View for MetricFamily {
    type V = FamilyView;

    open spec fn view(&self) -> FamilyView {
        FamilyView { name: self.name@, help: self.help@, metric: self.metric@ }
    }
}

impl DeepView for MetricFamily {
    type V = FamilyView;

    open spec fn deep_view(&self) -> FamilyView {
        self@
    }
}

/// A name was registered again with another kind than it has.
#[derive(Debug)]
pub struct ConflictingMetricKind {
    pub name: String,
    pub registered: MetricKind,
    pub requested: MetricKind,
}

/// The metrics of one process, by name. Nothing registered is ever removed
/// or reset.
pub struct MetricsRegistry {
    families: Vec<MetricFamily>,
}

impl View for MetricsRegistry {
    type V = RegistryView;

    closed spec fn view(&self) -> RegistryView {
        RegistryView { families: self.families.deep_view() }
    }
}

impl MetricsRegistry {
    /// A registry without metrics.
    pub fn new() -> (registry: MetricsRegistry)
        ensures
            registry@.families == Seq::<FamilyView>::empty(),
            registry@.wf(),
    {
        let registry = MetricsRegistry { families: Vec::new() };
        assert(registry@.families =~= Seq::<FamilyView>::empty());
        registry
    }

    fn find(&self, name: &str) -> (at: usize)
        ensures
            self@.names().index_of_first(name@) == (if at < self@.families.len() {
                Some(at as int)
            } else {
                None::<int>
            }),
            at <= self.families@.len(),
            self.families@.len() == self@.families.len(),
            at < self.families@.len() ==> self.families@[at as int].name@ == name@,
            self@.names().contains(name@) <==> at < self.families@.len(),
    {
        let mut i: usize = 0;
        while i < self.families.len()
            invariant
                i <= self.families@.len(),
                forall|j: int| 0 <= j < i ==> self@.names()[j] != name@,
            decreases self.families.len() - i,
        {
            if str_eq(self.families[i].name.as_str(), name) {
                proof {
                    lemma_first_index(self@.names(), name@, i as int);
                    assert(self@.names()[i as int] == name@);
                }
                return i;
            }
            i = i + 1;
        }
        proof {
            lemma_first_index(self@.names(), name@, i as int);
            self@.names().index_of_first_ensures(name@);
        }
        i
    }

    /// The kind registered under `name`, if there is one.
    pub fn kind_of(&self, name: &str) -> (kind: Option<MetricKind>)
        ensures
            kind == self@.kind_of(name@),
    {
        let at: usize = self.find(name);
        if at < self.families.len() {
            Some(self.families[at].metric.kind())
        } else {
            None
        }
    }

    /// Whether `name` can be registered as a metric of `kind`: it can unless
    /// it is taken by a metric of the other kind.
    pub fn check(&self, name: &str, kind: MetricKind) -> (free: Result<(), ConflictingMetricKind>)
        ensures
            free is Err <==> self@.conflicts(name@, kind),
            free matches Err(e) ==> e.name@ == name@ && e.requested == kind && self@.kind_of(name@)
                == Some(e.registered),
    {
        match self.kind_of(name) {
            Some(registered) => {
                if registered == kind {
                    Ok(())
                } else {
                    Err(
                        ConflictingMetricKind {
                            name: String::from_str(name),
                            registered,
                            requested: kind,
                        },
                    )
                }
            },
            None => Ok(()),
        }
    }

    /// Registers `metric` under `name`. A name that is free gets the metric;
    /// a name taken by a metric of the same kind keeps what it has, and the
    /// call changes nothing; a name taken by the other kind is an error, and
    /// the call changes nothing either.
    pub fn register_metric(&mut self, name: &str, help: &str, metric: Metric) -> (done: Result<
        (),
        ConflictingMetricKind,
    >)
        ensures
            done is Err <==> old(self)@.conflicts(name@, metric@.kind()),
            done is Ok ==> final(self)@ == old(self)@.register(name@, help@, metric@),
            done matches Err(e) ==> final(self)@ == old(self)@ && e.name@ == name@
                && e.requested == metric@.kind() && Some(e.registered) == old(self)@.kind_of(
                name@,
            ),
            old(self)@.wf() && metric@.wf() ==> final(self)@.wf(),
    {
        proof {
            if old(self)@.wf() {
                lemma_register_distinct(old(self)@, name@, help@, metric@);
            }
        }
        let at: usize = self.find(name);
        if at < self.families.len() {
            let registered: MetricKind = self.families[at].metric.kind();
            let requested: MetricKind = metric.kind();
            if registered == requested {
                Ok(())
            } else {
                Err(ConflictingMetricKind { name: String::from_str(name), registered, requested })
            }
        } else {
            self.families.push(
                MetricFamily { name: String::from_str(name), help: String::from_str(help), metric },
            );
            assert(final(self)@.families =~= old(self)@.register(name@, help@, metric@).families);
            Ok(())
        }
    }

    /// Registers `name` as a metric of `kind` that has seen nothing, without
    /// a help text: the same as `register_metric` with `Metric::fresh(kind)`.
    pub fn register(&mut self, name: &str, kind: MetricKind) -> (done: Result<
        (),
        ConflictingMetricKind,
    >)
        ensures
            done is Err <==> old(self)@.conflicts(name@, kind),
            done is Ok ==> final(self)@ == old(self)@.register(
                name@,
                Seq::<char>::empty(),
                MetricView::fresh(kind),
            ),
            done matches Err(e) ==> final(self)@ == old(self)@ && e.name@ == name@ && e.requested
                == kind && Some(e.registered) == old(self)@.kind_of(name@),
            old(self)@.wf() ==> final(self)@.wf(),
    {
        let help = String::new();
        self.register_metric(name, help.as_str(), Metric::fresh(kind))
    }

    /// Counts one more under `labels` in the counter `name`. Says whether
    /// there is such a counter; where there is none, nothing changes.
    pub fn increment(&mut self, name: &str, labels: Vec<Label>) -> (counted: bool)
        ensures
            counted == (old(self)@.kind_of(name@) == Some(MetricKind::Counter)),
            final(self)@ == old(self)@.increment(name@, labels.deep_view()),
            old(self)@.wf() ==> final(self)@.wf(),
    {
        let at: usize = self.find(name);
        if at < self.families.len() {
            match &mut self.families[at].metric {
                Metric::Counter(c) => {
                    c.increment(labels);
                    assert(final(self)@.families =~= old(self)@.increment(
                        name@,
                        labels.deep_view(),
                    ).families);
                    assert(final(self)@.names() =~= old(self)@.names());
                    true
                },
                Metric::Histogram(_) => {
                    assert(final(self)@.families =~= old(self)@.families);
                    false
                },
            }
        } else {
            false
        }
    }

    /// Records `value` in the histogram `name`. Says whether there is such a
    /// histogram; where there is none, nothing changes.
    pub fn observe(&mut self, name: &str, value: u64) -> (observed: bool)
        ensures
            observed == (old(self)@.kind_of(name@) == Some(MetricKind::Histogram)),
            final(self)@ == old(self)@.observe(name@, value),
            old(self)@.wf() ==> final(self)@.wf(),
    {
        let at: usize = self.find(name);
        if at < self.families.len() {
            match &mut self.families[at].metric {
                Metric::Histogram(h) => {
                    h.observe(value);
                    assert(final(self)@.families =~= old(self)@.observe(name@, value).families);
                    assert(final(self)@.names() =~= old(self)@.names());
                    true
                },
                Metric::Counter(_) => {
                    assert(final(self)@.families =~= old(self)@.families);
                    false
                },
            }
        } else {
            false
        }
    }

    /// The count under `labels` in the counter `name`; 0 where there is no
    /// such counter or the label set was never seen.
    pub fn counter_value(&self, name: &str, labels: &Vec<Label>) -> (value: u64)
        ensures
            value == self@.counter_value(name@, labels.deep_view()),
    {
        let at: usize = self.find(name);
        if at < self.families.len() {
            match &self.families[at].metric {
                Metric::Counter(c) => c.get(labels),
                Metric::Histogram(_) => 0,
            }
        } else {
            0
        }
    }

    /// The number of observations in the histogram `name`; 0 where there is
    /// no such histogram.
    pub fn histogram_count(&self, name: &str) -> (count: u64)
        ensures
            count == self@.histogram_count(name@),
    {
        let at: usize = self.find(name);
        if at < self.families.len() {
            match &self.families[at].metric {
                Metric::Histogram(h) => h.count(),
                Metric::Counter(_) => 0,
            }
        } else {
            0
        }
    }

    /// The number of registered metrics.
    pub fn len(&self) -> (n: usize)
        ensures
            n == self@.families.len(),
    {
        self.families.len()
    }

    /// A copy of every registered metric as it stands, in the order of
    /// registration. The registry is only read: two calls with nothing in
    /// between return the same.
    pub fn gather(&self) -> (snapshot: Vec<MetricFamily>)
        ensures
            snapshot.deep_view() == self@.families,
    {
        let mut snapshot: Vec<MetricFamily> = Vec::new();
        let mut i: usize = 0;
        while i < self.families.len()
            invariant
                i <= self.families@.len(),
                snapshot@.len() == i,
                forall|j: int| 0 <= j < i ==> (#[trigger] snapshot@[j])@ == self.families@[j]@,
            decreases self.families.len() - i,
        {
            snapshot.push(
                MetricFamily {
                    name: self.families[i].name.clone(),
                    help: self.families[i].help.clone(),
                    metric: self.families[i].metric.snapshot(),
                },
            );
            i = i + 1;
        }
        assert(snapshot.deep_view() =~= self@.families);
        snapshot
    }
}

} // verus!
