//! The text exposition of a registry: one `# HELP` and one `# TYPE` line per
//! metric, then one line per sample, `name{label="value",...} number`.
//! A histogram shows a `_bucket` line per bound and one for `+Inf`, then
//! `_sum` and `_count`.

use crate::metrics::{
    CounterView, FamilyView, HistogramView, Label, LabelSet, Metric, MetricCounter, MetricFamily,
    MetricHistogram, MetricView, MetricsRegistry,
};
use crate::text::{decimal, push_decimal};
use vstd::prelude::*;

verus! {

/// How one character of a help text or a label value is written: a
/// backslash and a line feed are escaped everywhere, a double quote only
/// where `quotes` is set, as inside a label value.
pub open spec fn escaped_char(c: char, quotes: bool) -> Seq<char> {
    if c == '\\' {
        seq!['\\', '\\']
    } else if c == '\n' {
        seq!['\\', 'n']
    } else if quotes && c == '"' {
        seq!['\\', '"']
    } else {
        seq![c]
    }
}

/// `s` with each character written as `escaped_char` says.
pub open spec fn escaped(s: Seq<char>, quotes: bool) -> Seq<char>
    decreases s.len(),
{
    if s.len() == 0 {
        Seq::empty()
    } else {
        escaped(s.drop_last(), quotes) + escaped_char(s.last(), quotes)
    }
}

/// One pair of a label set: `name="value"`.
pub open spec fn label_text(label: (Seq<char>, Seq<char>)) -> Seq<char> {
    label.0 + "=\""@ + escaped(label.1, true) + "\""@
}

/// The first `n` pairs of a label set, separated by commas.
pub open spec fn labels_text(labels: LabelSet, n: nat) -> Seq<char>
    decreases n,
{
    if n == 0 {
        Seq::empty()
    } else if n == 1 {
        label_text(labels[0])
    } else {
        labels_text(labels, (n - 1) as nat) + ","@ + label_text(labels[n - 1])
    }
}

/// A label set in braces; nothing at all for the empty set.
pub open spec fn label_block(labels: LabelSet) -> Seq<char> {
    if labels.len() == 0 {
        Seq::empty()
    } else {
        "{"@ + labels_text(labels, labels.len()) + "}"@
    }
}

/// One sample line.
pub open spec fn sample_line(name: Seq<char>, labels: LabelSet, value: u64) -> Seq<char> {
    name + label_block(labels) + " "@ + decimal(value as nat) + "\n"@
}

/// The sample lines of the first `n` cells of a counter.
pub open spec fn counter_lines(name: Seq<char>, counter: CounterView, n: nat) -> Seq<char>
    decreases n,
{
    if n == 0 {
        Seq::empty()
    } else {
        counter_lines(name, counter, (n - 1) as nat) + sample_line(
            name,
            counter.cells[n - 1].0,
            counter.cells[n - 1].1,
        )
    }
}

/// The line of one bucket: `name_bucket{le="upper"} cumulative`.
pub open spec fn bucket_line(name: Seq<char>, upper: u64, cumulative: u64) -> Seq<char> {
    name + "_bucket{le=\""@ + decimal(upper as nat) + "\"} "@ + decimal(cumulative as nat)
        + "\n"@
}

/// The lines of the first `n` buckets of a histogram.
pub open spec fn bucket_lines(name: Seq<char>, histogram: HistogramView, n: nat) -> Seq<char>
    decreases n,
{
    if n == 0 {
        Seq::empty()
    } else {
        bucket_lines(name, histogram, (n - 1) as nat) + bucket_line(
            name,
            histogram.buckets[n - 1].0,
            histogram.buckets[n - 1].1,
        )
    }
}

/// The lines that close a histogram: the `+Inf` bucket, the sum, the count.
pub open spec fn histogram_totals(name: Seq<char>, histogram: HistogramView) -> Seq<char> {
    name + "_bucket{le=\"+Inf\"} "@ + decimal(histogram.count as nat) + "\n"@ + name + "_sum "@
        + decimal(histogram.sum as nat) + "\n"@ + name + "_count "@ + decimal(
        histogram.count as nat,
    ) + "\n"@
}

/// The two comment lines that open a family.
pub open spec fn family_header(family: FamilyView) -> Seq<char> {
    "# HELP "@ + family.name + " "@ + escaped(family.help, false) + "\n"@ + "# TYPE "@
        + family.name + " "@ + (match family.metric {
        MetricView::Counter(_) => "counter"@,
        MetricView::Histogram(_) => "histogram"@,
    }) + "\n"@
}

/// Everything one family shows.
pub open spec fn family_text(family: FamilyView) -> Seq<char> {
    family_header(family) + (match family.metric {
        MetricView::Counter(c) => counter_lines(family.name, c, c.cells.len()),
        MetricView::Histogram(h) => bucket_lines(family.name, h, h.buckets.len())
            + histogram_totals(family.name, h),
    })
}

/// What the first `n` families show, in their order.
pub open spec fn families_text(families: Seq<FamilyView>, n: nat) -> Seq<char>
    decreases n,
{
    if n == 0 {
        Seq::empty()
    } else {
        families_text(families, (n - 1) as nat) + family_text(families[n - 1])
    }
}

/// The exposition of a whole snapshot.
pub open spec fn exposition(families: Seq<FamilyView>) -> Seq<char> {
    families_text(families, families.len())
}

fn push_escaped(out: &mut String, s: &str, quotes: bool)
    ensures
        final(out)@ == old(out)@ + escaped(s@, quotes),
{
    let ghost mut done: int = 0;
    for c in it: s.chars()
        invariant
            it.seq() == s@,
            done == it.index(),
            0 <= done <= s@.len(),
            out@ == old(out)@ + escaped(s@.take(done), quotes),
    {
        proof {
            assert(s@.take(done + 1).drop_last() =~= s@.take(done));
            assert(s@.take(done + 1).last() == c);
        }
        let ghost before = out@;
        if c == '\\' {
            out.push('\\');
            out.push('\\');
        } else if c == '\n' {
            out.push('\\');
            out.push('n');
        } else if quotes && c == '"' {
            out.push('\\');
            out.push('"');
        } else {
            out.push(c);
        }
        proof {
            assert(out@ =~= before + escaped_char(c, quotes));
            assert(out@ =~= old(out)@ + escaped(s@.take(done + 1), quotes));
            done = done + 1;
        }
    }
    assert(s@.take(done) =~= s@);
}

fn push_label(out: &mut String, label: &Label)
    ensures
        final(out)@ == old(out)@ + label_text(label@),
{
    out.append(label.name.as_str());
    out.append("=\"");
    push_escaped(out, label.value.as_str(), true);
    out.append("\"");
    assert(final(out)@ =~= old(out)@ + label_text(label@));
}

fn push_label_block(out: &mut String, labels: &Vec<Label>)
    ensures
        final(out)@ == old(out)@ + label_block(labels.deep_view()),
{
    if labels.len() == 0 {
        assert(final(out)@ =~= old(out)@ + label_block(labels.deep_view()));
        return;
    }
    out.append("{");
    let mut i: usize = 0;
    while i < labels.len()
        invariant
            i <= labels.len(),
            out@ == old(out)@ + "{"@ + labels_text(labels.deep_view(), i as nat),
        decreases labels.len() - i,
    {
        let ghost before = out@;
        if i > 0 {
            out.append(",");
        }
        push_label(out, &labels[i]);
        proof {
            assert(labels.deep_view()[i as int] == labels@[i as int]@);
            assert(out@ =~= old(out)@ + "{"@ + labels_text(labels.deep_view(), (i + 1) as nat));
        }
        i = i + 1;
    }
    out.append("}");
    assert(final(out)@ =~= old(out)@ + label_block(labels.deep_view()));
}

fn push_sample(out: &mut String, name: &str, labels: &Vec<Label>, value: u64)
    ensures
        final(out)@ == old(out)@ + sample_line(name@, labels.deep_view(), value),
{
    out.append(name);
    push_label_block(out, labels);
    out.append(" ");
    push_decimal(out, value);
    out.append("\n");
    assert(final(out)@ =~= old(out)@ + sample_line(name@, labels.deep_view(), value));
}

fn push_counter(out: &mut String, name: &str, counter: &MetricCounter)
    ensures
        final(out)@ == old(out)@ + counter_lines(name@, counter@, counter@.cells.len()),
{
    let n: usize = counter.len();
    let mut i: usize = 0;
    while i < n
        invariant
            n == counter@.cells.len(),
            i <= n,
            out@ == old(out)@ + counter_lines(name@, counter@, i as nat),
        decreases n - i,
    {
        let cell = counter.cell(i);
        push_sample(out, name, &cell.labels, cell.value);
        assert(out@ =~= old(out)@ + counter_lines(name@, counter@, (i + 1) as nat));
        i = i + 1;
    }
}

fn push_bucket(out: &mut String, name: &str, upper: u64, cumulative: u64)
    ensures
        final(out)@ == old(out)@ + bucket_line(name@, upper, cumulative),
{
    out.append(name);
    out.append("_bucket{le=\"");
    push_decimal(out, upper);
    out.append("\"} ");
    push_decimal(out, cumulative);
    out.append("\n");
    assert(final(out)@ =~= old(out)@ + bucket_line(name@, upper, cumulative));
}

fn push_histogram(out: &mut String, name: &str, histogram: &MetricHistogram)
    ensures
        final(out)@ == old(out)@ + bucket_lines(name@, histogram@, histogram@.buckets.len())
            + histogram_totals(name@, histogram@),
{
    let n: usize = histogram.len();
    let mut i: usize = 0;
    while i < n
        invariant
            n == histogram@.buckets.len(),
            i <= n,
            out@ == old(out)@ + bucket_lines(name@, histogram@, i as nat),
        decreases n - i,
    {
        let bucket = histogram.bucket(i);
        push_bucket(out, name, bucket.upper, bucket.cumulative);
        assert(out@ =~= old(out)@ + bucket_lines(name@, histogram@, (i + 1) as nat));
        i = i + 1;
    }
    let ghost middle = out@;
    out.append(name);
    out.append("_bucket{le=\"+Inf\"} ");
    push_decimal(out, histogram.count());
    out.append("\n");
    out.append(name);
    out.append("_sum ");
    push_decimal(out, histogram.sum());
    out.append("\n");
    out.append(name);
    out.append("_count ");
    push_decimal(out, histogram.count());
    out.append("\n");
    assert(final(out)@ =~= middle + histogram_totals(name@, histogram@));
}

fn push_family(out: &mut String, family: &MetricFamily)
    ensures
        final(out)@ == old(out)@ + family_text(family@),
{
    let name: &str = family.name.as_str();
    out.append("# HELP ");
    out.append(name);
    out.append(" ");
    push_escaped(out, family.help.as_str(), false);
    out.append("\n");
    out.append("# TYPE ");
    out.append(name);
    out.append(" ");
    match &family.metric {
        Metric::Counter(_) => out.append("counter"),
        Metric::Histogram(_) => out.append("histogram"),
    }
    out.append("\n");
    assert(out@ =~= old(out)@ + family_header(family@));
    match &family.metric {
        Metric::Counter(c) => push_counter(out, name, c),
        Metric::Histogram(h) => push_histogram(out, name, h),
    }
    assert(final(out)@ =~= old(out)@ + family_text(family@));
}

/// Writes a snapshot in the exposition format.
pub fn render(snapshot: &Vec<MetricFamily>) -> (text: String)
    ensures
        text@ == exposition(snapshot.deep_view()),
{
    let mut text = String::new();
    let mut i: usize = 0;
    while i < snapshot.len()
        invariant
            i <= snapshot.len(),
            text@ == families_text(snapshot.deep_view(), i as nat),
        decreases snapshot.len() - i,
    {
        push_family(&mut text, &snapshot[i]);
        assert(snapshot.deep_view()[i as int] == snapshot@[i as int]@);
        i = i + 1;
    }
    text
}

/// The scrape endpoint: a read-only view of a registry in the exposition
/// format, with no state of its own.
pub struct MetricsEndpoint {}

impl MetricsEndpoint {
    /// The exposition of what `registry` holds now.
    pub fn render(registry: &MetricsRegistry) -> (text: String)
        ensures
            text@ == exposition(registry@.families),
    {
        let snapshot = registry.gather();
        render(&snapshot)
    }
}

} // verus!
