use trangarcom::exposition::{render, MetricsEndpoint};
use trangarcom::metrics::{
    default_buckets, same_labels, single_label, size_buckets, Label, Metric, MetricCounter,
    MetricHistogram, MetricKind, MetricsRegistry,
};
use trangarcom::text::{chars_of, push_decimal};
use trangarcom::timer::{clamped, RequestTimer};

fn code(value: &str) -> Vec<Label> {
    single_label("code", value)
}

#[test]
fn decimal_of_zero_and_of_the_largest_number() {
    let mut text = String::new();
    push_decimal(&mut text, 0);
    assert_eq!(text, "0");
    let mut text = String::from("n=");
    push_decimal(&mut text, u64::MAX);
    assert_eq!(text, "n=18446744073709551615");
    let mut text = String::new();
    push_decimal(&mut text, 1_000);
    assert_eq!(text, "1000");
}

#[test]
fn chars_of_keeps_every_character() {
    assert_eq!(chars_of("a\u{e9}\u{1F600}z"), vec!['a', '\u{e9}', '\u{1F600}', 'z']);
    assert_eq!(chars_of(""), Vec::<char>::new());
}

#[test]
fn label_sets_compare_by_content_and_order() {
    let a = vec![Label::new("url", "/"), Label::new("status", "200")];
    let b = vec![Label::new("url", "/"), Label::new("status", "200")];
    let c = vec![Label::new("status", "200"), Label::new("url", "/")];
    assert!(same_labels(&a, &b));
    assert!(!same_labels(&a, &c));
    assert!(!same_labels(&a, &code("200")));
}

#[test]
fn counter_creates_labels_on_first_use() {
    let mut counter = MetricCounter::new();
    assert_eq!(counter.len(), 0);
    assert_eq!(counter.get(&code("200")), 0);
    counter.increment(code("200"));
    counter.increment(code("404"));
    counter.increment(code("200"));
    assert_eq!(counter.len(), 2);
    assert_eq!(counter.get(&code("200")), 2);
    assert_eq!(counter.get(&code("404")), 1);
    assert_eq!(counter.get(&code("500")), 0);
    let cells = counter.cells();
    assert_eq!(cells[0].value, 2);
    assert_eq!(cells[0].labels[0].value, "200");
    assert_eq!(cells[1].value, 1);
}

#[test]
fn histogram_counts_cumulatively() {
    let mut histogram = MetricHistogram::with_buckets(vec![10, 100, 1000]).unwrap();
    histogram.observe(5);
    histogram.observe(10);
    histogram.observe(11);
    histogram.observe(5000);
    assert_eq!(histogram.count(), 4);
    assert_eq!(histogram.sum(), 5026);
    let buckets = histogram.buckets();
    assert_eq!(buckets.len(), 3);
    assert_eq!((buckets[0].upper, buckets[0].cumulative), (10, 2));
    assert_eq!((buckets[1].upper, buckets[1].cumulative), (100, 3));
    assert_eq!((buckets[2].upper, buckets[2].cumulative), (1000, 3));
}

#[test]
fn histogram_sum_stops_at_the_largest_number() {
    let mut histogram = MetricHistogram::with_buckets(vec![10]).unwrap();
    histogram.observe(u64::MAX);
    histogram.observe(7);
    assert_eq!(histogram.sum(), u64::MAX);
    assert_eq!(histogram.count(), 2);
    assert_eq!(histogram.bucket(0).cumulative, 1);
}

#[test]
fn histogram_refuses_bounds_that_do_not_increase() {
    assert!(MetricHistogram::with_buckets(vec![10, 10]).is_none());
    assert!(MetricHistogram::with_buckets(vec![10, 5]).is_none());
    assert!(MetricHistogram::with_buckets(vec![]).is_some());
    assert!(MetricHistogram::with_buckets(vec![0, u64::MAX]).is_some());
}

#[test]
fn default_schedules() {
    assert_eq!(
        default_buckets(),
        vec![
            5_000, 10_000, 25_000, 50_000, 100_000, 250_000, 500_000, 1_000_000, 2_500_000,
            5_000_000, 10_000_000
        ]
    );
    assert_eq!(
        size_buckets(),
        vec![64, 256, 1_024, 4_096, 16_384, 65_536, 262_144, 1_048_576, 4_194_304, 16_777_216]
    );
    assert_eq!(MetricHistogram::new().len(), 11);
}

#[test]
fn register_is_idempotent_for_the_same_kind() {
    let mut registry = MetricsRegistry::new();
    assert!(registry.register("hits", MetricKind::Counter).is_ok());
    assert!(registry.increment("hits", code("200")));
    assert!(registry.register("hits", MetricKind::Counter).is_ok());
    assert_eq!(registry.len(), 1);
    assert_eq!(registry.counter_value("hits", &code("200")), 1);
    assert_eq!(registry.kind_of("hits"), Some(MetricKind::Counter));
    assert_eq!(registry.kind_of("misses"), None);
}

#[test]
fn register_with_another_kind_is_a_conflict() {
    let mut registry = MetricsRegistry::new();
    registry.register("hits", MetricKind::Counter).unwrap();
    let error = registry.register("hits", MetricKind::Histogram).unwrap_err();
    assert_eq!(error.name, "hits");
    assert_eq!(error.registered, MetricKind::Counter);
    assert_eq!(error.requested, MetricKind::Histogram);
    assert_eq!(registry.len(), 1);
    assert_eq!(registry.kind_of("hits"), Some(MetricKind::Counter));
    registry.register("wait", MetricKind::Histogram).unwrap();
    let error = registry
        .register_metric("wait", "", Metric::Counter(MetricCounter::new()))
        .unwrap_err();
    assert_eq!(error.registered, MetricKind::Histogram);
    assert_eq!(error.requested, MetricKind::Counter);
}

#[test]
fn increment_and_observe_say_whether_the_metric_is_there() {
    let mut registry = MetricsRegistry::new();
    registry.register("hits", MetricKind::Counter).unwrap();
    registry.register("wait", MetricKind::Histogram).unwrap();
    assert!(registry.increment("hits", code("200")));
    assert!(!registry.increment("wait", code("200")));
    assert!(!registry.increment("other", code("200")));
    assert!(registry.observe("wait", 7));
    assert!(!registry.observe("hits", 7));
    assert!(!registry.observe("other", 7));
    assert_eq!(registry.counter_value("hits", &code("200")), 1);
    assert_eq!(registry.counter_value("wait", &code("200")), 0);
    assert_eq!(registry.histogram_count("wait"), 1);
    assert_eq!(registry.histogram_count("hits"), 0);
}

#[test]
fn exposition_of_a_counter_and_a_histogram() {
    let mut registry = MetricsRegistry::new();
    registry
        .register_metric("response_code", "Responses", Metric::Counter(MetricCounter::new()))
        .unwrap();
    registry
        .register_metric(
            "wait",
            "Time",
            Metric::Histogram(MetricHistogram::with_buckets(vec![10, 100]).unwrap()),
        )
        .unwrap();
    registry.increment("response_code", code("all"));
    registry.increment("response_code", code("200"));
    registry.increment("response_code", code("all"));
    registry.increment(
        "response_code",
        vec![Label::new("url", "/a"), Label::new("status", "404")],
    );
    registry.increment("response_code", Vec::new());
    registry.observe("wait", 3);
    registry.observe("wait", 50);
    registry.observe("wait", 500);
    let expected = "# HELP response_code Responses\n\
                    # TYPE response_code counter\n\
                    response_code{code=\"all\"} 2\n\
                    response_code{code=\"200\"} 1\n\
                    response_code{url=\"/a\",status=\"404\"} 1\n\
                    response_code 1\n\
                    # HELP wait Time\n\
                    # TYPE wait histogram\n\
                    wait_bucket{le=\"10\"} 1\n\
                    wait_bucket{le=\"100\"} 2\n\
                    wait_bucket{le=\"+Inf\"} 3\n\
                    wait_sum 553\n\
                    wait_count 3\n";
    assert_eq!(MetricsEndpoint::render(&registry), expected);
    assert_eq!(render(&registry.gather()), expected);
}

#[test]
fn exposition_escapes_help_and_label_values() {
    let mut registry = MetricsRegistry::new();
    registry
        .register_metric("m", "a\\b\n\"c\"", Metric::Counter(MetricCounter::new()))
        .unwrap();
    registry.increment("m", single_label("path", "a\\b\n\"c\""));
    assert_eq!(
        MetricsEndpoint::render(&registry),
        "# HELP m a\\\\b\\n\"c\"\n# TYPE m counter\nm{path=\"a\\\\b\\n\\\"c\\\"\"} 1\n"
    );
}

#[test]
fn exposition_of_an_empty_registry_is_empty() {
    assert_eq!(MetricsEndpoint::render(&MetricsRegistry::new()), "");
}

#[test]
fn gather_twice_gives_the_same() {
    let mut registry = MetricsRegistry::new();
    registry.register("hits", MetricKind::Counter).unwrap();
    registry.register("wait", MetricKind::Histogram).unwrap();
    registry.increment("hits", code("200"));
    registry.observe("wait", 12_345);
    let first = render(&registry.gather());
    let second = render(&registry.gather());
    assert_eq!(first, second);
    assert_eq!(MetricsEndpoint::render(&registry), first);
    assert_eq!(registry.gather().len(), 2);
}

#[test]
fn gather_is_a_copy() {
    let mut registry = MetricsRegistry::new();
    registry.register("hits", MetricKind::Counter).unwrap();
    registry.increment("hits", code("200"));
    let snapshot = registry.gather();
    registry.increment("hits", code("200"));
    match &snapshot[0].metric {
        Metric::Counter(counter) => assert_eq!(counter.get(&code("200")), 1),
        Metric::Histogram(_) => panic!("a counter was registered"),
    }
    assert_eq!(snapshot[0].name, "hits");
    assert_eq!(registry.counter_value("hits", &code("200")), 2);
}

#[test]
fn timer_reports_once() {
    let mut histogram = MetricHistogram::with_buckets(vec![10, 100]).unwrap();
    let mut timer = RequestTimer::start();
    assert!(!timer.observed());
    assert!(timer.record_into(&mut histogram, 50));
    assert!(timer.observed());
    assert!(!timer.record_into(&mut histogram, 60));
    assert_eq!(histogram.count(), 1);
    assert_eq!(histogram.sum(), 50);
    assert_eq!(timer.observe_into(&mut histogram), None);
    assert_eq!(histogram.count(), 1);
}

#[test]
fn timer_observes_the_clock() {
    let mut histogram = MetricHistogram::new();
    let mut timer = RequestTimer::start();
    let before = timer.elapsed();
    let observed = timer.observe_into(&mut histogram).unwrap();
    assert!(observed >= before);
    assert_eq!(histogram.count(), 1);
    assert_eq!(histogram.sum(), observed);
    assert!(timer.elapsed() >= observed);
}

#[test]
fn timer_reports_into_a_registry() {
    let mut registry = MetricsRegistry::new();
    registry.register("wait", MetricKind::Histogram).unwrap();
    let mut timer = RequestTimer::start();
    assert!(timer.record_in(&mut registry, "wait", 9));
    assert!(!timer.record_in(&mut registry, "wait", 9));
    assert_eq!(registry.histogram_count("wait"), 1);
    let mut second = RequestTimer::start();
    assert!(second.observe_in(&mut registry, "wait").is_some());
    assert!(second.observe_in(&mut registry, "wait").is_none());
    assert_eq!(registry.histogram_count("wait"), 2);
}

#[test]
fn microseconds_are_held_at_the_largest_number() {
    assert_eq!(clamped(0), 0);
    assert_eq!(clamped(u64::MAX as u128), u64::MAX);
    assert_eq!(clamped(u64::MAX as u128 + 1), u64::MAX);
    assert_eq!(clamped(u128::MAX), u64::MAX);
}
