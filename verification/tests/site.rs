use trangarcom::attributes::{
    attribute_number, attribute_string, header_attribute, upsert, Attribute, AttributeValue,
    HeaderField, LogEntry,
};
use trangarcom::headers::{starts_with, Header, Headers};
use trangarcom::metrics::{single_label, Label, MetricKind, MetricsRegistry};
use trangarcom::prometheus::{Metrics, Prometheus};
use trangarcom::record::RequestRecord;

fn text_of(value: &AttributeValue) -> &str {
    match value {
        AttributeValue::S(text) => text,
        _ => panic!("a string was expected"),
    }
}

fn number_of(value: &AttributeValue) -> &str {
    match value {
        AttributeValue::N(numeral) => numeral,
        _ => panic!("a number was expected"),
    }
}

fn entry() -> LogEntry {
    LogEntry {
        id: 0xa1a2a3a4_b1b2_c1c2_d1d2_d3d4d5d6d7d8,
        status_code: 404,
        start: 0,
        end: 947_638_923_004,
        response_size: Some(1234),
        uri: String::from("/blog?page=2"),
        headers: vec![
            HeaderField { name: String::from("accept"), value: b"text/html".to_vec() },
            HeaderField { name: String::from("x-raw"), value: vec![0xff, 0x00] },
            HeaderField { name: String::from("accept"), value: b"*/*".to_vec() },
        ],
    }
}

#[test]
fn attribute_map_of_a_log_entry() {
    let map = entry().to_attribute_value_map().unwrap();
    let names: Vec<&str> = map.iter().map(|a| a.name.as_str()).collect();
    assert_eq!(
        names,
        vec!["id", "status_code", "start", "end", "uri", "response_size", "headers"]
    );
    assert_eq!(text_of(&map[0].value), "a1a2a3a4-b1b2-c1c2-d1d2-d3d4d5d6d7d8");
    assert_eq!(number_of(&map[1].value), "404");
    assert_eq!(text_of(&map[2].value), "1970-01-01T00:00:00+00:00");
    assert_eq!(text_of(&map[3].value), "2000-01-12T01:02:03.004+00:00");
    assert_eq!(text_of(&map[4].value), "/blog?page=2");
    assert_eq!(number_of(&map[5].value), "1234");
    match &map[6].value {
        AttributeValue::M(headers) => {
            assert_eq!(headers.len(), 2);
            assert_eq!(headers[0].name, "accept");
            assert_eq!(text_of(&headers[0].value), "*/*");
            assert_eq!(headers[1].name, "x-raw");
            match &headers[1].value {
                AttributeValue::B(bytes) => assert_eq!(bytes, &vec![0xff, 0x00]),
                _ => panic!("bytes were expected"),
            }
        }
        _ => panic!("a nested list was expected"),
    }
}

#[test]
fn attribute_map_without_a_size() {
    let mut entry = entry();
    entry.response_size = None;
    entry.headers = Vec::new();
    let map = entry.to_attribute_value_map().unwrap();
    let names: Vec<&str> = map.iter().map(|a| a.name.as_str()).collect();
    assert_eq!(names, vec!["id", "status_code", "start", "end", "uri", "headers"]);
    match &map[5].value {
        AttributeValue::M(headers) => assert!(headers.is_empty()),
        _ => panic!("a nested list was expected"),
    }
}

#[test]
fn attribute_map_of_an_instant_out_of_range() {
    let mut late = entry();
    late.end = i64::MAX;
    assert!(late.to_attribute_value_map().is_none());
    let mut early = entry();
    early.start = i64::MIN;
    assert!(early.to_attribute_value_map().is_none());
}

#[test]
fn attributes_on_given_texts() {
    let map = entry().attributes_with(String::from("then"), String::from("now"));
    assert_eq!(text_of(&map[2].value), "then");
    assert_eq!(text_of(&map[3].value), "now");
    assert_eq!(map.len(), 7);
}

#[test]
fn attribute_constructors() {
    assert_eq!(text_of(&attribute_string(String::from("x y"))), "x y");
    assert_eq!(number_of(&attribute_number(0)), "0");
    assert_eq!(number_of(&attribute_number(65_535)), "65535");
}

#[test]
fn header_values_are_text_where_they_can_be() {
    assert_eq!(text_of(&header_attribute(&b"a b\tc~".to_vec())), "a b\tc~");
    assert_eq!(text_of(&header_attribute(&Vec::new())), "");
    for bytes in [vec![b'a', 127], vec![31], vec![b'\n'], vec![200, b'a']] {
        match header_attribute(&bytes) {
            AttributeValue::B(kept) => assert_eq!(kept, bytes),
            _ => panic!("bytes were expected"),
        }
    }
}

#[test]
fn upsert_replaces_or_appends() {
    let mut entries: Vec<Attribute> = Vec::new();
    upsert(&mut entries, "a", attribute_number(1));
    upsert(&mut entries, "b", attribute_number(2));
    upsert(&mut entries, "a", attribute_number(3));
    assert_eq!(entries.len(), 2);
    assert_eq!(entries[0].name, "a");
    assert_eq!(number_of(&entries[0].value), "3");
    assert_eq!(number_of(&entries[1].value), "2");
}

#[test]
fn log_entry_of_a_record() {
    let mut record = RequestRecord::new(7, 1_000, "GET", "/x", "{  }");
    assert!(LogEntry::from_record(&record, Vec::new()).is_none());
    record.set_response(200, 2_500_999, Some(42));
    let entry = LogEntry::from_record(&record, Vec::new()).unwrap();
    assert_eq!(entry.id, 7);
    assert_eq!(entry.status_code, 200);
    assert_eq!(entry.start, 1_000);
    assert_eq!(entry.end, 3_500);
    assert_eq!(entry.response_size, Some(42));
    assert_eq!(entry.uri, "/x");
    let mut late = RequestRecord::new(7, i64::MAX - 1, "GET", "/x", "{  }");
    late.set_response(200, u64::MAX, None);
    assert_eq!(LogEntry::from_record(&late, Vec::new()).unwrap().end, i64::MAX);
}

#[test]
fn record_phases() {
    let mut record = RequestRecord::new(7, 1_000, "GET", "/x", "{  }");
    record.set_response(301, 10, None);
    record.set_finish_time(20);
    let copy = record.snapshot();
    assert_eq!(copy.status_code, Some(301));
    assert_eq!(copy.response_latency, Some(10));
    assert_eq!(copy.response_size, None);
    assert_eq!(copy.finish_latency, Some(20));
    assert_eq!(copy.method, "GET");
    assert_eq!(copy.headers_snapshot, "{  }");
}

#[test]
fn headers_as_one_line() {
    let headers = vec![
        (String::from("Accept"), String::from("*/*")),
        (String::from("X-Quote"), String::from("a\"b\\c")),
        (String::from("Host"), String::from("trangar.com")),
    ];
    assert_eq!(
        Headers::from_request(&headers).0,
        "{ \"Accept\": \"*/*\", \"X-Quote\": \"a\\\"b\\\\c\", \"Host\": \"trangar.com\" }"
    );
    assert_eq!(Headers::from_request(&Vec::new()).0, "{  }");
    assert_eq!(
        Headers::from_request(&vec![(String::from("a"), String::from("b"))]).0,
        "{ \"a\": \"b\" }"
    );
}

#[test]
fn active_navigation_entry() {
    let root = Header::new("/");
    assert_eq!(root.active("/"), "active");
    assert_eq!(root.active("/blog"), "");
    let blog = Header::new("/blog/some-post");
    assert_eq!(blog.active("/"), "");
    assert_eq!(blog.active("/blog"), "active");
    assert_eq!(blog.active("/blog/some-post"), "active");
    assert_eq!(blog.active("/blog/some-post/more"), "");
    assert_eq!(blog.active("/resume"), "");
    assert_eq!(blog.active(""), "active");
}

#[test]
fn prefix_of_a_text() {
    assert!(starts_with("/blog", "/bl"));
    assert!(starts_with("/blog", ""));
    assert!(starts_with("/blog", "/blog"));
    assert!(!starts_with("/blog", "/blogs"));
    assert!(!starts_with("/blog", "blog"));
    assert!(starts_with("\u{e9}t\u{e9}", "\u{e9}t"));
    assert!(!starts_with("\u{e9}", "e"));
}

#[test]
fn site_metrics_are_registered_together() {
    let mut registry = MetricsRegistry::new();
    assert!(Metrics::new(&mut registry).is_ok());
    assert_eq!(registry.len(), 5);
    assert_eq!(registry.kind_of("methods"), Some(MetricKind::Counter));
    assert_eq!(registry.kind_of("urls"), Some(MetricKind::Counter));
    assert_eq!(registry.kind_of("response_code"), Some(MetricKind::Counter));
    assert_eq!(registry.kind_of("response_time"), Some(MetricKind::Histogram));
    assert_eq!(registry.kind_of("urls_with_status"), Some(MetricKind::Counter));
    assert!(Metrics::new(&mut registry).is_ok());
    assert_eq!(registry.len(), 5);
}

#[test]
fn site_metrics_report_a_conflict_and_register_nothing() {
    let mut registry = MetricsRegistry::new();
    registry.register("response_time", MetricKind::Counter).unwrap();
    let error = match Metrics::new(&mut registry) {
        Ok(_) => panic!("the name is taken by a counter"),
        Err(error) => error,
    };
    assert_eq!(error.name, "response_time");
    assert_eq!(error.registered, MetricKind::Counter);
    assert_eq!(error.requested, MetricKind::Histogram);
    assert_eq!(registry.len(), 1);
    assert!(Prometheus::new(registry).is_err());
}

#[test]
fn site_metrics_count_methods_and_responses() {
    let mut registry = MetricsRegistry::new();
    let metrics = Metrics::new(&mut registry).unwrap();
    metrics.record_method(&mut registry, "GET");
    metrics.record_method(&mut registry, "POST");
    metrics.record_method(&mut registry, "GET");
    metrics.record_response(&mut registry, "/blog", 200);
    metrics.record_response(&mut registry, "/blog", 404);
    assert_eq!(registry.counter_value("methods", &single_label("method", "all")), 3);
    assert_eq!(registry.counter_value("methods", &single_label("method", "GET")), 2);
    assert_eq!(registry.counter_value("methods", &single_label("method", "POST")), 1);
    assert_eq!(registry.counter_value("urls", &single_label("url", "/blog")), 2);
    assert_eq!(registry.counter_value("response_code", &single_label("code", "404")), 1);
    assert_eq!(
        registry.counter_value(
            "urls_with_status",
            &vec![Label::new("url", "/blog"), Label::new("status", "200")]
        ),
        1
    );
    let mut timer = metrics.start_response_timer();
    assert!(!timer.observed());
    assert!(timer.observe_in(&mut registry, "response_time").is_some());
    assert_eq!(registry.histogram_count("response_time"), 1);
}

#[test]
fn endpoint_contents_of_the_site() {
    let mut site = Prometheus::default();
    assert_eq!(site.registry.len(), 5);
    let mut timer = site.before("GET");
    site.after_with(&mut timer, "/", 200, 7_000);
    site.after_with(&mut timer, "/", 200, 7_000);
    let text = site.get_endpoint_contents();
    assert!(text.starts_with("# HELP methods HTTP methods\n# TYPE methods counter\n"));
    assert!(text.contains("methods{method=\"all\"} 1\nmethods{method=\"GET\"} 1\n"));
    assert!(text.contains("urls{url=\"/\"} 2\n"));
    assert!(text.contains("response_code{code=\"200\"} 2\n"));
    assert!(text.contains("urls_with_status{url=\"/\",status=\"200\"} 2\n"));
    assert!(text.contains("response_time_bucket{le=\"5000\"} 0\n"));
    assert!(text.contains("response_time_bucket{le=\"10000\"} 1\n"));
    assert!(text.contains("response_time_sum 7000\nresponse_time_count 1\n"));
    assert_eq!(text, site.get_endpoint_contents());
    let mut second = site.before("GET");
    let elapsed = site.after(&mut second, "/", 500);
    assert!(second.observed());
    assert!(site
        .get_endpoint_contents()
        .contains(&format!("response_time_sum {}\nresponse_time_count 2\n", 7_000 + elapsed)));
}

#[test]
fn prometheus_takes_a_registry() {
    let mut registry = MetricsRegistry::new();
    registry.register("hits", MetricKind::Counter).unwrap();
    let site = Prometheus::new(registry).unwrap();
    assert_eq!(site.registry.len(), 6);
    assert!(site.get_endpoint_contents().starts_with("# HELP hits \n# TYPE hits counter\n"));
}
