use trangarcom::body::{get_response_length, ResponseBody};
use trangarcom::exposition::MetricsEndpoint;
use trangarcom::metrics::{single_label, MetricKind, MetricsRegistry};
use trangarcom::middleware::{
    has_opt_out_cookie, MissingTelemetryContext, OptOutPolicy, Phase, RequestInfo,
    TelemetryMiddleware, OPT_OUT_COOKIE,
};
use trangarcom::sink::{
    absorb, deliver, dispatch, BatchStore, PersistError, PersistenceSink, RowStore, SinkCall,
};

fn request(url: &str, opt_out: bool) -> RequestInfo {
    RequestInfo {
        method: String::from("GET"),
        url: String::from(url),
        headers: String::from("{ \"accept\": \"*/*\" }"),
        opt_out,
    }
}

fn installed() -> (TelemetryMiddleware, MetricsRegistry) {
    let mut registry = MetricsRegistry::new();
    let middleware = TelemetryMiddleware::new(&mut registry).unwrap();
    (middleware, registry)
}

struct FailingSink {
    calls: Vec<String>,
}

impl PersistenceSink for FailingSink {
    fn create(
        &mut self,
        id: u128,
        _received_at: i64,
        _method: &str,
        _url: &str,
        _headers: &str,
    ) -> Result<(), PersistError> {
        self.calls.push(format!("create {}", id));
        Err(PersistError::Store(String::from("store is down")))
    }

    fn record_response(
        &mut self,
        id: u128,
        status_code: u16,
        _latency: u64,
    ) -> Result<(), PersistError> {
        self.calls.push(format!("record_response {} {}", id, status_code));
        Err(PersistError::Store(String::from("store is down")))
    }

    fn record_finish(&mut self, id: u128, _latency: u64) -> Result<(), PersistError> {
        self.calls.push(format!("record_finish {}", id));
        Err(PersistError::Store(String::from("store is down")))
    }
}

#[test]
fn new_registers_the_three_metrics() {
    let (_, registry) = installed();
    assert_eq!(registry.len(), 3);
    assert_eq!(registry.kind_of("response_code"), Some(MetricKind::Counter));
    assert_eq!(registry.kind_of("response_latency"), Some(MetricKind::Histogram));
    assert_eq!(registry.kind_of("response_size"), Some(MetricKind::Histogram));
    assert_eq!(registry.counter_value("response_code", &single_label("code", "all")), 0);
}

#[test]
fn new_twice_changes_nothing() {
    let (_, mut registry) = installed();
    assert!(TelemetryMiddleware::new(&mut registry).is_ok());
    assert_eq!(registry.len(), 3);
}

#[test]
fn new_reports_a_conflict_and_registers_nothing() {
    let mut registry = MetricsRegistry::new();
    registry.register("response_size", MetricKind::Counter).unwrap();
    let error = match TelemetryMiddleware::new(&mut registry) {
        Ok(_) => panic!("the name is taken by a counter"),
        Err(error) => error,
    };
    assert_eq!(error.name, "response_size");
    assert_eq!(error.registered, MetricKind::Counter);
    assert_eq!(error.requested, MetricKind::Histogram);
    assert_eq!(registry.len(), 1);
}

#[test]
fn a_request_goes_through_three_calls() {
    let (middleware, mut registry) = installed();
    let mut store = RowStore::new();
    let (mut context, created) = middleware.on_request(&request("/", false));
    let created = created.expect("a creation is due");
    let id = created.id();
    match &created {
        SinkCall::Create { method, url, .. } => {
            assert_eq!(url, "/");
            assert_eq!(method, "GET");
        }
        _ => panic!("the first call creates"),
    }
    assert!(dispatch(&mut store, &created).is_ok());

    let responded = middleware
        .on_response_ready(&mut context, &mut registry, 200, Some(512))
        .unwrap()
        .expect("a response record is due");
    let response_latency = match &responded {
        SinkCall::RecordResponse { id: same, status_code, latency } => {
            assert_eq!(*same, id);
            assert_eq!(*status_code, 200);
            *latency
        }
        _ => panic!("the second call records the response"),
    };
    assert!(dispatch(&mut store, &responded).is_ok());

    let finished = middleware
        .on_finished(&mut context)
        .unwrap()
        .expect("a finish record is due");
    let finish_latency = match &finished {
        SinkCall::RecordFinish { id: same, latency } => {
            assert_eq!(*same, id);
            *latency
        }
        _ => panic!("the third call records the finish"),
    };
    assert!(finish_latency >= response_latency);
    assert!(dispatch(&mut store, &finished).is_ok());

    assert_eq!(context.phase(), Some(Phase::Finished));
    let row = store.get(id).unwrap();
    assert_eq!(row.url, "/");
    assert_eq!(row.status_code, Some(200));
    assert_eq!(row.response_latency, Some(response_latency));
    assert_eq!(row.finish_latency, Some(finish_latency));
    let text = MetricsEndpoint::render(&registry);
    assert!(text.contains("response_code{code=\"200\"} 1\n"));
    assert!(text.contains("response_code{code=\"all\"} 1\n"));
    assert!(text.contains("response_latency_count 1\n"));
    assert!(text.contains("response_size_count 1\n"));
    assert!(text.contains("response_size_sum 512\n"));
}

#[test]
fn an_opted_out_request_leaves_no_trace() {
    let (middleware, mut registry) = installed();
    let store = RowStore::new();
    let before = MetricsEndpoint::render(&registry);
    let (mut context, created) = middleware.on_request(&request("/", true));
    assert!(created.is_none());
    assert!(!context.is_tracked());
    assert!(context.record().is_none());
    assert!(matches!(
        middleware.on_response_ready(&mut context, &mut registry, 200, Some(512)),
        Ok(None)
    ));
    assert!(matches!(middleware.on_finished(&mut context), Ok(None)));
    assert!(middleware.on_abandoned(&mut context).is_none());
    assert_eq!(MetricsEndpoint::render(&registry), before);
    assert_eq!(store.len(), 0);
}

#[test]
fn a_failing_store_does_not_stop_the_hooks() {
    let (middleware, mut registry) = installed();
    let mut sink = FailingSink { calls: Vec::new() };
    let (mut context, created) = middleware.on_request(&request("/blog", false));
    let created = created.unwrap();
    let id = created.id();
    assert!(deliver(&mut sink, &created).unwrap().ends_with(" failed: store is down"));
    let responded = middleware
        .on_response_ready(&mut context, &mut registry, 200, None)
        .unwrap()
        .unwrap();
    assert!(deliver(&mut sink, &responded).is_some());
    let finished = middleware.on_finished(&mut context).unwrap().unwrap();
    assert!(deliver(&mut sink, &finished).is_some());
    assert_eq!(
        sink.calls,
        vec![
            format!("create {}", id),
            format!("record_response {} 200", id),
            format!("record_finish {}", id)
        ]
    );
    assert_eq!(registry.counter_value("response_code", &single_label("code", "200")), 1);
    assert_eq!(registry.histogram_count("response_latency"), 1);
}

#[test]
fn a_streaming_response_has_no_size() {
    let (middleware, mut registry) = installed();
    let (mut context, _) = middleware.on_request(&request("/stream", false));
    let size = get_response_length(&ResponseBody::Streaming);
    assert_eq!(size, None);
    middleware.on_response_ready(&mut context, &mut registry, 200, size).unwrap();
    assert_eq!(registry.histogram_count("response_size"), 0);
    assert_eq!(registry.histogram_count("response_latency"), 1);
    assert_eq!(context.record().unwrap().response_size, None);
}

#[test]
fn overlapping_requests_do_not_interfere() {
    let (middleware, mut registry) = installed();
    let mut store = RowStore::new();
    let (mut first, create_first) = middleware.begin(&request("/a", false), 1, 1_000);
    let (mut second, create_second) = middleware.begin(&request("/b", false), 2, 1_001);
    dispatch(&mut store, &create_first.unwrap()).unwrap();
    dispatch(&mut store, &create_second.unwrap()).unwrap();
    let second_response =
        middleware.respond(&mut second, &mut registry, 404, Some(10), 30).unwrap().unwrap();
    let first_response =
        middleware.respond(&mut first, &mut registry, 200, Some(20), 50).unwrap().unwrap();
    dispatch(&mut store, &second_response).unwrap();
    dispatch(&mut store, &first_response).unwrap();
    let first_finish = middleware.finish(&mut first, 60).unwrap().unwrap();
    let second_finish = middleware.finish(&mut second, 90).unwrap().unwrap();
    dispatch(&mut store, &first_finish).unwrap();
    dispatch(&mut store, &second_finish).unwrap();

    assert_eq!(registry.counter_value("response_code", &single_label("code", "all")), 2);
    assert_eq!(registry.counter_value("response_code", &single_label("code", "200")), 1);
    assert_eq!(registry.counter_value("response_code", &single_label("code", "404")), 1);
    assert_eq!(registry.histogram_count("response_latency"), 2);
    assert_eq!(registry.histogram_count("response_size"), 2);
    assert_eq!(store.len(), 2);
    let a = store.get(1).unwrap();
    let b = store.get(2).unwrap();
    assert_eq!((a.url.as_str(), a.status_code, a.response_latency, a.finish_latency), ("/a", Some(200), Some(50), Some(60)));
    assert_eq!((b.url.as_str(), b.status_code, b.response_latency, b.finish_latency), ("/b", Some(404), Some(30), Some(90)));
}

#[test]
fn begin_fills_the_record_and_the_call() {
    let (middleware, _) = installed();
    let (context, call) = middleware.begin(&request("/x", false), 77, 1_700_000_000_000);
    let record = context.record().unwrap();
    assert_eq!(record.id, 77);
    assert_eq!(record.received_at, 1_700_000_000_000);
    assert_eq!(record.method, "GET");
    assert_eq!(record.url, "/x");
    assert_eq!(record.headers_snapshot, "{ \"accept\": \"*/*\" }");
    assert_eq!(record.status_code, None);
    assert_eq!(record.response_latency, None);
    assert_eq!(record.response_size, None);
    assert_eq!(record.finish_latency, None);
    assert_eq!(context.phase(), Some(Phase::Started));
    match call.unwrap() {
        SinkCall::Create { id, received_at, method, url, headers } => {
            assert_eq!(id, 77);
            assert_eq!(received_at, 1_700_000_000_000);
            assert_eq!(method, "GET");
            assert_eq!(url, "/x");
            assert_eq!(headers, "{ \"accept\": \"*/*\" }");
        }
        _ => panic!("the first call creates"),
    }
}

#[test]
fn respond_and_finish_fill_the_record() {
    let (middleware, mut registry) = installed();
    let (mut context, _) = middleware.begin(&request("/x", false), 77, 0);
    match middleware.respond(&mut context, &mut registry, 503, Some(9), 1234).unwrap().unwrap() {
        SinkCall::RecordResponse { id, status_code, latency } => {
            assert_eq!((id, status_code, latency), (77, 503, 1234));
        }
        _ => panic!("the second call records the response"),
    }
    let record = context.record().unwrap();
    assert_eq!(record.status_code, Some(503));
    assert_eq!(record.response_latency, Some(1234));
    assert_eq!(record.response_size, Some(9));
    assert_eq!(context.phase(), Some(Phase::Responded));
    match middleware.finish(&mut context, 5678).unwrap().unwrap() {
        SinkCall::RecordFinish { id, latency } => assert_eq!((id, latency), (77, 5678)),
        _ => panic!("the third call records the finish"),
    }
    assert_eq!(context.record().unwrap().finish_latency, Some(5678));
    assert_eq!(registry.counter_value("response_code", &single_label("code", "503")), 1);
}

#[test]
fn hooks_out_of_order_report_the_missing_context() {
    let (middleware, mut registry) = installed();
    let (mut context, _) = middleware.begin(&request("/x", false), 77, 0);
    assert_eq!(middleware.finish(&mut context, 5).unwrap_err(), MissingTelemetryContext {});
    assert_eq!(context.phase(), Some(Phase::Started));
    middleware.respond(&mut context, &mut registry, 200, None, 5).unwrap();
    assert!(middleware.respond(&mut context, &mut registry, 200, None, 6).is_err());
    assert!(middleware.on_response_ready(&mut context, &mut registry, 200, None).is_err());
    assert_eq!(registry.counter_value("response_code", &single_label("code", "all")), 1);
    assert_eq!(context.record().unwrap().response_latency, Some(5));
    middleware.finish(&mut context, 7).unwrap();
    assert!(middleware.finish(&mut context, 8).is_err());
    assert!(middleware.on_finished(&mut context).is_err());
    assert_eq!(context.record().unwrap().finish_latency, Some(7));
}

#[test]
fn an_abandoned_request_hands_out_its_record() {
    let (middleware, mut registry) = installed();
    let (mut context, _) = middleware.begin(&request("/x", false), 77, 0);
    middleware.respond(&mut context, &mut registry, 200, None, 5).unwrap();
    let partial = middleware.on_abandoned(&mut context).unwrap();
    assert_eq!(partial.id, 77);
    assert_eq!(partial.status_code, Some(200));
    assert_eq!(partial.finish_latency, None);
    assert_eq!(context.phase(), Some(Phase::Abandoned));
    assert!(middleware.on_abandoned(&mut context).is_none());
    assert!(middleware.finish(&mut context, 9).is_err());
    let (mut done, _) = middleware.begin(&request("/y", false), 78, 0);
    middleware.respond(&mut done, &mut registry, 200, None, 5).unwrap();
    middleware.finish(&mut done, 6).unwrap();
    assert!(middleware.on_abandoned(&mut done).is_none());
    assert_eq!(done.phase(), Some(Phase::Finished));
}

#[test]
fn counts_add_up_over_a_run_of_requests() {
    let (middleware, mut registry) = installed();
    let statuses = [200u16, 404, 200, 500, 200];
    let mut id = 0u128;
    for status in statuses {
        id += 1;
        let (mut context, _) = middleware.begin(&request("/", false), id, 0);
        middleware.respond(&mut context, &mut registry, status, None, 1).unwrap();
        let (mut silent, _) = middleware.begin(&request("/", true), id, 0);
        middleware.respond(&mut silent, &mut registry, status, Some(1), 1).unwrap();
    }
    assert_eq!(registry.counter_value("response_code", &single_label("code", "all")), 5);
    assert_eq!(registry.counter_value("response_code", &single_label("code", "200")), 3);
    assert_eq!(registry.counter_value("response_code", &single_label("code", "404")), 1);
    assert_eq!(registry.counter_value("response_code", &single_label("code", "500")), 1);
    assert_eq!(registry.counter_value("response_code", &single_label("code", "302")), 0);
    assert_eq!(registry.histogram_count("response_latency"), 5);
    assert_eq!(registry.histogram_count("response_size"), 0);
}

#[test]
fn correlation_ids_are_random_version_four_uuids() {
    let (middleware, _) = installed();
    let (first, _) = middleware.on_request(&request("/", false));
    let (second, _) = middleware.on_request(&request("/", false));
    let a = first.record().unwrap().id;
    let b = second.record().unwrap().id;
    assert_ne!(a, b);
    for id in [a, b] {
        assert_eq!((id >> 76) & 0xf, 4);
        assert_eq!((id >> 62) & 0x3, 2);
    }
    assert!(first.record().unwrap().received_at > 1_600_000_000_000);
}

#[test]
fn the_default_policy_suppresses_both() {
    let (middleware, _) = installed();
    assert_eq!(middleware.opt_out_policy(), OptOutPolicy::SuppressBoth);
    let (context, call) = middleware.begin(&request("/", false), 1, 0);
    assert!(context.counted());
    assert!(context.persisted());
    assert!(call.is_some());
    let (context, call) = middleware.begin(&request("/", true), 1, 0);
    assert!(!context.counted());
    assert!(!context.persisted());
    assert!(call.is_none());
}

#[test]
fn a_policy_can_suppress_persistence_only() {
    let mut registry = MetricsRegistry::new();
    let middleware =
        TelemetryMiddleware::with_policy(&mut registry, OptOutPolicy::SuppressPersistence).unwrap();
    let (mut context, call) = middleware.begin(&request("/", true), 1, 0);
    assert!(call.is_none());
    assert!(context.counted());
    assert!(!context.persisted());
    assert!(matches!(middleware.respond(&mut context, &mut registry, 200, Some(3), 9), Ok(None)));
    assert!(matches!(middleware.finish(&mut context, 10), Ok(None)));
    assert_eq!(context.phase(), Some(Phase::Finished));
    assert_eq!(registry.counter_value("response_code", &single_label("code", "all")), 1);
    assert_eq!(registry.counter_value("response_code", &single_label("code", "200")), 1);
    assert_eq!(registry.histogram_count("response_latency"), 1);
    assert_eq!(registry.histogram_count("response_size"), 1);
    let (_, call) = middleware.begin(&request("/", false), 2, 0);
    assert!(call.is_some());
}

#[test]
fn a_policy_can_suppress_metrics_only() {
    let mut registry = MetricsRegistry::new();
    let middleware =
        TelemetryMiddleware::with_policy(&mut registry, OptOutPolicy::SuppressMetrics).unwrap();
    let (mut context, call) = middleware.on_request(&request("/", true));
    let id = call.unwrap().id();
    assert!(!context.counted());
    assert!(context.persisted());
    let responded = middleware.respond(&mut context, &mut registry, 200, Some(3), 9).unwrap();
    assert_eq!(responded.unwrap().id(), id);
    let finished = middleware.finish(&mut context, 10).unwrap();
    assert_eq!(finished.unwrap().id(), id);
    assert_eq!(registry.counter_value("response_code", &single_label("code", "all")), 0);
    assert_eq!(registry.histogram_count("response_latency"), 0);
    assert_eq!(registry.histogram_count("response_size"), 0);
    let (mut counted, _) = middleware.begin(&request("/", false), 2, 0);
    middleware.respond(&mut counted, &mut registry, 200, None, 9).unwrap();
    assert_eq!(registry.counter_value("response_code", &single_label("code", "all")), 1);
}

#[test]
fn the_opt_out_cookie_is_found_by_name() {
    assert_eq!(OPT_OUT_COOKIE, "anonymize_logging");
    assert!(!has_opt_out_cookie(&vec![]));
    assert!(!has_opt_out_cookie(&vec![String::from("session"), String::from("theme")]));
    assert!(has_opt_out_cookie(&vec![String::from("session"), String::from("anonymize_logging")]));
    assert!(!has_opt_out_cookie(&vec![String::from("anonymize_logging2")]));
}

#[test]
fn response_length_by_body() {
    assert_eq!(get_response_length(&ResponseBody::Empty), Some(0));
    assert_eq!(get_response_length(&ResponseBody::Buffered(0)), Some(0));
    assert_eq!(get_response_length(&ResponseBody::Buffered(1234)), Some(1234));
    assert_eq!(get_response_length(&ResponseBody::Streaming), None);
}

#[test]
fn a_failure_becomes_a_log_line() {
    let call = SinkCall::RecordResponse {
        id: 0xa1a2a3a4_b1b2_c1c2_d1d2_d3d4d5d6d7d8,
        status_code: 200,
        latency: 5,
    };
    assert_eq!(absorb(&call, Ok(())), None);
    assert_eq!(
        absorb(&call, Err(PersistError::Store(String::from("timeout")))).unwrap(),
        "telemetry: record_response for a1a2a3a4-b1b2-c1c2-d1d2-d3d4d5d6d7d8 failed: timeout"
    );
    assert_eq!(
        absorb(&call, Err(PersistError::UnknownId)).unwrap(),
        "telemetry: record_response for a1a2a3a4-b1b2-c1c2-d1d2-d3d4d5d6d7d8 failed: no record with this id"
    );
    let create = SinkCall::Create {
        id: 1,
        received_at: 0,
        method: String::new(),
        url: String::new(),
        headers: String::new(),
    };
    assert_eq!(
        absorb(&create, Err(PersistError::DuplicateId)).unwrap(),
        "telemetry: create for 00000000-0000-0000-0000-000000000001 failed: a record with this id exists"
    );
    let finish = SinkCall::RecordFinish { id: 2, latency: 0 };
    assert!(absorb(&finish, Err(PersistError::UnknownId))
        .unwrap()
        .starts_with("telemetry: record_finish for 00000000-0000-0000-0000-000000000002 "));
}

#[test]
fn row_store_keeps_one_row_per_request() {
    let mut store = RowStore::new();
    assert!(matches!(store.record_response(1, 200, 5), Err(PersistError::UnknownId)));
    assert!(matches!(store.record_finish(1, 5), Err(PersistError::UnknownId)));
    assert!(store.create(1, 10, "GET", "/", "{  }").is_ok());
    assert!(matches!(store.create(1, 11, "POST", "/x", "{  }"), Err(PersistError::DuplicateId)));
    assert_eq!(store.len(), 1);
    assert!(store.record_finish(1, 9).is_ok());
    assert!(store.record_response(1, 200, 5).is_ok());
    assert!(store.record_response(1, 201, 6).is_ok());
    let row = store.get(1).unwrap();
    assert_eq!(row.received_at, 10);
    assert_eq!(row.method, "GET");
    assert_eq!(row.status_code, Some(201));
    assert_eq!(row.response_latency, Some(6));
    assert_eq!(row.finish_latency, Some(9));
    assert!(store.get(2).is_none());
}

#[test]
fn batch_store_takes_calls_in_any_order_and_twice() {
    let mut store = BatchStore::new();
    assert!(store.record_finish(1, 9).is_ok());
    assert!(store.merged(1).is_none());
    assert!(store.record_response(1, 200, 5).is_ok());
    assert!(store.create(1, 10, "GET", "/", "{  }").is_ok());
    assert!(store.create(1, 10, "GET", "/", "{  }").is_ok());
    assert!(store.record_response(1, 200, 5).is_ok());
    assert!(store.create(2, 20, "GET", "/b", "{  }").is_ok());
    assert_eq!(store.len(), 4);
    let record = store.merged(1).unwrap();
    assert_eq!(record.id, 1);
    assert_eq!(record.received_at, 10);
    assert_eq!(record.url, "/");
    assert_eq!(record.status_code, Some(200));
    assert_eq!(record.response_latency, Some(5));
    assert_eq!(record.finish_latency, Some(9));
    let partial = store.merged(2).unwrap();
    assert_eq!(partial.status_code, None);
    assert_eq!(partial.finish_latency, None);
    assert!(store.merged(3).is_none());
}

#[test]
fn batch_store_lets_the_last_writer_win() {
    let mut store = BatchStore::new();
    store.create(1, 10, "GET", "/", "{  }").unwrap();
    store.record_response(1, 200, 5).unwrap();
    store.record_response(1, 500, 7).unwrap();
    assert_eq!(store.len(), 2);
    let record = store.merged(1).unwrap();
    assert_eq!(record.status_code, Some(500));
    assert_eq!(record.response_latency, Some(7));
}

#[test]
fn batch_store_hands_out_its_facts_once() {
    let mut store = BatchStore::new();
    store.create(1, 10, "GET", "/", "{  }").unwrap();
    store.record_finish(1, 9).unwrap();
    let facts = store.drain();
    assert_eq!(facts.len(), 2);
    assert!(matches!(facts[0], SinkCall::Create { id: 1, .. }));
    assert!(matches!(facts[1], SinkCall::RecordFinish { id: 1, latency: 9 }));
    assert_eq!(store.len(), 0);
    assert!(store.drain().is_empty());
    assert!(store.merged(1).is_none());
}
