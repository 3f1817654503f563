//! The site's own metrics: requests by method, by URL and by URL and
//! status, responses by status, and the response time.

use crate::exposition::{exposition, MetricsEndpoint};
use crate::metrics::{
    single_label, ConflictingMetricKind, Label, Metric, MetricKind, MetricView, MetricsRegistry,
    RegistryView,
};
use crate::registry_laws::lemma_register;
use crate::text::{decimal, push_decimal};
use crate::timer::RequestTimer;
use vstd::prelude::*;

verus! {

/// The counter of requests by method.
pub open spec fn methods() -> Seq<char> {
    "methods"@
}

/// The counter of requests by URL.
pub open spec fn urls() -> Seq<char> {
    "urls"@
}

/// The counter of responses by status code.
pub open spec fn response_code() -> Seq<char> {
    "response_code"@
}

/// The histogram of response times, in microseconds.
pub open spec fn response_time() -> Seq<char> {
    "response_time"@
}

/// The counter of requests by URL and status.
pub open spec fn urls_with_status() -> Seq<char> {
    "urls_with_status"@
}

/// The five names differ from one another.
pub proof fn lemma_names_differ()
    ensures
        methods() != urls(),
        methods() != response_code(),
        methods() != response_time(),
        methods() != urls_with_status(),
        urls() != response_code(),
        urls() != response_time(),
        urls() != urls_with_status(),
        response_code() != response_time(),
        response_code() != urls_with_status(),
        response_time() != urls_with_status(),
{
    reveal_strlit("methods");
    reveal_strlit("urls");
    reveal_strlit("response_code");
    reveal_strlit("response_time");
    reveal_strlit("urls_with_status");
    assert(methods().len() == 7);
    assert(urls().len() == 4);
    assert(response_code().len() == 13);
    assert(response_time().len() == 13);
    assert(urls_with_status().len() == 16);
    assert(response_code()[9] == 'c');
    assert(response_time()[9] == 't');
}

/// The site's metrics in a registry. The value holds nothing: the counts
/// are in the registry, under the five names.
pub struct Metrics {}

impl Metrics {
    /// The registry after the five metrics are registered.
    pub open spec fn registered(registry: RegistryView) -> RegistryView {
        registry.register(
            methods(),
            "HTTP methods"@,
            MetricView::fresh(MetricKind::Counter),
        ).register(urls(), "URLs requested"@, MetricView::fresh(MetricKind::Counter)).register(
            response_code(),
            "HTTP response code"@,
            MetricView::fresh(MetricKind::Counter),
        ).register(
            response_time(),
            "Response times in microseconds"@,
            MetricView::fresh(MetricKind::Histogram),
        ).register(
            urls_with_status(),
            "URLs with status"@,
            MetricView::fresh(MetricKind::Counter),
        )
    }

    /// Whether one of the five names is taken by a metric of the wrong
    /// kind.
    pub open spec fn blocked(registry: RegistryView) -> bool {
        ||| registry.conflicts(methods(), MetricKind::Counter)
        ||| registry.conflicts(urls(), MetricKind::Counter)
        ||| registry.conflicts(response_code(), MetricKind::Counter)
        ||| registry.conflicts(response_time(), MetricKind::Histogram)
        ||| registry.conflicts(urls_with_status(), MetricKind::Counter)
    }

    /// Registers the five metrics in `registry`. Where one of the names is
    /// taken by a metric of the wrong kind, nothing is registered and one
    /// such name is reported.
    pub fn new(registry: &mut MetricsRegistry) -> (made: Result<Metrics, ConflictingMetricKind>)
        ensures
            made is Err <==> Self::blocked(old(registry)@),
            made is Ok ==> final(registry)@ == Self::registered(old(registry)@),
            made matches Err(e) ==> final(registry)@ == old(registry)@ && old(registry)@.conflicts(
                e.name@,
                e.requested,
            ) && old(registry)@.kind_of(e.name@) == Some(e.registered),
            old(registry)@.wf() ==> final(registry)@.wf(),
    {
        proof {
            lemma_names_differ();
        }
        registry.check("methods", MetricKind::Counter)?;
        registry.check("urls", MetricKind::Counter)?;
        registry.check("response_code", MetricKind::Counter)?;
        registry.check("response_time", MetricKind::Histogram)?;
        registry.check("urls_with_status", MetricKind::Counter)?;
        let ghost counter = MetricView::fresh(MetricKind::Counter);
        let ghost histogram = MetricView::fresh(MetricKind::Histogram);
        let ghost r0 = registry@;
        let ghost r1 = r0.register(methods(), "HTTP methods"@, counter);
        let ghost r2 = r1.register(urls(), "URLs requested"@, counter);
        let ghost r3 = r2.register(response_code(), "HTTP response code"@, counter);
        let ghost r4 = r3.register(response_time(), "Response times in microseconds"@, histogram);
        proof {
            lemma_register(r0, methods(), "HTTP methods"@, counter, urls());
            lemma_register(r0, methods(), "HTTP methods"@, counter, response_code());
            lemma_register(r0, methods(), "HTTP methods"@, counter, response_time());
            lemma_register(r0, methods(), "HTTP methods"@, counter, urls_with_status());
            lemma_register(r1, urls(), "URLs requested"@, counter, response_code());
            lemma_register(r1, urls(), "URLs requested"@, counter, response_time());
            lemma_register(r1, urls(), "URLs requested"@, counter, urls_with_status());
            lemma_register(r2, response_code(), "HTTP response code"@, counter, response_time());
            lemma_register(
                r2,
                response_code(),
                "HTTP response code"@,
                counter,
                urls_with_status(),
            );
            lemma_register(
                r3,
                response_time(),
                "Response times in microseconds"@,
                histogram,
                urls_with_status(),
            );
        }
        registry.register_metric(
            "methods",
            "HTTP methods",
            Metric::fresh(MetricKind::Counter),
        ).unwrap();
        registry.register_metric(
            "urls",
            "URLs requested",
            Metric::fresh(MetricKind::Counter),
        ).unwrap();
        registry.register_metric(
            "response_code",
            "HTTP response code",
            Metric::fresh(MetricKind::Counter),
        ).unwrap();
        registry.register_metric(
            "response_time",
            "Response times in microseconds",
            Metric::fresh(MetricKind::Histogram),
        ).unwrap();
        registry.register_metric(
            "urls_with_status",
            "URLs with status",
            Metric::fresh(MetricKind::Counter),
        ).unwrap();
        Ok(Metrics {  })
    }

    /// What `record_method` does to a registry: one more request under
    /// `all` and one more under the method.
    pub open spec fn method_recorded(registry: RegistryView, method: Seq<char>) -> RegistryView {
        registry.increment(methods(), seq![("method"@, "all"@)]).increment(
            methods(),
            seq![("method"@, method)],
        )
    }

    /// Counts a request under `all` and under its method.
    pub fn record_method(&self, registry: &mut MetricsRegistry, method: &str)
        ensures
            final(registry)@ == Self::method_recorded(old(registry)@, method@),
            old(registry)@.wf() ==> final(registry)@.wf(),
    {
        registry.increment("methods", single_label("method", "all"));
        registry.increment("methods", single_label("method", method));
    }

    /// Starts the stopwatch of a response. The stopwatch reports into the
    /// histogram `response_time` when it is told to observe there.
    pub fn start_response_timer(&self) -> (timer: RequestTimer)
        ensures
            !timer.is_observed(),
    {
        RequestTimer::start()
    }

    /// What `record_response` does to a registry: one more request under
    /// the URL, one more response under the status, and one more under the
    /// pair of both.
    pub open spec fn response_recorded(registry: RegistryView, url: Seq<char>, code: u16)
        -> RegistryView {
        registry.increment(urls(), seq![("url"@, url)]).increment(
            response_code(),
            seq![("code"@, decimal(code as nat))],
        ).increment(
            urls_with_status(),
            seq![("url"@, url), ("status"@, decimal(code as nat))],
        )
    }

    /// Counts a response under its URL, under its status and under both.
    pub fn record_response(&self, registry: &mut MetricsRegistry, url: &str, code: u16)
        ensures
            final(registry)@ == Self::response_recorded(old(registry)@, url@, code),
            old(registry)@.wf() ==> final(registry)@.wf(),
    {
        let mut status = String::new();
        push_decimal(&mut status, code as u64);
        assert(status@ =~= decimal(code as nat));
        registry.increment("urls", single_label("url", url));
        registry.increment("response_code", single_label("code", status.as_str()));
        let mut both: Vec<Label> = Vec::new();
        both.push(Label::new("url", url));
        both.push(Label::new("status", status.as_str()));
        assert(both.deep_view() =~= seq![("url"@, url@), ("status"@, decimal(code as nat))]);
        registry.increment("urls_with_status", both);
    }
}

/// A registry together with the site's metrics in it.
pub struct Prometheus {
    pub registry: MetricsRegistry,
    pub metrics: Metrics,
}

impl Prometheus {
    /// Takes `registry` and registers the site's metrics in it, as
    /// `Metrics::new` does; the registry is dropped where that fails.
    pub fn new(registry: MetricsRegistry) -> (made: Result<Prometheus, ConflictingMetricKind>)
        ensures
            made is Err <==> Metrics::blocked(registry@),
            made matches Ok(p) ==> p.registry@ == Metrics::registered(registry@),
            made matches Err(e) ==> registry@.conflicts(e.name@, e.requested) && registry@.kind_of(
                e.name@,
            ) == Some(e.registered),
    {
        let mut registry = registry;
        match Metrics::new(&mut registry) {
            Ok(metrics) => Ok(Prometheus { registry, metrics }),
            Err(e) => Err(e),
        }
    }

    /// The text of the scrape endpoint: the exposition of the registry as
    /// it stands.
    pub fn get_endpoint_contents(&self) -> (text: String)
        ensures
            text@ == exposition(self.registry@.families),
    {
        MetricsEndpoint::render(&self.registry)
    }

    /// What is done before a request is handled: the method is counted and
    /// the stopwatch of the response is started.
    pub fn before(&mut self, method: &str) -> (timer: RequestTimer)
        ensures
            final(self).registry@ == Metrics::method_recorded(old(self).registry@, method@),
            !timer.is_observed(),
    {
        self.metrics.record_method(&mut self.registry, method);
        self.metrics.start_response_timer()
    }

    /// What is done after a request is handled, on a given response time:
    /// the response is counted, and the time is reported unless `timer`
    /// has reported before.
    pub fn after_with(&mut self, timer: &mut RequestTimer, url: &str, code: u16, elapsed: u64)
        ensures
            final(timer).is_observed(),
            final(self).registry@ == (if old(timer).is_observed() {
                Metrics::response_recorded(old(self).registry@, url@, code)
            } else {
                Metrics::response_recorded(old(self).registry@, url@, code).observe(
                    response_time(),
                    elapsed,
                )
            }),
    {
        self.metrics.record_response(&mut self.registry, url, code);
        timer.record_in(&mut self.registry, "response_time", elapsed);
    }

    /// What is done after a request is handled: the response is counted,
    /// and the time since `timer` was started is reported unless it has
    /// reported before.
    pub fn after(&mut self, timer: &mut RequestTimer, url: &str, code: u16) -> (elapsed: u64)
        ensures
            final(timer).is_observed(),
            final(self).registry@ == (if old(timer).is_observed() {
                Metrics::response_recorded(old(self).registry@, url@, code)
            } else {
                Metrics::response_recorded(old(self).registry@, url@, code).observe(
                    response_time(),
                    elapsed,
                )
            }),
    {
        let elapsed: u64 = timer.elapsed();
        self.after_with(timer, url, code, elapsed);
        elapsed
    }
}

impl Default for Prometheus {
    /// A registry of its own with the site's metrics in it.
    fn default() -> (made: Prometheus)
        ensures
            made.registry@ == Metrics::registered(RegistryView { families: Seq::empty() }),
            made.registry@.wf(),
    {
        let mut registry = MetricsRegistry::new();
        proof {
            let empty = registry@;
            assert(empty == RegistryView { families: Seq::empty() });
            empty.names().index_of_first_ensures(methods());
            empty.names().index_of_first_ensures(urls());
            empty.names().index_of_first_ensures(response_code());
            empty.names().index_of_first_ensures(response_time());
            empty.names().index_of_first_ensures(urls_with_status());
        }
        let metrics = Metrics::new(&mut registry).unwrap();
        Prometheus { registry, metrics }
    }
}

} // verus!
