//! What holds of the middleware over a whole request and over any run of
//! requests: which calls are due and in what order, that a request which
//! opted out leaves no trace, and what the registry's counts add up to.

use crate::metrics::{
    saturating_succ, size_uppers, CounterView, HistogramView, LabelSet, MetricKind, MetricView,
    RegistryView,
};
use crate::middleware::{
    all_responses, lemma_names_differ, response_code, response_latency, response_size,
    status_labels, ContextView, OptOutPolicy, Phase, RequestView, TelemetryMiddleware,
};
use crate::registry_laws::{
    held, lemma_counter_increment, lemma_increment, lemma_observe, lemma_register,
};
use crate::sink::SinkCallView;
use crate::text::{decimal, digit_char};
use vstd::prelude::*;

verus! {

/// A numeral has at least one digit, and its last digit is that of the
/// ones.
pub proof fn lemma_decimal_last(n: nat)
    ensures
        decimal(n).len() >= 1,
        decimal(n).last() == digit_char(n % 10),
    decreases n,
{
    if n >= 10 {
        lemma_decimal_last(n / 10);
    }
}

/// Two numbers with the same numeral are the same number.
pub proof fn lemma_decimal_injective(a: nat, b: nat)
    requires
        decimal(a) == decimal(b),
    ensures
        a == b,
    decreases a,
{
    lemma_decimal_last(a);
    lemma_decimal_last(b);
    assert(a % 10 == b % 10);
    if a >= 10 && b >= 10 {
        assert(decimal(a).drop_last() =~= decimal(a / 10));
        assert(decimal(b).drop_last() =~= decimal(b / 10));
        lemma_decimal_injective(a / 10, b / 10);
    } else if a >= 10 {
        lemma_decimal_last(a / 10);
    } else if b >= 10 {
        lemma_decimal_last(b / 10);
    }
}

/// The label set of a status is never the one that counts every response,
/// and two statuses share a label set only when they are the same.
pub proof fn lemma_status_labels(x: u16, y: u16)
    ensures
        status_labels(x) != all_responses(),
        status_labels(x) == status_labels(y) <==> x == y,
{
    lemma_decimal_last(x as nat);
    reveal_strlit("all");
    assert("all"@.last() == 'l');
    assert(status_labels(x)[0].1 == decimal(x as nat));
    assert(all_responses()[0].1 == "all"@);
    if status_labels(x) == status_labels(y) {
        assert(status_labels(y)[0].1 == decimal(y as nat));
        lemma_decimal_injective(x as nat, y as nat);
    }
}

/// A request that did not opt out, whatever the policy, gives rise to
/// exactly one creation, one response record and one finish record, in
/// that order and all under its own id: each hook is in order only after
/// the one before it, hands out its one call, and has none left to hand
/// out afterwards.
pub proof fn lemma_one_call_per_phase(
    policy: OptOutPolicy,
    request: RequestView,
    id: u128,
    received_at: i64,
    status_code: u16,
    size: Option<usize>,
    response_latency: u64,
    finish_latency: u64,
)
    requires
        !request.opt_out,
    ensures
        ({
            let started = ContextView::started(policy, request, id, received_at);
            let responded = started.respond(status_code, size, response_latency);
            let finished = responded.finish(finish_latency);
            &&& ContextView::create_call(policy, request, id, received_at) == Some(
                SinkCallView::Create {
                    id,
                    received_at,
                    method: request.method,
                    url: request.url,
                    headers: request.headers,
                },
            )
            &&& started.awaits_response() && !started.awaits_finish()
            &&& started.finish_call(finish_latency) is None
            &&& started.response_call(status_code, response_latency) == Some(
                SinkCallView::RecordResponse { id, status_code, latency: response_latency },
            )
            &&& responded.awaits_finish() && !responded.awaits_response()
            &&& responded.response_call(status_code, response_latency) is None
            &&& responded.finish_call(finish_latency) == Some(
                SinkCallView::RecordFinish { id, latency: finish_latency },
            )
            &&& finished.at(Phase::Finished)
            &&& !finished.awaits_response() && !finished.awaits_finish()
            &&& finished.response_call(status_code, response_latency) is None
            &&& finished.finish_call(finish_latency) is None
            &&& finished.id() == id
        }),
{
}

/// Under the policy that suppresses both, a request that opted out leaves
/// no trace: its context is the untracked one at every hook, no call is
/// ever due for it, and the registry is the same after its response as
/// before.
pub proof fn lemma_opt_out_leaves_no_trace(
    request: RequestView,
    id: u128,
    received_at: i64,
    registry: RegistryView,
    status_code: u16,
    size: Option<usize>,
    response_latency: u64,
    finish_latency: u64,
)
    requires
        request.opt_out,
    ensures
        ({
            let policy = OptOutPolicy::SuppressBoth;
            let started = ContextView::started(policy, request, id, received_at);
            let responded = started.respond(status_code, size, response_latency);
            let finished = responded.finish(finish_latency);
            &&& started is Untracked && responded is Untracked && finished is Untracked
            &&& ContextView::create_call(policy, request, id, received_at) is None
            &&& started.response_call(status_code, response_latency) is None
            &&& responded.finish_call(finish_latency) is None
            &&& started.response_metrics(registry, status_code, size, response_latency)
                == registry
            &&& started.abandon() is Untracked
        }),
{
}

/// Under any policy, a request that opted out is spared what the policy
/// names: where the policy suppresses persistence no call is ever due for
/// it, and where the policy suppresses metrics its response leaves the
/// registry as it was.
pub proof fn lemma_opt_out_by_policy(
    policy: OptOutPolicy,
    request: RequestView,
    id: u128,
    received_at: i64,
    registry: RegistryView,
    status_code: u16,
    size: Option<usize>,
    response_latency: u64,
    finish_latency: u64,
)
    requires
        request.opt_out,
    ensures
        ({
            let started = ContextView::started(policy, request, id, received_at);
            let responded = started.respond(status_code, size, response_latency);
            &&& policy != OptOutPolicy::SuppressMetrics ==> {
                &&& ContextView::create_call(policy, request, id, received_at) is None
                &&& started.response_call(status_code, response_latency) is None
                &&& responded.finish_call(finish_latency) is None
            }
            &&& policy != OptOutPolicy::SuppressPersistence ==> started.response_metrics(
                registry,
                status_code,
                size,
                response_latency,
            ) == registry
        }),
{
}

/// Under the policy that suppresses both, the requests whose responses are
/// counted are exactly those that did not opt out.
pub proof fn lemma_counted_unless_opted_out(request: RequestView, id: u128, received_at: i64)
    ensures
        ({
            let started = ContextView::started(
                OptOutPolicy::SuppressBoth,
                request,
                id,
                received_at,
            );
            (started.at(Phase::Started) && started.is_counted()) <==> !request.opt_out
        }),
{
}

/// A request only moves forward, and two phases are final: once its
/// response has left, or its client has gone away, no hook is in order any
/// more, none changes the context, none touches the registry and no call
/// is due.
pub proof fn lemma_final_phases(
    context: ContextView,
    registry: RegistryView,
    status_code: u16,
    size: Option<usize>,
    latency: u64,
)
    requires
        context.at(Phase::Finished) || context.at(Phase::Abandoned),
    ensures
        !context.awaits_response() && !context.awaits_finish() && !context.in_flight(),
        context.respond(status_code, size, latency) == context,
        context.finish(latency) == context,
        context.abandon() == context,
        context.response_call(status_code, latency) is None,
        context.finish_call(latency) is None,
        context.response_metrics(registry, status_code, size, latency) == registry,
{
}

/// A request whose response has not left can always be abandoned, and is
/// then in a final phase with its record as it stood.
pub proof fn lemma_abandon(context: ContextView)
    requires
        context.in_flight(),
    ensures
        context.abandon().at(Phase::Abandoned),
        context.abandon()->record == context->record,
{
}

/// Whether the middleware's three metrics are registered in `registry`,
/// each with its kind.
pub open spec fn installed(registry: RegistryView) -> bool {
    &&& registry.kind_of(response_code()) == Some(MetricKind::Counter)
    &&& registry.kind_of(response_latency()) == Some(MetricKind::Histogram)
    &&& registry.kind_of(response_size()) == Some(MetricKind::Histogram)
}

/// Registering the middleware's metrics in a registry where none of the
/// three names is taken by the wrong kind installs them. In a registry that
/// held none of the names, every count starts at zero.
pub proof fn lemma_registered_installs(registry: RegistryView)
    requires
        !TelemetryMiddleware::blocked(registry),
    ensures
        installed(TelemetryMiddleware::registered(registry)),
        registry.families.len() == 0 ==> {
            let fresh = TelemetryMiddleware::registered(registry);
            &&& forall|labels: LabelSet|
                fresh.counter_value(response_code(), labels) == 0
            &&& fresh.histogram_count(response_latency()) == 0
            &&& fresh.histogram_count(response_size()) == 0
        },
{
    lemma_names_differ();
    let m1 = MetricView::fresh(MetricKind::Counter);
    let m2 = MetricView::fresh(MetricKind::Histogram);
    let m3 = MetricView::Histogram(HistogramView::fresh(size_uppers()));
    let r1 = registry.register(response_code(), "Responses by status code"@, m1);
    let r2 = r1.register(response_latency(), "Time to the response in microseconds"@, m2);
    let r3 = r2.register(response_size(), "Size of the response body in bytes"@, m3);
    assert(r3 == TelemetryMiddleware::registered(registry));
    lemma_register(registry, response_code(), "Responses by status code"@, m1, response_code());
    lemma_register(registry, response_code(), "Responses by status code"@, m1, response_latency());
    lemma_register(registry, response_code(), "Responses by status code"@, m1, response_size());
    lemma_register(
        r1,
        response_latency(),
        "Time to the response in microseconds"@,
        m2,
        response_code(),
    );
    lemma_register(
        r1,
        response_latency(),
        "Time to the response in microseconds"@,
        m2,
        response_latency(),
    );
    lemma_register(
        r1,
        response_latency(),
        "Time to the response in microseconds"@,
        m2,
        response_size(),
    );
    lemma_register(r2, response_size(), "Size of the response body in bytes"@, m3, response_code());
    lemma_register(
        r2,
        response_size(),
        "Size of the response body in bytes"@,
        m3,
        response_latency(),
    );
    lemma_register(r2, response_size(), "Size of the response body in bytes"@, m3, response_size());
    if registry.families.len() == 0 {
        registry.names().index_of_first_ensures(response_code());
        registry.names().index_of_first_ensures(response_latency());
        registry.names().index_of_first_ensures(response_size());
        assert(registry.metric(response_code()) is None);
        assert(registry.metric(response_latency()) is None);
        assert(registry.metric(response_size()) is None);
        assert(r3.metric(response_code()) == Some(m1));
        assert forall|labels: LabelSet|
            r3.counter_value(response_code(), labels) == 0 by {
            let c = CounterView { cells: Seq::empty() };
            c.keys().index_of_first_ensures(labels);
        }
    }
}

/// What one response of a counted request does to the counts: one more
/// under `all`, one more under its own status and under no other, one more
/// latency observed, and one more size observed exactly when the size was
/// known. The metrics stay installed.
pub proof fn lemma_response_counts(
    context: ContextView,
    registry: RegistryView,
    status_code: u16,
    size: Option<usize>,
    latency: u64,
    other: u16,
)
    requires
        installed(registry),
        context.at(Phase::Started),
        context.is_counted(),
    ensures
        ({
            let after = context.response_metrics(registry, status_code, size, latency);
            &&& installed(after)
            &&& after.counter_value(response_code(), all_responses()) == saturating_succ(
                registry.counter_value(response_code(), all_responses()),
            )
            &&& after.counter_value(response_code(), status_labels(other)) == (if other
                == status_code {
                saturating_succ(registry.counter_value(response_code(), status_labels(other)))
            } else {
                registry.counter_value(response_code(), status_labels(other))
            })
            &&& after.histogram_count(response_latency()) == saturating_succ(
                registry.histogram_count(response_latency()),
            )
            &&& after.histogram_count(response_size()) == (if size is Some {
                saturating_succ(registry.histogram_count(response_size()))
            } else {
                registry.histogram_count(response_size())
            })
        }),
{
    lemma_names_differ();
    lemma_status_labels(status_code, other);
    lemma_status_labels(other, status_code);
    let r1 = registry.increment(response_code(), all_responses());
    let r2 = r1.increment(response_code(), status_labels(status_code));
    let r3 = r2.observe(response_latency(), latency);
    let c0 = registry.metric(response_code())->0->Counter_0;
    lemma_increment(registry, response_code(), all_responses(), response_code());
    lemma_increment(registry, response_code(), all_responses(), response_latency());
    lemma_increment(registry, response_code(), all_responses(), response_size());
    let c1 = c0.increment(all_responses());
    lemma_counter_increment(c0, all_responses(), all_responses());
    lemma_counter_increment(c0, all_responses(), status_labels(other));
    lemma_increment(r1, response_code(), status_labels(status_code), response_code());
    lemma_increment(r1, response_code(), status_labels(status_code), response_latency());
    lemma_increment(r1, response_code(), status_labels(status_code), response_size());
    lemma_counter_increment(c1, status_labels(status_code), all_responses());
    lemma_counter_increment(c1, status_labels(status_code), status_labels(other));
    lemma_observe(r2, response_latency(), latency, response_code());
    lemma_observe(r2, response_latency(), latency, response_latency());
    lemma_observe(r2, response_latency(), latency, response_size());
    match size {
        Some(bytes) => {
            lemma_observe(r3, response_size(), bytes as u64, response_code());
            lemma_observe(r3, response_size(), bytes as u64, response_latency());
            lemma_observe(r3, response_size(), bytes as u64, response_size());
        },
        None => {},
    }
}

/// One call of the response hook, as the laws below see it.
pub ghost struct ResponseEvent {
    pub context: ContextView,
    pub status_code: u16,
    pub size: Option<usize>,
    pub latency: u64,
}

/// The registry after the response hook has run for each of `events` in
/// turn.
pub open spec fn replay(registry: RegistryView, events: Seq<ResponseEvent>) -> RegistryView
    decreases events.len(),
{
    if events.len() == 0 {
        registry
    } else {
        let last = events.last();
        last.context.response_metrics(
            replay(registry, events.drop_last()),
            last.status_code,
            last.size,
            last.latency,
        )
    }
}

/// How many of `events` are responses of counted requests that `counts`
/// picks.
pub open spec fn tally(events: Seq<ResponseEvent>, counts: spec_fn(ResponseEvent) -> bool) -> nat
    decreases events.len(),
{
    if events.len() == 0 {
        0
    } else {
        tally(events.drop_last(), counts) + (if events.last().context.at(Phase::Started)
            && events.last().context.is_counted() && counts(events.last()) {
            1nat
        } else {
            0nat
        })
    }
}

/// Over any run of requests, opted out or not, in a registry where the
/// middleware's metrics are installed: the count under `all` grows by the
/// number of counted responses, the count under a status by the number of
/// counted responses with exactly that status, the latency histogram by
/// one observation per counted response, and the size histogram by one per
/// counted response of known size. Each stops growing at `u64::MAX`.
pub proof fn lemma_counts_add_up(registry: RegistryView, events: Seq<ResponseEvent>, status: u16)
    requires
        installed(registry),
    ensures
        ({
            let after = replay(registry, events);
            &&& installed(after)
            &&& after.counter_value(response_code(), all_responses()) == held(
                registry.counter_value(response_code(), all_responses()) + tally(
                    events,
                    |e: ResponseEvent| true,
                ),
            )
            &&& after.counter_value(response_code(), status_labels(status)) == held(
                registry.counter_value(response_code(), status_labels(status)) + tally(
                    events,
                    |e: ResponseEvent| e.status_code == status,
                ),
            )
            &&& after.histogram_count(response_latency()) == held(
                registry.histogram_count(response_latency()) + tally(
                    events,
                    |e: ResponseEvent| true,
                ),
            )
            &&& after.histogram_count(response_size()) == held(
                registry.histogram_count(response_size()) + tally(
                    events,
                    |e: ResponseEvent| e.size is Some,
                ),
            )
        }),
    decreases events.len(),
{
    if events.len() > 0 {
        let last = events.last();
        lemma_counts_add_up(registry, events.drop_last(), status);
        if last.context.at(Phase::Started) && last.context.is_counted() {
            lemma_response_counts(
                last.context,
                replay(registry, events.drop_last()),
                last.status_code,
                last.size,
                last.latency,
                status,
            );
        }
    }
}

/// From the start of the process, that is from the middleware's metrics
/// freshly registered in an empty registry: the count under `all` is the
/// number of counted responses, the count under a status is the number of
/// counted responses with exactly that status, and the latency histogram
/// has seen as many observations as `all` counts. Each is held at
/// `u64::MAX`.
pub proof fn lemma_counts_since_start(events: Seq<ResponseEvent>, status: u16)
    ensures
        ({
            let start = TelemetryMiddleware::registered(RegistryView { families: Seq::empty() });
            let now = replay(start, events);
            &&& now.counter_value(response_code(), all_responses()) == held(
                tally(events, |e: ResponseEvent| true) as int,
            )
            &&& now.counter_value(response_code(), status_labels(status)) == held(
                tally(events, |e: ResponseEvent| e.status_code == status) as int,
            )
            &&& now.histogram_count(response_latency()) == now.counter_value(
                response_code(),
                all_responses(),
            )
            &&& now.histogram_count(response_size()) == held(
                tally(events, |e: ResponseEvent| e.size is Some) as int,
            )
        }),
{
    let empty = RegistryView { families: Seq::empty() };
    empty.names().index_of_first_ensures(response_code());
    empty.names().index_of_first_ensures(response_latency());
    empty.names().index_of_first_ensures(response_size());
    lemma_registered_installs(empty);
    lemma_counts_add_up(TelemetryMiddleware::registered(empty), events, status);
}

} // verus!
