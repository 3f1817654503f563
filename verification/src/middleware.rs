//! The telemetry middleware: what happens at the three points of a
//! request's life. At the start a request gets a context, a correlation id
//! and a creation call for the sink, unless it has opted out. When status
//! and headers of the response are ready, the response is counted and
//! timed in the registry and a second call is due. When the last byte has
//! left, a third call is due. The calls are handed out as values; making
//! them, and surviving their failure, is the caller's part.
//!
//! What an opt-out suppresses is a policy of the middleware. By default it
//! is everything: a request that opted out gets the untracked context, and
//! nothing is counted, timed or persisted for it.

use crate::clock::utc_now_millis;
use crate::ids::{is_random_uuid, random_id};
use crate::metrics::{
    single_label, size_buckets, size_uppers, ConflictingMetricKind, HistogramView, LabelSet,
    Metric, MetricHistogram, MetricKind, MetricView, MetricsRegistry, RegistryView,
};
use crate::record::{RecordView, RequestRecord};
use crate::registry_laws::lemma_register;
use crate::sink::{SinkCall, SinkCallView};
use crate::text::{decimal, push_decimal};
use crate::timer::RequestTimer;
use vstd::prelude::*;

verus! {

/// The name of the cookie by which a visitor opts out of telemetry.
pub const OPT_OUT_COOKIE: &'static str = "anonymize_logging";

/// The name of the opt-out cookie, as contracts see it.
pub open spec fn opt_out_cookie() -> Seq<char> {
    "anonymize_logging"@
}

/// The counter of responses, by status code.
pub open spec fn response_code() -> Seq<char> {
    "response_code"@
}

/// The histogram of the time to the response, in microseconds.
pub open spec fn response_latency() -> Seq<char> {
    "response_latency"@
}

/// The histogram of the response sizes known at the response, in bytes.
pub open spec fn response_size() -> Seq<char> {
    "response_size"@
}

/// The label set `code="value"`.
pub open spec fn code_labels(value: Seq<char>) -> LabelSet {
    seq![("code"@, value)]
}

/// The label set under which every response is counted.
pub open spec fn all_responses() -> LabelSet {
    code_labels("all"@)
}

/// The label set under which the responses of one status are counted.
pub open spec fn status_labels(status_code: u16) -> LabelSet {
    code_labels(decimal(status_code as nat))
}

/// What is known of a request when it comes in.
#[derive(Debug)]
pub struct RequestInfo {
    pub method: String,
    pub url: String,
    pub headers: String,
    pub opt_out: bool,
}

/// A request as contracts see it.
pub ghost struct RequestView {
    pub method: Seq<char>,
    pub url: Seq<char>,
    pub headers: Seq<char>,
    pub opt_out: bool,
}

impl View for RequestInfo {
    type V = RequestView;

    open spec fn view(&self) -> RequestView {
        RequestView {
            method: self.method@,
            url: self.url@,
            headers: self.headers@,
            opt_out: self.opt_out,
        }
    }
}

/// Whether one of `cookie_names` is the opt-out cookie.
pub fn has_opt_out_cookie(cookie_names: &Vec<String>) -> (opted_out: bool)
    ensures
        opted_out == cookie_names.deep_view().contains(opt_out_cookie()),
{
    let wanted = String::from_str(OPT_OUT_COOKIE);
    let mut i: usize = 0;
    while i < cookie_names.len()
        invariant
            i <= cookie_names.len(),
            wanted@ == opt_out_cookie(),
            forall|j: int| 0 <= j < i ==> cookie_names.deep_view()[j] != opt_out_cookie(),
        decreases cookie_names.len() - i,
    {
        if cookie_names[i] == wanted {
            assert(cookie_names.deep_view()[i as int] == opt_out_cookie());
            return true;
        }
        i = i + 1;
    }
    false
}

/// What is left out for a request that opted out.
#[derive(Clone, Copy, Debug, PartialEq, Eq, Structural)]
pub enum OptOutPolicy {
    /// Nothing is counted or timed, and nothing is persisted.
    SuppressBoth,
    /// Nothing is counted or timed; the record is persisted.
    SuppressMetrics,
    /// Nothing is persisted; the response is counted and timed.
    SuppressPersistence,
}

impl OptOutPolicy {
    /// Whether the response of a request is counted and timed.
    pub open spec fn counts(self, opt_out: bool) -> bool {
        !opt_out || self == OptOutPolicy::SuppressPersistence
    }

    /// Whether the record of a request is persisted.
    pub open spec fn persists(self, opt_out: bool) -> bool {
        !opt_out || self == OptOutPolicy::SuppressMetrics
    }
}

/// How far a tracked request has come.
#[derive(Clone, Copy, Debug, PartialEq, Eq, Structural)]
pub enum Phase {
    /// Received; the response is not ready.
    Started,
    /// Status and headers of the response are ready.
    Responded,
    /// The whole response has left.
    Finished,
    /// The client went away before the response had left.
    Abandoned,
}

/// A later hook was called for a request that has not been through the
/// hook before it: the middleware is not wired in as it must be.
#[derive(Clone, Copy, Debug, PartialEq, Eq, Structural)]
pub struct MissingTelemetryContext {}

/// The context of a request as contracts see it.
pub ghost enum ContextView {
    Untracked,
    Active { record: RecordView, phase: Phase, counted: bool, persisted: bool },
}

impl ContextView {
    /// The correlation id of a tracked request.
    pub open spec fn id(self) -> u128 {
        match self {
            ContextView::Active { record, .. } => record.id,
            ContextView::Untracked => 0,
        }
    }

    /// The wall-clock reading at which a tracked request was received.
    pub open spec fn received_at(self) -> i64 {
        match self {
            ContextView::Active { record, .. } => record.received_at,
            ContextView::Untracked => 0,
        }
    }

    /// Whether the request is tracked and has come exactly as far as
    /// `phase`.
    pub open spec fn at(self, phase: Phase) -> bool {
        self matches ContextView::Active { phase: p, .. } && p == phase
    }

    /// Whether the response of the request is counted and timed.
    pub open spec fn is_counted(self) -> bool {
        self matches ContextView::Active { counted, .. } && counted
    }

    /// Whether the record of the request is persisted.
    pub open spec fn is_persisted(self) -> bool {
        self matches ContextView::Active { persisted, .. } && persisted
    }

    /// The context that a request gets when it comes in: the untracked one
    /// where the policy leaves nothing to do for it.
    pub open spec fn started(
        policy: OptOutPolicy,
        request: RequestView,
        id: u128,
        received_at: i64,
    ) -> ContextView {
        if !policy.counts(request.opt_out) && !policy.persists(request.opt_out) {
            ContextView::Untracked
        } else {
            ContextView::Active {
                record: RecordView::received(
                    id,
                    received_at,
                    request.method,
                    request.url,
                    request.headers,
                ),
                phase: Phase::Started,
                counted: policy.counts(request.opt_out),
                persisted: policy.persists(request.opt_out),
            }
        }
    }

    /// The call that is due when a request comes in: none for one whose
    /// record is not persisted.
    pub open spec fn create_call(
        policy: OptOutPolicy,
        request: RequestView,
        id: u128,
        received_at: i64,
    ) -> Option<SinkCallView> {
        if !policy.persists(request.opt_out) {
            None
        } else {
            Some(
                SinkCallView::Create {
                    id,
                    received_at,
                    method: request.method,
                    url: request.url,
                    headers: request.headers,
                },
            )
        }
    }

    /// Whether the response hook is in order: the request is untracked, or
    /// it has started and not responded.
    pub open spec fn awaits_response(self) -> bool {
        self is Untracked || self.at(Phase::Started)
    }

    /// The context after the response hook.
    pub open spec fn respond(self, status_code: u16, size: Option<usize>, latency: u64)
        -> ContextView {
        match self {
            ContextView::Active {
                record,
                phase: Phase::Started,
                counted,
                persisted,
            } => ContextView::Active {
                record: record.responded(status_code, latency, size),
                phase: Phase::Responded,
                counted,
                persisted,
            },
            _ => self,
        }
    }

    /// The call that is due at the response hook.
    pub open spec fn response_call(self, status_code: u16, latency: u64) -> Option<SinkCallView> {
        match self {
            ContextView::Active { record, phase: Phase::Started, persisted: true, .. } => Some(
                SinkCallView::RecordResponse { id: record.id, status_code, latency },
            ),
            _ => None,
        }
    }

    /// What the response hook does to a registry: for a request that has
    /// started and is counted, one more response under `all` and one more
    /// under its status, one observation of the latency and, where the size
    /// is known, one of the size. For any other context, nothing.
    pub open spec fn response_metrics(
        self,
        registry: RegistryView,
        status_code: u16,
        size: Option<usize>,
        latency: u64,
    ) -> RegistryView {
        if self.at(Phase::Started) && self.is_counted() {
            let counted = registry.increment(response_code(), all_responses()).increment(
                response_code(),
                status_labels(status_code),
            ).observe(response_latency(), latency);
            match size {
                Some(bytes) => counted.observe(response_size(), bytes as u64),
                None => counted,
            }
        } else {
            registry
        }
    }

    /// Whether the finish hook is in order: the request is untracked, or it
    /// has responded and not finished.
    pub open spec fn awaits_finish(self) -> bool {
        self is Untracked || self.at(Phase::Responded)
    }

    /// The context after the finish hook.
    pub open spec fn finish(self, latency: u64) -> ContextView {
        match self {
            ContextView::Active {
                record,
                phase: Phase::Responded,
                counted,
                persisted,
            } => ContextView::Active {
                record: record.finished(latency),
                phase: Phase::Finished,
                counted,
                persisted,
            },
            _ => self,
        }
    }

    /// The call that is due at the finish hook.
    pub open spec fn finish_call(self, latency: u64) -> Option<SinkCallView> {
        match self {
            ContextView::Active { record, phase: Phase::Responded, persisted: true, .. } => Some(
                SinkCallView::RecordFinish { id: record.id, latency },
            ),
            _ => None,
        }
    }

    /// Whether the request can still be abandoned: it is tracked and its
    /// response has not left.
    pub open spec fn in_flight(self) -> bool {
        self.at(Phase::Started) || self.at(Phase::Responded)
    }

    /// The context after the client went away.
    pub open spec fn abandon(self) -> ContextView {
        match self {
            ContextView::Active {
                record,
                counted,
                persisted,
                ..
            } if self.in_flight() => ContextView::Active {
                record,
                phase: Phase::Abandoned,
                counted,
                persisted,
            },
            _ => self,
        }
    }
}

/// What the middleware keeps of a tracked request between the hooks.
pub struct Tracking {
    record: RequestRecord,
    phase: Phase,
    counted: bool,
    persisted: bool,
    response_timer: RequestTimer,
    finish_timer: RequestTimer,
}

/// What `on_request` returns and the later hooks take: either the mark of a
/// request that is not tracked, or the state of one that is.
pub enum RequestContext {
    Untracked,
    Active(Tracking),
}

impl View for RequestContext {
    type V = ContextView;

    closed spec fn view(&self) -> ContextView {
        match self {
            RequestContext::Untracked => ContextView::Untracked,
            RequestContext::Active(tracking) => ContextView::Active {
                record: tracking.record@,
                phase: tracking.phase,
                counted: tracking.counted,
                persisted: tracking.persisted,
            },
        }
    }
}

impl RequestContext {
    /// Whether the request is tracked.
    pub fn is_tracked(&self) -> (active: bool)
        ensures
            active == (self@ is Active),
    {
        match self {
            RequestContext::Untracked => false,
            RequestContext::Active(_) => true,
        }
    }

    /// Whether the response of the request is counted and timed.
    pub fn counted(&self) -> (counted: bool)
        ensures
            counted == self@.is_counted(),
    {
        match self {
            RequestContext::Untracked => false,
            RequestContext::Active(tracking) => tracking.counted,
        }
    }

    /// Whether the record of the request is persisted.
    pub fn persisted(&self) -> (persisted: bool)
        ensures
            persisted == self@.is_persisted(),
    {
        match self {
            RequestContext::Untracked => false,
            RequestContext::Active(tracking) => tracking.persisted,
        }
    }

    /// How far a tracked request has come.
    pub fn phase(&self) -> (phase: Option<Phase>)
        ensures
            match phase {
                Some(p) => self@.at(p),
                None => self@ is Untracked,
            },
    {
        match self {
            RequestContext::Untracked => None,
            RequestContext::Active(tracking) => Some(tracking.phase),
        }
    }

    /// A copy of the record of a tracked request as it stands.
    pub fn record(&self) -> (record: Option<RequestRecord>)
        ensures
            match record {
                Some(r) => self@ is Active && self@->record == r@,
                None => self@ is Untracked,
            },
    {
        match self {
            RequestContext::Untracked => None,
            RequestContext::Active(tracking) => Some(tracking.record.snapshot()),
        }
    }
}

/// The middleware. It holds its policy and nothing else: the state of a
/// request is in its context, the counts are in the registry.
pub struct TelemetryMiddleware {
    policy: OptOutPolicy,
}

impl TelemetryMiddleware {
    /// What the middleware leaves out for a request that opted out.
    pub closed spec fn policy(&self) -> OptOutPolicy {
        self.policy
    }

    /// What the middleware leaves out for a request that opted out.
    pub fn opt_out_policy(&self) -> (policy: OptOutPolicy)
        ensures
            policy == self.policy(),
    {
        self.policy
    }

    /// The registry after the middleware's three metrics are registered.
    pub open spec fn registered(registry: RegistryView) -> RegistryView {
        registry.register(
            response_code(),
            "Responses by status code"@,
            MetricView::fresh(MetricKind::Counter),
        ).register(
            response_latency(),
            "Time to the response in microseconds"@,
            MetricView::fresh(MetricKind::Histogram),
        ).register(
            response_size(),
            "Size of the response body in bytes"@,
            MetricView::Histogram(HistogramView::fresh(size_uppers())),
        )
    }

    /// Whether one of the middleware's names is taken by a metric of the
    /// wrong kind.
    pub open spec fn blocked(registry: RegistryView) -> bool {
        ||| registry.conflicts(response_code(), MetricKind::Counter)
        ||| registry.conflicts(response_latency(), MetricKind::Histogram)
        ||| registry.conflicts(response_size(), MetricKind::Histogram)
    }

    /// A middleware that suppresses everything for a request that opted
    /// out, with its metrics registered as `with_policy` does.
    pub fn new(registry: &mut MetricsRegistry) -> (made: Result<
        TelemetryMiddleware,
        ConflictingMetricKind,
    >)
        ensures
            made is Err <==> Self::blocked(old(registry)@),
            made matches Ok(middleware) ==> middleware.policy() == OptOutPolicy::SuppressBoth
                && final(registry)@ == Self::registered(old(registry)@),
            made matches Err(e) ==> final(registry)@ == old(registry)@ && old(registry)@.conflicts(
                e.name@,
                e.requested,
            ) && old(registry)@.kind_of(e.name@) == Some(e.registered),
            old(registry)@.wf() ==> final(registry)@.wf(),
    {
        Self::with_policy(registry, OptOutPolicy::SuppressBoth)
    }

    /// Registers the middleware's metrics in `registry`: the counter
    /// `response_code` and the histograms `response_latency` and
    /// `response_size`. Where one of the names is taken by a metric of the
    /// wrong kind, nothing is registered and one such name is reported.
    pub fn with_policy(registry: &mut MetricsRegistry, policy: OptOutPolicy) -> (made: Result<
        TelemetryMiddleware,
        ConflictingMetricKind,
    >)
        ensures
            made is Err <==> Self::blocked(old(registry)@),
            made matches Ok(middleware) ==> middleware.policy() == policy && final(registry)@
                == Self::registered(old(registry)@),
            made matches Err(e) ==> final(registry)@ == old(registry)@ && old(registry)@.conflicts(
                e.name@,
                e.requested,
            ) && old(registry)@.kind_of(e.name@) == Some(e.registered),
            old(registry)@.wf() ==> final(registry)@.wf(),
    {
        proof {
            lemma_names_differ();
        }
        registry.check("response_code", MetricKind::Counter)?;
        registry.check("response_latency", MetricKind::Histogram)?;
        registry.check("response_size", MetricKind::Histogram)?;
        let ghost r0 = registry@;
        registry.register_metric(
            "response_code",
            "Responses by status code",
            Metric::fresh(MetricKind::Counter),
        ).unwrap();
        let ghost r1 = registry@;
        proof {
            lemma_register(
                r0,
                response_code(),
                "Responses by status code"@,
                MetricView::fresh(MetricKind::Counter),
                response_latency(),
            );
        }
        registry.register_metric(
            "response_latency",
            "Time to the response in microseconds",
            Metric::fresh(MetricKind::Histogram),
        ).unwrap();
        let ghost r2 = registry@;
        proof {
            lemma_register(
                r0,
                response_code(),
                "Responses by status code"@,
                MetricView::fresh(MetricKind::Counter),
                response_size(),
            );
            lemma_register(
                r1,
                response_latency(),
                "Time to the response in microseconds"@,
                MetricView::fresh(MetricKind::Histogram),
                response_size(),
            );
        }
        let sizes = Metric::Histogram(MetricHistogram::with_buckets(size_buckets()).unwrap());
        registry.register_metric(
            "response_size",
            "Size of the response body in bytes",
            sizes,
        ).unwrap();
        Ok(TelemetryMiddleware { policy })
    }

    /// The first hook, on a given id and wall-clock reading. A request for
    /// which the policy leaves nothing to do gets the untracked context and
    /// no call. Any other gets a context with a fresh record, and the
    /// creation call for the sink where its record is persisted.
    pub fn begin(&self, request: &RequestInfo, id: u128, received_at: i64) -> (out: (
        RequestContext,
        Option<SinkCall>,
    ))
        ensures
            out.0@ == ContextView::started(self.policy(), request@, id, received_at),
            out.1.deep_view() == ContextView::create_call(
                self.policy(),
                request@,
                id,
                received_at,
            ),
    {
        let counted: bool = !request.opt_out || self.policy == OptOutPolicy::SuppressPersistence;
        let persisted: bool = !request.opt_out || self.policy == OptOutPolicy::SuppressMetrics;
        if !counted && !persisted {
            return (RequestContext::Untracked, None);
        }
        let record = RequestRecord::new(
            id,
            received_at,
            request.method.as_str(),
            request.url.as_str(),
            request.headers.as_str(),
        );
        let call = if persisted {
            Some(
                SinkCall::Create {
                    id,
                    received_at,
                    method: request.method.clone(),
                    url: request.url.clone(),
                    headers: request.headers.clone(),
                },
            )
        } else {
            None
        };
        let tracking = Tracking {
            record,
            phase: Phase::Started,
            counted,
            persisted,
            response_timer: RequestTimer::start(),
            finish_timer: RequestTimer::start(),
        };
        (RequestContext::Active(tracking), call)
    }

    /// The first hook. It draws a correlation id and reads the wall clock,
    /// and does with them what `begin` does. A request that gets the
    /// untracked context gets no id and no reading.
    pub fn on_request(&self, request: &RequestInfo) -> (out: (RequestContext, Option<SinkCall>))
        ensures
            out.0@ == ContextView::started(
                self.policy(),
                request@,
                out.0@.id(),
                out.0@.received_at(),
            ),
            out.1.deep_view() == ContextView::create_call(
                self.policy(),
                request@,
                out.0@.id(),
                out.0@.received_at(),
            ),
            out.0@ is Active ==> is_random_uuid(out.0@.id()),
    {
        if request.opt_out && self.policy == OptOutPolicy::SuppressBoth {
            (RequestContext::Untracked, None)
        } else {
            let id: u128 = random_id();
            let received_at: i64 = utc_now_millis();
            self.begin(request, id, received_at)
        }
    }

    /// The second hook, on a given latency. For a request that has started
    /// it counts and times the response in `registry`, fills in the record
    /// and returns the call that records the response. For an untracked
    /// request it does nothing. For a tracked request in any other phase it
    /// does nothing and reports the missing context.
    pub fn respond(
        &self,
        context: &mut RequestContext,
        registry: &mut MetricsRegistry,
        status_code: u16,
        size: Option<usize>,
        latency: u64,
    ) -> (due: Result<Option<SinkCall>, MissingTelemetryContext>)
        ensures
            due is Ok <==> old(context)@.awaits_response(),
            final(context)@ == old(context)@.respond(status_code, size, latency),
            final(registry)@ == old(context)@.response_metrics(
                old(registry)@,
                status_code,
                size,
                latency,
            ),
            due matches Ok(call) ==> call.deep_view() == old(context)@.response_call(
                status_code,
                latency,
            ),
            old(registry)@.wf() ==> final(registry)@.wf(),
    {
        match context {
            RequestContext::Untracked => Ok(None),
            RequestContext::Active(tracking) => {
                if tracking.phase != Phase::Started {
                    return Err(MissingTelemetryContext {  });
                }
                if tracking.counted {
                    registry.increment("response_code", single_label("code", "all"));
                    let mut code = String::new();
                    push_decimal(&mut code, status_code as u64);
                    assert(code@ =~= decimal(status_code as nat));
                    registry.increment("response_code", single_label("code", code.as_str()));
                    registry.observe("response_latency", latency);
                    if let Some(bytes) = size {
                        registry.observe("response_size", bytes as u64);
                    }
                }
                tracking.record.set_response(status_code, latency, size);
                tracking.phase = Phase::Responded;
                if tracking.persisted {
                    Ok(
                        Some(
                            SinkCall::RecordResponse { id: tracking.record.id, status_code, latency },
                        ),
                    )
                } else {
                    Ok(None)
                }
            },
        }
    }

    /// The second hook. It reads the time since the request came in and
    /// does with it what `respond` does.
    pub fn on_response_ready(
        &self,
        context: &mut RequestContext,
        registry: &mut MetricsRegistry,
        status_code: u16,
        size: Option<usize>,
    ) -> (due: Result<Option<SinkCall>, MissingTelemetryContext>)
        ensures
            due is Ok <==> old(context)@.awaits_response(),
            old(context)@.at(Phase::Started) ==> {
                &&& final(context)@ matches ContextView::Active { record, .. }
                &&& record.response_latency matches Some(latency)
                &&& final(context)@ == old(context)@.respond(status_code, size, latency)
                &&& final(registry)@ == old(context)@.response_metrics(
                    old(registry)@,
                    status_code,
                    size,
                    latency,
                )
                &&& due matches Ok(call) && call.deep_view() == old(context)@.response_call(
                    status_code,
                    latency,
                )
            },
            !old(context)@.at(Phase::Started) ==> {
                &&& final(context)@ == old(context)@
                &&& final(registry)@ == old(registry)@
                &&& due matches Ok(call) ==> call is None
            },
            old(registry)@.wf() ==> final(registry)@.wf(),
    {
        let latency: u64 = match context {
            RequestContext::Untracked => 0,
            RequestContext::Active(tracking) => tracking.response_timer.elapsed(),
        };
        self.respond(context, registry, status_code, size, latency)
    }

    /// The third hook, on a given latency. For a request that has responded
    /// it fills in the record and returns the call that records the
    /// finish. For an untracked request it does nothing. For a tracked
    /// request in any other phase it does nothing and reports the missing
    /// context.
    pub fn finish(&self, context: &mut RequestContext, latency: u64) -> (due: Result<
        Option<SinkCall>,
        MissingTelemetryContext,
    >)
        ensures
            due is Ok <==> old(context)@.awaits_finish(),
            final(context)@ == old(context)@.finish(latency),
            due matches Ok(call) ==> call.deep_view() == old(context)@.finish_call(latency),
    {
        match context {
            RequestContext::Untracked => Ok(None),
            RequestContext::Active(tracking) => {
                if tracking.phase != Phase::Responded {
                    return Err(MissingTelemetryContext {  });
                }
                tracking.record.set_finish_time(latency);
                tracking.phase = Phase::Finished;
                if tracking.persisted {
                    Ok(Some(SinkCall::RecordFinish { id: tracking.record.id, latency }))
                } else {
                    Ok(None)
                }
            },
        }
    }

    /// The third hook. It reads the time since the request came in and does
    /// with it what `finish` does.
    pub fn on_finished(&self, context: &mut RequestContext) -> (due: Result<
        Option<SinkCall>,
        MissingTelemetryContext,
    >)
        ensures
            due is Ok <==> old(context)@.awaits_finish(),
            old(context)@.at(Phase::Responded) ==> {
                &&& final(context)@ matches ContextView::Active { record, .. }
                &&& record.finish_latency matches Some(latency)
                &&& final(context)@ == old(context)@.finish(latency)
                &&& due matches Ok(call) && call.deep_view() == old(context)@.finish_call(latency)
            },
            !old(context)@.at(Phase::Responded) ==> {
                &&& final(context)@ == old(context)@
                &&& due matches Ok(call) ==> call is None
            },
    {
        let latency: u64 = match context {
            RequestContext::Untracked => 0,
            RequestContext::Active(tracking) => tracking.finish_timer.elapsed(),
        };
        self.finish(context, latency)
    }

    /// The client went away. A request whose response had not left is
    /// marked abandoned, and its record, as far as it was filled, is handed
    /// out to be flushed. Any other context is left as it is.
    pub fn on_abandoned(&self, context: &mut RequestContext) -> (partial: Option<RequestRecord>)
        ensures
            final(context)@ == old(context)@.abandon(),
            partial is Some <==> old(context)@.in_flight(),
            partial matches Some(record) ==> record@ == old(context)@->record,
    {
        match context {
            RequestContext::Untracked => None,
            RequestContext::Active(tracking) => {
                if tracking.phase == Phase::Started || tracking.phase == Phase::Responded {
                    tracking.phase = Phase::Abandoned;
                    Some(tracking.record.snapshot())
                } else {
                    None
                }
            },
        }
    }
}

/// The three names of the middleware's metrics differ from one another.
pub proof fn lemma_names_differ()
    ensures
        response_code() != response_latency(),
        response_code() != response_size(),
        response_latency() != response_size(),
{
    reveal_strlit("response_code");
    reveal_strlit("response_latency");
    reveal_strlit("response_size");
    assert(response_code().len() == 13);
    assert(response_latency().len() == 16);
    assert(response_size().len() == 13);
    assert(response_code()[9] == 'c');
    assert(response_size()[9] == 's');
}

} // verus!
