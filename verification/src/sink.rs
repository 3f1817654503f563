//! Where request records go: the three calls of a persistence sink as
//! values, the sink's interface, and two ways of keeping what it is told,
//! both in memory. A row store keeps one row per request and updates it in
//! place; a batch store keeps independent facts, one per request and
//! operation, and merges them when asked.

use crate::ids::{hyphenated, id_text};
use crate::record::{RecordView, RequestRecord};
use crate::sink_laws::lemma_put_distinct;
use crate::text::lemma_first_index;
use vstd::prelude::*;

verus! {

/// The three operations of a sink, in the order of a request's life.
#[derive(Clone, Copy, Debug, PartialEq, Eq, Structural)]
pub enum Operation {
    Create,
    RecordResponse,
    RecordFinish,
}

/// One call to a sink as contracts see it.
pub ghost enum SinkCallView {
    Create { id: u128, received_at: i64, method: Seq<char>, url: Seq<char>, headers: Seq<char> },
    RecordResponse { id: u128, status_code: u16, latency: u64 },
    RecordFinish { id: u128, latency: u64 },
}

impl SinkCallView {
    /// The correlation id the call is about.
    pub open spec fn id(self) -> u128 {
        match self {
            SinkCallView::Create { id, .. } => id,
            SinkCallView::RecordResponse { id, .. } => id,
            SinkCallView::RecordFinish { id, .. } => id,
        }
    }

    /// Which of the three operations the call is.
    pub open spec fn operation(self) -> Operation {
        match self {
            SinkCallView::Create { .. } => Operation::Create,
            SinkCallView::RecordResponse { .. } => Operation::RecordResponse,
            SinkCallView::RecordFinish { .. } => Operation::RecordFinish,
        }
    }

    /// What tells two facts of a batch apart: the id and the operation.
    pub open spec fn key(self) -> (u128, Operation) {
        (self.id(), self.operation())
    }
}

/// One call to a sink, as a value that can be handed to whoever makes it.
#[derive(Debug)]
pub enum SinkCall {
    Create { id: u128, received_at: i64, method: String, url: String, headers: String },
    RecordResponse { id: u128, status_code: u16, latency: u64 },
    RecordFinish { id: u128, latency: u64 },
}

impl View for SinkCall {
    type V = SinkCallView;

    open spec fn view(&self) -> SinkCallView {
        match self {
            SinkCall::Create { id, received_at, method, url, headers } => SinkCallView::Create {
                id: *id,
                received_at: *received_at,
                method: method@,
                url: url@,
                headers: headers@,
            },
            SinkCall::RecordResponse { id, status_code, latency } => SinkCallView::RecordResponse {
                id: *id,
                status_code: *status_code,
                latency: *latency,
            },
            SinkCall::RecordFinish { id, latency } => SinkCallView::RecordFinish {
                id: *id,
                latency: *latency,
            },
        }
    }
}

impl DeepView for SinkCall {
    type V = SinkCallView;

    open spec fn deep_view(&self) -> SinkCallView {
        self@
    }
}

impl SinkCall {
    /// The correlation id the call is about.
    pub fn id(&self) -> (id: u128)
        ensures
            id == self@.id(),
    {
        match self {
            SinkCall::Create { id, .. } => *id,
            SinkCall::RecordResponse { id, .. } => *id,
            SinkCall::RecordFinish { id, .. } => *id,
        }
    }

    /// Which of the three operations the call is.
    pub fn operation(&self) -> (operation: Operation)
        ensures
            operation == self@.operation(),
    {
        match self {
            SinkCall::Create { .. } => Operation::Create,
            SinkCall::RecordResponse { .. } => Operation::RecordResponse,
            SinkCall::RecordFinish { .. } => Operation::RecordFinish,
        }
    }

    /// A copy of the call.
    pub fn snapshot(&self) -> (copy: SinkCall)
        ensures
            copy@ == self@,
    {
        match self {
            SinkCall::Create { id, received_at, method, url, headers } => SinkCall::Create {
                id: *id,
                received_at: *received_at,
                method: method.clone(),
                url: url.clone(),
                headers: headers.clone(),
            },
            SinkCall::RecordResponse { id, status_code, latency } => SinkCall::RecordResponse {
                id: *id,
                status_code: *status_code,
                latency: *latency,
            },
            SinkCall::RecordFinish { id, latency } => SinkCall::RecordFinish {
                id: *id,
                latency: *latency,
            },
        }
    }
}

/// Why a sink could not keep what it was told.
#[derive(Debug)]
pub enum PersistError {
    /// A record with this id exists already.
    DuplicateId,
    /// There is no record with this id to update.
    UnknownId,
    /// The store behind the sink failed; the text is the store's.
    Store(String),
}

/// The destination of request records. The three calls mirror the three
/// phases of a request. A sink may fail on any of them, and nothing is
/// promised of when it does: callers treat every failure as final and go
/// on.
///
/// What a sink does with a call is the sink's to say: `answers` relates the
/// sink before a call, the call, the sink after it and the outcome, and
/// each of the three methods keeps to it for the call that it stands for.
pub trait PersistenceSink: Sized {
    /// Whether the sink, having stood as `self` when `call` came, may stand
    /// as `after` and have answered `done`. A sink that says nothing of
    /// itself may do anything.
    open spec fn answers(&self, call: SinkCallView, after: &Self, done: Result<(), PersistError>) -> bool {
        true
    }

    fn create(&mut self, id: u128, received_at: i64, method: &str, url: &str, headers: &str)
        -> (done: Result<(), PersistError>)
        ensures
            old(self).answers(
                (SinkCallView::Create { id, received_at, method: method@, url: url@, headers: headers@ }),
                final(self),
                done,
            ),
    ;

    fn record_response(&mut self, id: u128, status_code: u16, latency: u64) -> (done: Result<
        (),
        PersistError,
    >)
        ensures
            old(self).answers(
                (SinkCallView::RecordResponse { id, status_code, latency }),
                final(self),
                done,
            ),
    ;

    fn record_finish(&mut self, id: u128, latency: u64) -> (done: Result<(), PersistError>)
        ensures
            old(self).answers((SinkCallView::RecordFinish { id, latency }), final(self), done),
    ;
}

/// Makes `call` on `sink`: the method that stands for the call's operation
/// is called once with what the call holds, and what it answered is
/// returned.
pub fn dispatch<S: PersistenceSink>(sink: &mut S, call: &SinkCall) -> (done: Result<
    (),
    PersistError,
>)
    ensures
        old(sink).answers(call@, final(sink), done),
{
    match call {
        SinkCall::Create { id, received_at, method, url, headers } => sink.create(
            *id,
            *received_at,
            method.as_str(),
            url.as_str(),
            headers.as_str(),
        ),
        SinkCall::RecordResponse { id, status_code, latency } => sink.record_response(
            *id,
            *status_code,
            *latency,
        ),
        SinkCall::RecordFinish { id, latency } => sink.record_finish(*id, *latency),
    }
}

/// The name of an operation, as it stands in a log line.
pub open spec fn operation_name(operation: Operation) -> Seq<char> {
    match operation {
        Operation::Create => "create"@,
        Operation::RecordResponse => "record_response"@,
        Operation::RecordFinish => "record_finish"@,
    }
}

/// Why a call failed, in words.
pub open spec fn reason(error: PersistError) -> Seq<char> {
    match error {
        PersistError::DuplicateId => "a record with this id exists"@,
        PersistError::UnknownId => "no record with this id"@,
        PersistError::Store(text) => text@,
    }
}

/// The log line of a failed call: the operation, the correlation id and
/// the reason.
pub open spec fn failure_line(call: SinkCallView, reason: Seq<char>) -> Seq<char> {
    "telemetry: "@ + operation_name(call.operation()) + " for "@ + hyphenated(call.id())
        + " failed: "@ + reason
}

/// What is left of an outcome once it is taken off the request's path:
/// nothing of a success, the log line of a failure.
pub open spec fn absorbed(call: SinkCallView, outcome: Result<(), PersistError>) -> Option<
    Seq<char>,
> {
    match outcome {
        Ok(_) => None,
        Err(error) => Some(failure_line(call, reason(error))),
    }
}

/// Takes the outcome of `call` off the request's path: a success needs
/// nothing more, a failure becomes a log line and goes no further.
pub fn absorb(call: &SinkCall, outcome: Result<(), PersistError>) -> (line: Option<String>)
    ensures
        line.deep_view() == absorbed(call@, outcome),
{
    match outcome {
        Ok(_) => None,
        Err(error) => {
            let mut text = String::from_str("telemetry: ");
            match call.operation() {
                Operation::Create => text.append("create"),
                Operation::RecordResponse => text.append("record_response"),
                Operation::RecordFinish => text.append("record_finish"),
            }
            text.append(" for ");
            let id = id_text(call.id());
            text.append(id.as_str());
            text.append(" failed: ");
            match &error {
                PersistError::DuplicateId => text.append("a record with this id exists"),
                PersistError::UnknownId => text.append("no record with this id"),
                PersistError::Store(why) => text.append(why.as_str()),
            }
            assert(text@ =~= failure_line(call@, reason(error)));
            Some(text)
        },
    }
}

/// Makes `call` on `sink` and absorbs the outcome: the sink is called as
/// `dispatch` calls it, and of what it answered the caller gets nothing
/// for a success and the log line for a failure.
pub fn deliver<S: PersistenceSink>(sink: &mut S, call: &SinkCall) -> (line: Option<String>)
    ensures
        exists|outcome: Result<(), PersistError>|
            #[trigger] old(sink).answers(call@, final(sink), outcome) && line.deep_view()
                == absorbed(call@, outcome),
{
    let outcome = dispatch(sink, call);
    absorb(call, outcome)
}

/// What a row store holds: one row per request, oldest first.
pub ghost struct RowsView {
    pub rows: Seq<RecordView>,
}

impl RowsView {
    /// The ids of the rows, in the rows' order.
    pub open spec fn ids(self) -> Seq<u128> {
        self.rows.map_values(|r: RecordView| r.id)
    }

    /// The row of `id`, if there is one.
    pub open spec fn row(self, id: u128) -> Option<RecordView> {
        match self.ids().index_of_first(id) {
            Some(i) => Some(self.rows[i]),
            None => None,
        }
    }

    /// The rows with one more, for a request that has only been received.
    pub open spec fn create(
        self,
        id: u128,
        received_at: i64,
        method: Seq<char>,
        url: Seq<char>,
        headers: Seq<char>,
    ) -> RowsView {
        RowsView {
            rows: self.rows.push(RecordView::received(id, received_at, method, url, headers)),
        }
    }

    /// No id has two rows.
    pub open spec fn distinct(self) -> bool {
        self.ids().no_duplicates()
    }

    /// The rows with that of `id` replaced by `row`; no change where `id`
    /// has no row.
    pub open spec fn replace(self, id: u128, row: RecordView) -> RowsView {
        match self.ids().index_of_first(id) {
            Some(i) => RowsView { rows: self.rows.update(i, row) },
            None => self,
        }
    }
}

/// The row strategy: one row per request, created by `create` and updated
/// in place by the two later calls, found by its id.
pub struct RowStore {
    rows: Vec<RequestRecord>,
}

impl View for RowStore {
    type V = RowsView;

    closed spec fn view(&self) -> RowsView {
        RowsView { rows: self.rows.deep_view() }
    }
}

impl RowStore {
    /// A store without rows.
    pub fn new() -> (store: RowStore)
        ensures
            store@.rows == Seq::<RecordView>::empty(),
            store@.distinct(),
    {
        let store = RowStore { rows: Vec::new() };
        assert(store@.rows =~= Seq::<RecordView>::empty());
        store
    }

    fn find(&self, id: u128) -> (at: usize)
        ensures
            self@.ids().index_of_first(id) == (if at < self@.rows.len() {
                Some(at as int)
            } else {
                None::<int>
            }),
            at <= self.rows@.len(),
            self.rows@.len() == self@.rows.len(),
            at < self.rows@.len() ==> self.rows@[at as int].id == id,
    {
        let mut i: usize = 0;
        while i < self.rows.len()
            invariant
                i <= self.rows@.len(),
                forall|j: int| 0 <= j < i ==> self@.ids()[j] != id,
            decreases self.rows.len() - i,
        {
            if self.rows[i].id == id {
                proof {
                    lemma_first_index(self@.ids(), id, i as int);
                }
                return i;
            }
            i = i + 1;
        }
        proof {
            lemma_first_index(self@.ids(), id, i as int);
        }
        i
    }

    /// The number of rows.
    pub fn len(&self) -> (n: usize)
        ensures
            n == self@.rows.len(),
    {
        self.rows.len()
    }

    /// A copy of the row of `id`, if there is one.
    pub fn get(&self, id: u128) -> (row: Option<RequestRecord>)
        ensures
            row.deep_view() == self@.row(id),
    {
        let at: usize = self.find(id);
        if at < self.rows.len() {
            Some(self.rows[at].snapshot())
        } else {
            None
        }
    }
}

impl PersistenceSink for RowStore {
    /// A row store answers by its rows alone. A creation fails exactly where
    /// the id has a row, and adds the row otherwise; an update fails
    /// exactly where the id has no row, and writes into the row otherwise.
    /// A call that fails changes nothing.
    open spec fn answers(&self, call: SinkCallView, after: &Self, done: Result<(), PersistError>) -> bool {
        match call {
            SinkCallView::Create { id, received_at, method, url, headers } => {
                &&& done is Err <==> self@.row(id) is Some
                &&& done matches Err(e) ==> e is DuplicateId && after@ == self@
                &&& done is Ok ==> after@ == self@.create(id, received_at, method, url, headers)
            },
            SinkCallView::RecordResponse { id, status_code, latency } => {
                &&& done is Err <==> self@.row(id) is None
                &&& done matches Err(e) ==> e is UnknownId && after@ == self@
                &&& done is Ok ==> after@ == self@.replace(
                    id,
                    RecordView {
                        status_code: Some(status_code),
                        response_latency: Some(latency),
                        ..self@.row(id)->0
                    },
                )
            },
            SinkCallView::RecordFinish { id, latency } => {
                &&& done is Err <==> self@.row(id) is None
                &&& done matches Err(e) ==> e is UnknownId && after@ == self@
                &&& done is Ok ==> after@ == self@.replace(id, self@.row(id)->0.finished(latency))
            },
        }
    }

    /// Adds the row of a new request. An id that has a row already is
    /// refused, and nothing changes.
    fn create(&mut self, id: u128, received_at: i64, method: &str, url: &str, headers: &str)
        -> (done: Result<(), PersistError>)
        ensures
            done is Err <==> old(self)@.row(id) is Some,
            done matches Err(e) ==> e is DuplicateId && final(self)@ == old(self)@,
            done is Ok ==> final(self)@ == old(self)@.create(id, received_at, method@, url@, headers@),
            old(self)@.distinct() ==> final(self)@.distinct(),
    {
        let at: usize = self.find(id);
        if at < self.rows.len() {
            Err(PersistError::DuplicateId)
        } else {
            self.rows.push(RequestRecord::new(id, received_at, method, url, headers));
            assert(final(self)@.rows =~= old(self)@.create(
                id,
                received_at,
                method@,
                url@,
                headers@,
            ).rows);
            proof {
                old(self)@.ids().index_of_first_ensures(id);
                assert(final(self)@.ids() =~= old(self)@.ids().push(id));
            }
            Ok(())
        }
    }

    /// Writes status and latency into the row of `id`. An id without a row
    /// is refused, and nothing changes.
    fn record_response(&mut self, id: u128, status_code: u16, latency: u64) -> (done: Result<
        (),
        PersistError,
    >)
        ensures
            done is Err <==> old(self)@.row(id) is None,
            done matches Err(e) ==> e is UnknownId && final(self)@ == old(self)@,
            done is Ok ==> final(self)@ == old(self)@.replace(
                id,
                RecordView {
                    status_code: Some(status_code),
                    response_latency: Some(latency),
                    ..old(self)@.row(id)->0
                },
            ),
            old(self)@.distinct() ==> final(self)@.distinct(),
    {
        let at: usize = self.find(id);
        if at < self.rows.len() {
            self.rows[at].status_code = Some(status_code);
            self.rows[at].response_latency = Some(latency);
            assert(final(self)@.rows =~= old(self)@.replace(
                id,
                RecordView {
                    status_code: Some(status_code),
                    response_latency: Some(latency),
                    ..old(self)@.row(id)->0
                },
            ).rows);
            assert(final(self)@.ids() =~= old(self)@.ids());
            Ok(())
        } else {
            Err(PersistError::UnknownId)
        }
    }

    /// Writes the finish latency into the row of `id`. An id without a row
    /// is refused, and nothing changes.
    fn record_finish(&mut self, id: u128, latency: u64) -> (done: Result<(), PersistError>)
        ensures
            done is Err <==> old(self)@.row(id) is None,
            done matches Err(e) ==> e is UnknownId && final(self)@ == old(self)@,
            done is Ok ==> final(self)@ == old(self)@.replace(
                id,
                old(self)@.row(id)->0.finished(latency),
            ),
            old(self)@.distinct() ==> final(self)@.distinct(),
    {
        let at: usize = self.find(id);
        if at < self.rows.len() {
            self.rows[at].finish_latency = Some(latency);
            assert(final(self)@.rows =~= old(self)@.replace(
                id,
                old(self)@.row(id)->0.finished(latency),
            ).rows);
            assert(final(self)@.ids() =~= old(self)@.ids());
            Ok(())
        } else {
            Err(PersistError::UnknownId)
        }
    }
}

/// What a batch store holds: facts in the order they first came, at most
/// one per id and operation.
pub ghost struct FactsView {
    pub facts: Seq<SinkCallView>,
}

impl FactsView {
    /// The keys of the facts, in the facts' order.
    pub open spec fn keys(self) -> Seq<(u128, Operation)> {
        self.facts.map_values(|f: SinkCallView| f.key())
    }

    /// The fact kept for `id` and `operation`, if there is one.
    pub open spec fn fact(self, id: u128, operation: Operation) -> Option<SinkCallView> {
        match self.keys().index_of_first((id, operation)) {
            Some(i) => Some(self.facts[i]),
            None => None,
        }
    }

    /// The facts after `fact` has come: it takes the place of the fact with
    /// its key, so that the last writer wins, or is added at the end.
    pub open spec fn put(self, fact: SinkCallView) -> FactsView {
        match self.keys().index_of_first(fact.key()) {
            Some(i) => FactsView { facts: self.facts.update(i, fact) },
            None => FactsView { facts: self.facts.push(fact) },
        }
    }

    /// The record that the facts of `id` add up to. There is none until the
    /// request's creation has come; what the later calls tell is filled in
    /// where they have come, in whatever order.
    pub open spec fn merged(self, id: u128) -> Option<RecordView> {
        match self.fact(id, Operation::Create) {
            Some(SinkCallView::Create { received_at, method, url, headers, .. }) => {
                let received = RecordView::received(id, received_at, method, url, headers);
                let responded = match self.fact(id, Operation::RecordResponse) {
                    Some(SinkCallView::RecordResponse { status_code, latency, .. }) => RecordView {
                        status_code: Some(status_code),
                        response_latency: Some(latency),
                        ..received
                    },
                    _ => received,
                };
                Some(
                    match self.fact(id, Operation::RecordFinish) {
                        Some(SinkCallView::RecordFinish { latency, .. }) => responded.finished(
                            latency,
                        ),
                        _ => responded,
                    },
                )
            },
            _ => None,
        }
    }

    /// No key has two facts.
    pub open spec fn distinct(self) -> bool {
        self.keys().no_duplicates()
    }
}

/// The batch strategy: nothing is updated in place. Each call is kept as a
/// fact of its own under the request's id and the operation, so a call
/// that comes twice, or before an earlier one, does no harm. The facts are
/// merged into records, or handed out for one write, when asked.
pub struct BatchStore {
    facts: Vec<SinkCall>,
}

impl View for BatchStore {
    type V = FactsView;

    closed spec fn view(&self) -> FactsView {
        FactsView { facts: self.facts.deep_view() }
    }
}

impl BatchStore {
    /// A store without facts.
    pub fn new() -> (store: BatchStore)
        ensures
            store@.facts == Seq::<SinkCallView>::empty(),
            store@.distinct(),
    {
        let store = BatchStore { facts: Vec::new() };
        assert(store@.facts =~= Seq::<SinkCallView>::empty());
        store
    }

    fn find(&self, id: u128, operation: Operation) -> (at: usize)
        ensures
            self@.keys().index_of_first((id, operation)) == (if at < self@.facts.len() {
                Some(at as int)
            } else {
                None::<int>
            }),
            at <= self.facts@.len(),
            self.facts@.len() == self@.facts.len(),
            at < self.facts@.len() ==> self.facts@[at as int]@.key() == (id, operation),
    {
        let mut i: usize = 0;
        while i < self.facts.len()
            invariant
                i <= self.facts@.len(),
                forall|j: int| 0 <= j < i ==> self@.keys()[j] != (id, operation),
            decreases self.facts.len() - i,
        {
            if self.facts[i].id() == id && self.facts[i].operation() == operation {
                proof {
                    lemma_first_index(self@.keys(), (id, operation), i as int);
                }
                return i;
            }
            i = i + 1;
        }
        proof {
            lemma_first_index(self@.keys(), (id, operation), i as int);
        }
        i
    }

    /// Keeps `fact`, in place of the one with its id and operation if there
    /// is one.
    pub fn put(&mut self, fact: SinkCall)
        ensures
            final(self)@ == old(self)@.put(fact@),
            old(self)@.distinct() ==> final(self)@.distinct(),
    {
        proof {
            if old(self)@.distinct() {
                lemma_put_distinct(old(self)@, fact@);
            }
        }
        let at: usize = self.find(fact.id(), fact.operation());
        if at < self.facts.len() {
            self.facts[at] = fact;
            assert(final(self)@.facts =~= old(self)@.put(fact@).facts);
        } else {
            self.facts.push(fact);
            assert(final(self)@.facts =~= old(self)@.put(fact@).facts);
        }
    }

    /// The number of facts kept.
    pub fn len(&self) -> (n: usize)
        ensures
            n == self@.facts.len(),
    {
        self.facts.len()
    }

    /// The record that the facts of `id` add up to, if its creation has
    /// come.
    pub fn merged(&self, id: u128) -> (record: Option<RequestRecord>)
        ensures
            record.deep_view() == self@.merged(id),
    {
        let created: usize = self.find(id, Operation::Create);
        if created >= self.facts.len() {
            return None;
        }
        let mut record = match &self.facts[created] {
            SinkCall::Create { received_at, method, url, headers, .. } => RequestRecord::new(
                id,
                *received_at,
                method.as_str(),
                url.as_str(),
                headers.as_str(),
            ),
            _ => {
                return None;
            },
        };
        let responded: usize = self.find(id, Operation::RecordResponse);
        if responded < self.facts.len() {
            match &self.facts[responded] {
                SinkCall::RecordResponse { status_code, latency, .. } => {
                    record.status_code = Some(*status_code);
                    record.response_latency = Some(*latency);
                },
                _ => {},
            }
        }
        let finished: usize = self.find(id, Operation::RecordFinish);
        if finished < self.facts.len() {
            match &self.facts[finished] {
                SinkCall::RecordFinish { latency, .. } => {
                    record.set_finish_time(*latency);
                },
                _ => {},
            }
        }
        Some(record)
    }

    /// Hands out every fact kept, oldest first, and keeps none: what one
    /// write to an append-only store takes.
    pub fn drain(&mut self) -> (facts: Vec<SinkCall>)
        ensures
            facts.deep_view() == old(self)@.facts,
            final(self)@.facts == Seq::<SinkCallView>::empty(),
    {
        let mut facts: Vec<SinkCall> = Vec::new();
        std::mem::swap(&mut facts, &mut self.facts);
        assert(final(self)@.facts =~= Seq::<SinkCallView>::empty());
        facts
    }
}

impl PersistenceSink for BatchStore {
    /// A batch store never refuses: it keeps the call as a fact.
    open spec fn answers(&self, call: SinkCallView, after: &Self, done: Result<(), PersistError>) -> bool {
        done is Ok && after@ == self@.put(call)
    }

    /// Keeps the creation of a request as a fact. A batch store never
    /// refuses.
    fn create(&mut self, id: u128, received_at: i64, method: &str, url: &str, headers: &str)
        -> (done: Result<(), PersistError>)
        ensures
            done is Ok,
            final(self)@ == old(self)@.put(
                SinkCallView::Create { id, received_at, method: method@, url: url@, headers: headers@ },
            ),
    {
        self.put(
            SinkCall::Create {
                id,
                received_at,
                method: String::from_str(method),
                url: String::from_str(url),
                headers: String::from_str(headers),
            },
        );
        Ok(())
    }

    /// Keeps status and latency of a response as a fact.
    fn record_response(&mut self, id: u128, status_code: u16, latency: u64) -> (done: Result<
        (),
        PersistError,
    >)
        ensures
            done is Ok,
            final(self)@ == old(self)@.put(SinkCallView::RecordResponse { id, status_code, latency }),
    {
        self.put(SinkCall::RecordResponse { id, status_code, latency });
        Ok(())
    }

    /// Keeps the finish latency as a fact.
    fn record_finish(&mut self, id: u128, latency: u64) -> (done: Result<(), PersistError>)
        ensures
            done is Ok,
            final(self)@ == old(self)@.put(SinkCallView::RecordFinish { id, latency }),
    {
        self.put(SinkCall::RecordFinish { id, latency });
        Ok(())
    }
}

} // verus!
