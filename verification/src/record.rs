//! The record of one request, filled in over its three phases.

use vstd::prelude::*;

verus! {

/// A request record as contracts see it.
pub ghost struct RecordView {
    pub id: u128,
    pub received_at: i64,
    pub method: Seq<char>,
    pub url: Seq<char>,
    pub headers_snapshot: Seq<char>,
    pub status_code: Option<u16>,
    pub response_latency: Option<u64>,
    pub response_size: Option<usize>,
    pub finish_latency: Option<u64>,
}

impl RecordView {
    /// The record of a request that has only been received.
    pub open spec fn received(
        id: u128,
        received_at: i64,
        method: Seq<char>,
        url: Seq<char>,
        headers_snapshot: Seq<char>,
    ) -> RecordView {
        RecordView {
            id,
            received_at,
            method,
            url,
            headers_snapshot,
            status_code: None,
            response_latency: None,
            response_size: None,
            finish_latency: None,
        }
    }

    /// The record once status and headers of the response are known.
    pub open spec fn responded(self, status_code: u16, latency: u64, size: Option<usize>)
        -> RecordView {
        RecordView {
            status_code: Some(status_code),
            response_latency: Some(latency),
            response_size: size,
            ..self
        }
    }

    /// The record once the whole response has left.
    pub open spec fn finished(self, latency: u64) -> RecordView {
        RecordView { finish_latency: Some(latency), ..self }
    }
}

/// One inbound request and what is known of its response so far.
///
/// `received_at` is in milliseconds since the Unix epoch, the latencies are
/// in microseconds since the request was received, the size is in bytes.
#[derive(Debug)]
pub struct RequestRecord {
    pub id: u128,
    pub received_at: i64,
    pub method: String,
    pub url: String,
    pub headers_snapshot: String,
    pub status_code: Option<u16>,
    pub response_latency: Option<u64>,
    pub response_size: Option<usize>,
    pub finish_latency: Option<u64>,
}

impl View for RequestRecord {
    type V = RecordView;

    open spec fn view(&self) -> RecordView {
        RecordView {
            id: self.id,
            received_at: self.received_at,
            method: self.method@,
            url: self.url@,
            headers_snapshot: self.headers_snapshot@,
            status_code: self.status_code,
            response_latency: self.response_latency,
            response_size: self.response_size,
            finish_latency: self.finish_latency,
        }
    }
}

impl DeepView for RequestRecord {
    type V = RecordView;

    open spec fn deep_view(&self) -> RecordView {
        self@
    }
}

impl RequestRecord {
    /// The record of a request that has only been received.
    pub fn new(id: u128, received_at: i64, method: &str, url: &str, headers_snapshot: &str) -> (record:
        RequestRecord)
        ensures
            record@ == RecordView::received(id, received_at, method@, url@, headers_snapshot@),
    {
        RequestRecord {
            id,
            received_at,
            method: String::from_str(method),
            url: String::from_str(url),
            headers_snapshot: String::from_str(headers_snapshot),
            status_code: None,
            response_latency: None,
            response_size: None,
            finish_latency: None,
        }
    }

    /// Fills in what the second phase learns.
    pub fn set_response(&mut self, status_code: u16, latency: u64, size: Option<usize>)
        ensures
            final(self)@ == old(self)@.responded(status_code, latency, size),
    {
        self.status_code = Some(status_code);
        self.response_latency = Some(latency);
        self.response_size = size;
    }

    /// Fills in what the third phase learns.
    pub fn set_finish_time(&mut self, latency: u64)
        ensures
            final(self)@ == old(self)@.finished(latency),
    {
        self.finish_latency = Some(latency);
    }

    /// A copy of the record as it stands.
    pub fn snapshot(&self) -> (copy: RequestRecord)
        ensures
            copy@ == self@,
    {
        RequestRecord {
            id: self.id,
            received_at: self.received_at,
            method: self.method.clone(),
            url: self.url.clone(),
            headers_snapshot: self.headers_snapshot.clone(),
            status_code: self.status_code,
            response_latency: self.response_latency,
            response_size: self.response_size,
            finish_latency: self.finish_latency,
        }
    }
}

} // verus!
