//! A finished request as an item of a key-value store: a list of named
//! attributes, each a string, a number, bytes, or a nested list.

use crate::clock::{rfc3339, rfc3339_text};
use crate::ids::{hyphenated, id_text};
use crate::record::RequestRecord;
use crate::text::{decimal, lemma_first_index, push_decimal, str_eq};
use vstd::prelude::*;

verus! {

/// An attribute value as contracts see it.
pub ghost enum AttributeView {
    S(Seq<char>),
    N(Seq<char>),
    B(Seq<u8>),
    M(Seq<(Seq<char>, AttributeView)>),
}

/// The value of one attribute: a string, a number written in decimal,
/// bytes, or a list of named attributes.
#[derive(Debug)]
pub enum AttributeValue {
    S(String),
    N(String),
    B(Vec<u8>),
    M(Vec<Attribute>),
}

/// One named attribute.
#[derive(Debug)]
pub struct Attribute {
    pub name: String,
    pub value: AttributeValue,
}

impl AttributeValue {
    /// The value as contracts see it, nested lists entry by entry.
    pub open spec fn model(&self) -> AttributeView
        decreases self,
    {
        match self {
            AttributeValue::S(text) => AttributeView::S(text@),
            AttributeValue::N(numeral) => AttributeView::N(numeral@),
            AttributeValue::B(bytes) => AttributeView::B(bytes@),
            AttributeValue::M(entries) => AttributeView::M(
                Seq::new(
                    entries@.len(),
                    |i: int|
                        if 0 <= i < entries@.len() {
                            (entries@[i].name@, entries@[i].value.model())
                        } else {
                            (Seq::empty(), AttributeView::S(Seq::empty()))
                        },
                ),
            ),
        }
    }
}

impl View for AttributeValue {
    type V = AttributeView;

    open spec fn view(&self) -> AttributeView {
        self.model()
    }
}

impl DeepView for Attribute {
    type V = (Seq<char>, AttributeView);

    open spec fn deep_view(&self) -> (Seq<char>, AttributeView) {
        (self.name@, self.value@)
    }
}

/// A nested list is seen as the list of its entries.
pub proof fn lemma_nested_view(entries: Vec<Attribute>)
    ensures
        AttributeValue::M(entries)@ == AttributeView::M(entries.deep_view()),
{
    let nested = AttributeValue::M(entries);
    assert(nested@ is M);
    assert(nested@->M_0.len() == entries@.len());
    assert forall|i: int| 0 <= i < entries@.len() implies nested@->M_0[i]
        == entries.deep_view()[i] by {
        assert(entries.deep_view()[i] == entries@[i].deep_view());
    }
    assert(nested@->M_0 =~= entries.deep_view());
}

/// The names of a list of attributes, in order.
pub open spec fn names(entries: Seq<(Seq<char>, AttributeView)>) -> Seq<Seq<char>> {
    entries.map_values(|e: (Seq<char>, AttributeView)| e.0)
}

/// The list after `value` is put under `name`: in place of what the first
/// entry of that name held, or as a new last entry.
pub open spec fn put(
    entries: Seq<(Seq<char>, AttributeView)>,
    name: Seq<char>,
    value: AttributeView,
) -> Seq<(Seq<char>, AttributeView)> {
    match names(entries).index_of_first(name) {
        Some(i) => entries.update(i, (name, value)),
        None => entries.push((name, value)),
    }
}

/// A string attribute.
pub fn attribute_string(text: String) -> (value: AttributeValue)
    ensures
        value@ == AttributeView::S(text@),
{
    AttributeValue::S(text)
}

/// A number attribute: the decimal numeral of `number`.
pub fn attribute_number(number: u64) -> (value: AttributeValue)
    ensures
        value@ == AttributeView::N(decimal(number as nat)),
{
    let mut numeral = String::new();
    push_decimal(&mut numeral, number);
    assert(numeral@ =~= decimal(number as nat));
    AttributeValue::N(numeral)
}

/// Puts `value` under `name` in `entries`, as `put` says.
pub fn upsert(entries: &mut Vec<Attribute>, name: &str, value: AttributeValue)
    ensures
        final(entries).deep_view() == put(old(entries).deep_view(), name@, value@),
{
    let mut i: usize = 0;
    while i < entries.len()
        invariant
            i <= entries.len(),
            *entries == *old(entries),
            forall|j: int| 0 <= j < i ==> names(entries.deep_view())[j] != name@,
        decreases entries.len() - i,
    {
        if str_eq(entries[i].name.as_str(), name) {
            proof {
                lemma_first_index(names(entries.deep_view()), name@, i as int);
            }
            entries[i].value = value;
            assert(final(entries).deep_view() =~= put(old(entries).deep_view(), name@, value@));
            return;
        }
        i = i + 1;
    }
    proof {
        lemma_first_index(names(entries.deep_view()), name@, i as int);
    }
    entries.push(Attribute { name: String::from_str(name), value });
    assert(final(entries).deep_view() =~= put(old(entries).deep_view(), name@, value@));
}

/// Whether a byte of a header value can be shown as text: a printable
/// ASCII character or a tab.
pub open spec fn is_visible_ascii(byte: u8) -> bool {
    32 <= byte < 127 || byte == 9
}

/// Whether every byte of `bytes` can be shown as text.
pub open spec fn all_visible(bytes: Seq<u8>) -> bool {
    forall|i: int| 0 <= i < bytes.len() ==> is_visible_ascii(#[trigger] bytes[i])
}

/// The characters of bytes that are all ASCII.
pub open spec fn ascii_text(bytes: Seq<u8>) -> Seq<char> {
    bytes.map_values(|byte: u8| byte as char)
}

/// A header value as an attribute: a string where all of it can be shown
/// as text, the bytes as they are where some of it cannot.
pub open spec fn header_attribute_view(bytes: Seq<u8>) -> AttributeView {
    if all_visible(bytes) {
        AttributeView::S(ascii_text(bytes))
    } else {
        AttributeView::B(bytes)
    }
}

/// A header value as an attribute.
pub fn header_attribute(bytes: &Vec<u8>) -> (value: AttributeValue)
    ensures
        value@ == header_attribute_view(bytes@),
{
    let mut text = String::new();
    let mut i: usize = 0;
    while i < bytes.len()
        invariant
            i <= bytes.len(),
            text@.len() == i,
            forall|j: int| 0 <= j < i ==> is_visible_ascii(#[trigger] bytes@[j]),
            forall|j: int| 0 <= j < i ==> text@[j] == bytes@[j] as char,
        decreases bytes.len() - i,
    {
        let byte: u8 = bytes[i];
        if !(byte >= 32 && byte < 127 || byte == 9) {
            let mut copy: Vec<u8> = Vec::new();
            let mut k: usize = 0;
            while k < bytes.len()
                invariant
                    k <= bytes.len(),
                    copy@.len() == k,
                    forall|j: int| 0 <= j < k ==> copy@[j] == bytes@[j],
                decreases bytes.len() - k,
            {
                copy.push(bytes[k]);
                k = k + 1;
            }
            assert(copy@ =~= bytes@);
            assert(!is_visible_ascii(bytes@[i as int]));
            return AttributeValue::B(copy);
        }
        text.push(byte as char);
        i = i + 1;
    }
    assert(text@ =~= ascii_text(bytes@));
    AttributeValue::S(text)
}

/// One header of a request: its name and the bytes of its value.
#[derive(Debug)]
pub struct HeaderField {
    pub name: String,
    pub value: Vec<u8>,
}

impl DeepView for HeaderField {
    type V = (Seq<char>, Seq<u8>);

    open spec fn deep_view(&self) -> (Seq<char>, Seq<u8>) {
        (self.name@, self.value@)
    }
}

/// The attributes of the first `n` headers: each header is put under its
/// name in turn, so of two headers with one name the later one stays.
pub open spec fn header_attributes(headers: Seq<(Seq<char>, Seq<u8>)>, n: nat) -> Seq<
    (Seq<char>, AttributeView),
>
    decreases n,
{
    if n == 0 {
        Seq::empty()
    } else {
        put(
            header_attributes(headers, (n - 1) as nat),
            headers[n - 1].0,
            header_attribute_view(headers[n - 1].1),
        )
    }
}

/// A log entry as contracts see it.
pub ghost struct LogEntryView {
    pub id: u128,
    pub status_code: u16,
    pub start: i64,
    pub end: i64,
    pub response_size: Option<usize>,
    pub uri: Seq<char>,
    pub headers: Seq<(Seq<char>, Seq<u8>)>,
}

impl LogEntryView {
    /// The attributes of the entry, given the texts of its two instants:
    /// `id`, `status_code`, `start`, `end` and `uri`, then `response_size`
    /// where the size is known, then `headers`.
    pub open spec fn attributes(self, start_text: Seq<char>, end_text: Seq<char>) -> Seq<
        (Seq<char>, AttributeView),
    > {
        let fixed = seq![
            ("id"@, AttributeView::S(hyphenated(self.id))),
            ("status_code"@, AttributeView::N(decimal(self.status_code as nat))),
            ("start"@, AttributeView::S(start_text)),
            ("end"@, AttributeView::S(end_text)),
            ("uri"@, AttributeView::S(self.uri)),
        ];
        let sized = match self.response_size {
            Some(bytes) => fixed.push(
                ("response_size"@, AttributeView::N(decimal(bytes as nat))),
            ),
            None => fixed,
        };
        sized.push(
            ("headers"@, AttributeView::M(header_attributes(self.headers, self.headers.len()))),
        )
    }

    /// The end of a response that came `latency` microseconds after
    /// `start`: the whole milliseconds are added, and the sum is held at
    /// `i64::MAX`.
    pub open spec fn end_of(start: i64, latency: u64) -> i64 {
        if start + latency / 1000 <= i64::MAX {
            (start + latency / 1000) as i64
        } else {
            i64::MAX
        }
    }
}

/// What is written out of one request once its response is known: the
/// instants are in milliseconds since the Unix epoch.
#[derive(Debug)]
pub struct LogEntry {
    pub id: u128,
    pub status_code: u16,
    pub start: i64,
    pub end: i64,
    pub response_size: Option<usize>,
    pub uri: String,
    pub headers: Vec<HeaderField>,
}

impl View for LogEntry {
    type V = LogEntryView;

    open spec fn view(&self) -> LogEntryView {
        LogEntryView {
            id: self.id,
            status_code: self.status_code,
            start: self.start,
            end: self.end,
            response_size: self.response_size,
            uri: self.uri@,
            headers: self.headers.deep_view(),
        }
    }
}

impl LogEntry {
    /// The entry of a record whose response is known, with the request's
    /// headers. There is none for a record without status or latency.
    pub fn from_record(record: &RequestRecord, headers: Vec<HeaderField>) -> (entry: Option<
        LogEntry,
    >)
        ensures
            entry is Some <==> record@.status_code is Some && record@.response_latency is Some,
            entry matches Some(e) ==> e@ == (LogEntryView {
                id: record@.id,
                status_code: record@.status_code->0,
                start: record@.received_at,
                end: LogEntryView::end_of(record@.received_at, record@.response_latency->0),
                response_size: record@.response_size,
                uri: record@.url,
                headers: headers.deep_view(),
            }),
    {
        match (record.status_code, record.response_latency) {
            (Some(status_code), Some(latency)) => {
                let millis: u64 = latency / 1000;
                let end: i64 = if millis <= i64::MAX as u64 && record.received_at <= i64::MAX - (
                millis as i64) {
                    record.received_at + millis as i64
                } else {
                    i64::MAX
                };
                Some(
                    LogEntry {
                        id: record.id,
                        status_code,
                        start: record.received_at,
                        end,
                        response_size: record.response_size,
                        uri: record.url.clone(),
                        headers,
                    },
                )
            },
            _ => None,
        }
    }

    /// The attributes of the entry, on given texts of its two instants.
    pub fn attributes_with(&self, start_text: String, end_text: String) -> (map: Vec<Attribute>)
        ensures
            map.deep_view() == self@.attributes(start_text@, end_text@),
    {
        let mut map: Vec<Attribute> = Vec::new();
        map.push(
            Attribute { name: String::from_str("id"), value: attribute_string(id_text(self.id)) },
        );
        map.push(
            Attribute {
                name: String::from_str("status_code"),
                value: attribute_number(self.status_code as u64),
            },
        );
        map.push(Attribute { name: String::from_str("start"), value: attribute_string(start_text) });
        map.push(Attribute { name: String::from_str("end"), value: attribute_string(end_text) });
        map.push(
            Attribute { name: String::from_str("uri"), value: attribute_string(self.uri.clone()) },
        );
        if let Some(response_size) = self.response_size {
            map.push(
                Attribute {
                    name: String::from_str("response_size"),
                    value: attribute_number(response_size as u64),
                },
            );
        }
        let mut header_map: Vec<Attribute> = Vec::new();
        let mut i: usize = 0;
        while i < self.headers.len()
            invariant
                i <= self.headers.len(),
                header_map.deep_view() == header_attributes(self.headers.deep_view(), i as nat),
            decreases self.headers.len() - i,
        {
            let value = header_attribute(&self.headers[i].value);
            upsert(&mut header_map, self.headers[i].name.as_str(), value);
            i = i + 1;
        }
        proof {
            lemma_nested_view(header_map);
        }
        map.push(Attribute { name: String::from_str("headers"), value: AttributeValue::M(header_map) });
        assert(map.deep_view() =~= self@.attributes(start_text@, end_text@));
        map
    }

    /// The attributes of the entry. The two instants are written as
    /// RFC 3339 texts; where one of them is beyond what can be written so,
    /// there are no attributes.
    pub fn to_attribute_value_map(&self) -> (map: Option<Vec<Attribute>>)
        ensures
            map is Some <==> rfc3339_text(self.start) is Some && rfc3339_text(self.end) is Some,
            map matches Some(m) ==> m.deep_view() == self@.attributes(
                rfc3339_text(self.start)->0,
                rfc3339_text(self.end)->0,
            ),
    {
        match (rfc3339(self.start), rfc3339(self.end)) {
            (Some(start_text), Some(end_text)) => Some(self.attributes_with(start_text, end_text)),
            _ => None,
        }
    }
}

} // verus!
