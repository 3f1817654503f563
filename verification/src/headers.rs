//! The headers of a request as one line of text, and the mark of the
//! navigation entry that a request's path belongs to.

use crate::text::chars_of;
use vstd::prelude::*;

verus! {

/// The text that Rust's `Debug` gives for a string: the string in double
/// quotes, with the characters escaped that `str`'s `Debug` escapes.
pub uninterp spec fn debug_text(text: Seq<char>) -> Seq<char>;

/// `format!("{:?}", text)` of the standard library: the `Debug` form of a
/// string slice. It depends on the characters of `text` alone.
#[verifier::external_body]
fn debug_quoted(text: &str) -> (quoted: String)
    ensures
        quoted@ == debug_text(text@),
{
    format!("{:?}", text)
}

/// One header: its name and its value in `Debug` form, with a colon
/// between.
pub open spec fn header_line(header: (Seq<char>, Seq<char>)) -> Seq<char> {
    debug_text(header.0) + ": "@ + debug_text(header.1)
}

/// The first `n` headers, separated by commas.
pub open spec fn header_lines(headers: Seq<(Seq<char>, Seq<char>)>, n: nat) -> Seq<char>
    decreases n,
{
    if n == 0 {
        Seq::empty()
    } else if n == 1 {
        header_line(headers[0])
    } else {
        header_lines(headers, (n - 1) as nat) + ", "@ + header_line(headers[n - 1])
    }
}

/// All headers between braces: `{ "name": "value", ... }`.
pub open spec fn headers_text(headers: Seq<(Seq<char>, Seq<char>)>) -> Seq<char> {
    "{ "@ + header_lines(headers, headers.len()) + " }"@
}

/// The headers of a request, as they are kept with its record.
#[derive(Debug)]
pub struct Headers(pub String);

impl Headers {
    /// Writes the headers of a request, given as pairs of name and value in
    /// the order they came, as one line.
    pub fn from_request(headers: &Vec<(String, String)>) -> (snapshot: Headers)
        ensures
            snapshot.0@ == headers_text(headers.deep_view()),
    {
        let mut text = String::from_str("{ ");
        let mut index: usize = 0;
        while index < headers.len()
            invariant
                index <= headers.len(),
                text@ == "{ "@ + header_lines(headers.deep_view(), index as nat),
            decreases headers.len() - index,
        {
            if index != 0 {
                text.append(", ");
            }
            let name = debug_quoted(headers[index].0.as_str());
            let value = debug_quoted(headers[index].1.as_str());
            text.append(name.as_str());
            text.append(": ");
            text.append(value.as_str());
            proof {
                assert(headers.deep_view()[index as int] == (
                    headers@[index as int].0@,
                    headers@[index as int].1@,
                ));
                assert(text@ =~= "{ "@ + header_lines(headers.deep_view(), (index + 1) as nat));
            }
            index = index + 1;
        }
        text.append(" }");
        Headers(text)
    }
}

/// Whether the navigation entry `url` is the one that `path` belongs to:
/// the root entry only for the root path, any other entry for every path
/// that begins with it.
pub open spec fn is_active(path: Seq<char>, url: Seq<char>) -> bool {
    (url == "/"@ && path == "/"@) || (url != "/"@ && url.is_prefix_of(path))
}

/// Whether `text` begins with `prefix`.
pub fn starts_with(text: &str, prefix: &str) -> (begins: bool)
    ensures
        begins == prefix@.is_prefix_of(text@),
{
    let whole = chars_of(text);
    let head = chars_of(prefix);
    if head.len() > whole.len() {
        return false;
    }
    let mut i: usize = 0;
    while i < head.len()
        invariant
            i <= head.len(),
            head.len() <= whole.len(),
            head@ == prefix@,
            whole@ == text@,
            forall|j: int| 0 <= j < i ==> head@[j] == whole@[j],
        decreases head.len() - i,
    {
        if head[i] != whole[i] {
            assert(prefix@[i as int] != text@.subrange(0, prefix@.len() as int)[i as int]);
            return false;
        }
        i = i + 1;
    }
    assert(prefix@ =~= text@.subrange(0, prefix@.len() as int));
    true
}

/// The path of a request, asked which navigation entry it belongs to.
pub struct Header {
    path: String,
}

impl Header {
    /// The path that is asked.
    pub closed spec fn path(&self) -> Seq<char> {
        self.path@
    }

    pub fn new(path: &str) -> (header: Header)
        ensures
            header.path() == path@,
    {
        Header { path: String::from_str(path) }
    }

    /// The class of the navigation entry `url`: `active` where the path
    /// belongs to it, nothing where it does not.
    pub fn active(&self, url: &str) -> (class: &'static str)
        ensures
            class@ == (if is_active(self.path(), url@) {
                "active"@
            } else {
                ""@
            }),
    {
        let root = crate::text::str_eq(url, "/");
        let at_root = crate::text::str_eq(self.path.as_str(), "/");
        let is_active = (root && at_root) || (!root && starts_with(self.path.as_str(), url));
        if is_active {
            "active"
        } else {
            ""
        }
    }
}

} // verus!
