//! The size of a response body, where it is known when the headers are.

use vstd::prelude::*;

verus! {

/// The shapes a response body can have: nothing, bytes held in memory, or
/// a stream whose length shows only when it ends.
#[derive(Clone, Copy, Debug, PartialEq, Eq, Structural)]
pub enum ResponseBody {
    Empty,
    Buffered(usize),
    Streaming,
}

/// The byte length of a body that is known before it is sent: 0 for an
/// empty body, the buffer's length for a buffered one, unknown for a
/// stream. A stream's length is never guessed.
pub open spec fn known_length(body: ResponseBody) -> Option<usize> {
    match body {
        ResponseBody::Empty => Some(0),
        ResponseBody::Buffered(length) => Some(length),
        ResponseBody::Streaming => None,
    }
}

/// The byte length of `body`, if it is known now.
pub fn get_response_length(body: &ResponseBody) -> (length: Option<usize>)
    ensures
        length == known_length(*body),
{
    match body {
        ResponseBody::Empty => Some(0),
        ResponseBody::Buffered(length) => Some(*length),
        ResponseBody::Streaming => None,
    }
}

} // verus!
