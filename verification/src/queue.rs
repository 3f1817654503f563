//! The hand-off between the hooks and whoever writes to the store: a
//! bounded queue of calls. A hook never waits for room. When the queue is
//! full the oldest call gives way to the new one and is handed back to be
//! counted or logged; the newest facts of a request are the ones worth
//! keeping.

use crate::sink::{SinkCall, SinkCallView};
use std::collections::VecDeque;
use vstd::prelude::*;

verus! {

/// What a queue holds: its bound, and the calls that wait, oldest first.
pub ghost struct QueueView {
    pub capacity: nat,
    pub waiting: Seq<SinkCallView>,
}

impl QueueView {
    /// The calls that wait after `call` has come: behind the others where
    /// there is room, in place of the oldest where there is none. A queue
    /// without any room keeps nothing.
    pub open spec fn after_push(self, call: SinkCallView) -> Seq<SinkCallView> {
        if self.capacity == 0 {
            self.waiting
        } else if self.waiting.len() < self.capacity {
            self.waiting.push(call)
        } else {
            self.waiting.drop_first().push(call)
        }
    }

    /// The call that gives way when `call` comes, if one does.
    pub open spec fn displaced(self, call: SinkCallView) -> Option<SinkCallView> {
        if self.capacity == 0 {
            Some(call)
        } else if self.waiting.len() < self.capacity {
            None
        } else {
            Some(self.waiting.first())
        }
    }
}

/// A bounded queue of calls that drops the oldest when it is full.
pub struct DispatchQueue {
    capacity: usize,
    waiting: VecDeque<SinkCall>,
}

impl View for DispatchQueue {
    type V = QueueView;

    closed spec fn view(&self) -> QueueView {
        QueueView { capacity: self.capacity as nat, waiting: self.waiting.deep_view() }
    }
}

impl DispatchQueue {
    /// An empty queue with room for `capacity` calls.
    pub fn new(capacity: usize) -> (queue: DispatchQueue)
        ensures
            queue@.capacity == capacity,
            queue@.waiting == Seq::<SinkCallView>::empty(),
    {
        let queue = DispatchQueue { capacity, waiting: VecDeque::new() };
        assert(queue@.waiting =~= Seq::<SinkCallView>::empty());
        queue
    }

    /// The number of calls that wait.
    pub fn len(&self) -> (n: usize)
        ensures
            n == self@.waiting.len(),
    {
        self.waiting.len()
    }

    /// The bound of the queue.
    pub fn capacity(&self) -> (n: usize)
        ensures
            n == self@.capacity,
    {
        self.capacity
    }

    /// Takes `call` into the queue and returns the call that gave way, if
    /// one did. A queue that was within its bound stays within it.
    pub fn push(&mut self, call: SinkCall) -> (displaced: Option<SinkCall>)
        ensures
            final(self)@.capacity == old(self)@.capacity,
            final(self)@.waiting == old(self)@.after_push(call@),
            displaced.deep_view() == old(self)@.displaced(call@),
            old(self)@.waiting.len() <= old(self)@.capacity ==> final(self)@.waiting.len() <= final(self)@.capacity,
    {
        if self.capacity == 0 {
            return Some(call);
        }
        let displaced = if self.waiting.len() < self.capacity {
            None
        } else {
            self.waiting.pop_front()
        };
        self.waiting.push_back(call);
        assert(final(self)@.waiting =~= old(self)@.after_push(call@));
        displaced
    }

    /// Takes the oldest call out of the queue, if one waits.
    pub fn pop(&mut self) -> (call: Option<SinkCall>)
        ensures
            final(self)@.capacity == old(self)@.capacity,
            old(self)@.waiting.len() == 0 ==> call is None && final(self)@.waiting == old(self)@.waiting,
            old(self)@.waiting.len() > 0 ==> call.deep_view() == Some(old(self)@.waiting.first())
                && final(self)@.waiting == old(self)@.waiting.drop_first(),
    {
        let call = self.waiting.pop_front();
        proof {
            if old(self)@.waiting.len() > 0 {
                assert(final(self)@.waiting =~= old(self)@.waiting.drop_first());
            } else {
                assert(final(self)@.waiting =~= old(self)@.waiting);
            }
        }
        call
    }
}

} // verus!
