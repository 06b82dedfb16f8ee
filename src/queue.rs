//! The bounded queues that carry events from the input engine to each report writer.

use vstd::prelude::*;

verus! {

/// Most events a queue holds; a producer that finds it full is told so and keeps the event.
pub const QUEUE_CAPACITY: usize = 64;

/// A first-in first-out queue of at most `QUEUE_CAPACITY` events.
pub struct EventQueue<T> {
    pub items: Vec<T>,
}

impl<T: Copy> EventQueue<T> {
    pub open spec fn wf(&self) -> bool {
        self.items@.len() <= QUEUE_CAPACITY
    }

    pub fn new() -> (r: EventQueue<T>)
        ensures
            r.wf(),
            r.items@.len() == 0,
    {
        EventQueue { items: Vec::new() }
    }

    /// Appends an event unless the queue is full; returns whether it was taken. A producer
    /// that gets `false` waits for the writer to drain the queue and tries again.
    pub fn try_send(&mut self, e: T) -> (r: bool)
        requires
            old(self).wf(),
        ensures
            final(self).wf(),
            r == (old(self).items@.len() < QUEUE_CAPACITY),
            r ==> final(self).items@ == old(self).items@.push(e),
            !r ==> final(self).items@ == old(self).items@,
    {
        if self.items.len() < QUEUE_CAPACITY {
            self.items.push(e);
            true
        } else {
            false
        }
    }

    /// Takes every queued event, oldest first, and leaves the queue empty.
    pub fn drain(&mut self) -> (r: Vec<T>)
        requires
            old(self).wf(),
        ensures
            final(self).wf(),
            final(self).items@.len() == 0,
            r@ == old(self).items@,
    {
        let mut out: Vec<T> = Vec::new();
        std::mem::swap(&mut out, &mut self.items);
        out
    }
}

} // verus!
