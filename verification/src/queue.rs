//! The command queue between the rendering loop and the dispatcher: an
//! unbounded, ordered, single-consumer buffer. Enqueue order is dequeue
//! order — there is no priority and no reordering.

use vstd::prelude::*;
use crate::network::IoEvent;

verus! {

/// An ordered queue of dispatched commands. The rendering side enqueues,
/// the dispatcher dequeues, strictly first-in-first-out.
pub struct CommandQueue {
    items: Vec<IoEvent>,
}

impl View for CommandQueue {
    type V = Seq<IoEvent>;

    closed spec fn view(&self) -> Seq<IoEvent> {
        self.items@
    }
}

impl CommandQueue {
    /// An empty queue.
    pub fn new() -> (q: Self)
        ensures
            q@ == Seq::<IoEvent>::empty(),
    {
        let q = CommandQueue { items: Vec::new() };
        assert(q@ =~= Seq::<IoEvent>::empty());
        q
    }

    /// How many commands are waiting.
    pub fn len(&self) -> (n: usize)
        ensures
            n == self@.len(),
    {
        self.items.len()
    }

    /// Whether nothing is waiting.
    pub fn is_empty(&self) -> (r: bool)
        ensures
            r == (self@.len() == 0),
    {
        self.items.len() == 0
    }

    /// Submit a command: non-blocking, appended at the back, no
    /// acknowledgement. Completion is observed only through shared-state
    /// mutation once the dispatcher has processed it.
    pub fn enqueue(&mut self, e: IoEvent)
        ensures
            final(self)@ == old(self)@.push(e),
    {
        self.items.push(e);
    }

    /// Take the oldest waiting command, or `None` when the queue is empty.
    pub fn dequeue(&mut self) -> (r: Option<IoEvent>)
        ensures
            old(self)@.len() == 0 ==> r is None && final(self)@ == old(self)@,
            old(self)@.len() > 0 ==> r == Some(old(self)@.first()) && final(self)@ == old(
                self,
            )@.drop_first(),
    {
        if self.items.len() == 0 {
            None
        } else {
            let e = self.items.remove(0);
            assert(self@ =~= old(self)@.drop_first());
            Some(e)
        }
    }

    /// Take every waiting command at once, oldest first. The result is the
    /// enqueued sequence itself: the consumer sees commands exactly in the
    /// order they were submitted.
    pub fn drain(&mut self) -> (r: Vec<IoEvent>)
        ensures
            r@ == old(self)@,
            final(self)@ == Seq::<IoEvent>::empty(),
    {
        let mut taken = CommandQueue { items: Vec::new() };
        core::mem::swap(&mut taken, self);
        assert(self@ =~= Seq::<IoEvent>::empty());
        taken.items
    }
}

/// The first-in-first-out law: whatever was enqueued is dequeued in the
/// same order. If the queue holds the sequence `s` and `k` commands have
/// already been taken, the contents are `s.skip(k)`, the next dequeue
/// returns `s[k]`, and what remains afterwards is `s.skip(k + 1)`.
pub proof fn lemma_fifo_order(s: Seq<IoEvent>, k: int)
    requires
        0 <= k < s.len(),
    ensures
        s.skip(k).first() == s[k],
        s.skip(k).drop_first() =~= s.skip(k + 1),
{
}

} // verus!
