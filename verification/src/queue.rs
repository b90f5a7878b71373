//! The per-direction message queue: unbounded, order-preserving, first in
//! first out. One relay instance owns exactly two of these, one per
//! direction; they outlive individual connections, so messages enqueued while
//! the far side is down are kept, in order, until its send pump drains them.
//!
//! The queue is deliberately unbounded, as the relay's design calls for: a
//! receive pump that outpaces a stalled send pump grows it without limit.

use vstd::prelude::*;

use crate::message::Message;
use crate::message::MessageView;

verus! {

/// A FIFO queue of messages. Pushing appends at the back; popping takes the
/// front. Its view is the sequence of queued message views, front first.
pub struct MessageQueue {
    msgs: Vec<Message>,
}

impl View for MessageQueue {
    type V = Seq<MessageView>;

    closed spec fn view(&self) -> Seq<MessageView> {
        self.msgs@.map_values(|m: Message| m@)
    }
}

impl MessageQueue {
    /// An empty queue.
    pub fn new() -> (q: MessageQueue)
        ensures
            q@ == Seq::<MessageView>::empty(),
    {
        let q = MessageQueue { msgs: Vec::new() };
        proof {
            assert(q@ =~= Seq::<MessageView>::empty());
        }
        q
    }

    /// Enqueue one message at the back.
    pub fn push(&mut self, m: Message)
        ensures
            final(self)@ == old(self)@.push(m@),
    {
        let ghost before = self@;
        self.msgs.push(m);
        proof {
            assert(self@ =~= before.push(m@));
        }
    }

    /// Dequeue the front message; `None` exactly when the queue is empty.
    pub fn pop(&mut self) -> (r: Option<Message>)
        ensures
            old(self)@.len() == 0 ==> r is None && final(self)@ == old(self)@,
            old(self)@.len() > 0 ==> {
                &&& r matches Some(m) && m@ == old(self)@.first()
                &&& final(self)@ == old(self)@.drop_first()
            },
    {
        let ghost before = self@;
        if self.msgs.is_empty() {
            None
        } else {
            let m = self.msgs.remove(0);
            proof {
                assert(self@ =~= before.drop_first());
            }
            Some(m)
        }
    }

    /// How many messages are queued.
    pub fn len(&self) -> (n: usize)
        ensures
            n == self@.len(),
    {
        self.msgs.len()
    }

    /// True exactly when nothing is queued.
    pub fn is_empty(&self) -> (b: bool)
        ensures
            b <==> self@.len() == 0,
    {
        self.msgs.is_empty()
    }
}

} // verus!
