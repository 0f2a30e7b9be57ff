//! Delivery bridge: the single-producer/single-consumer queue that carries
//! key snapshots from the capture worker to the host. Snapshots come out in
//! exactly the order they were produced. Once the producer side closes the
//! queue, nothing more goes in, and a consumer that finds it closed and
//! drained gets a channel-closed error instead of waiting forever.

use vstd::prelude::*;
use crate::session::EngineError;

verus! {

/// A FIFO of pending key snapshots, with a closed flag set by the producer
/// side at shutdown.
pub struct SnapshotQueue {
    pending: Vec<Vec<String>>,
    closed: bool,
}

impl View for SnapshotQueue {
    type V = Seq<Seq<Seq<char>>>;

    closed spec fn view(&self) -> Seq<Seq<Seq<char>>> {
        self.pending.deep_view()
    }
}

/// What one delivery attempt does to the queue contents: appended while the
/// queue is open, dropped once it is closed.
pub open spec fn spec_offer(
    contents: Seq<Seq<Seq<char>>>,
    closed: bool,
    snap: Seq<Seq<char>>,
) -> Seq<Seq<Seq<char>>> {
    if closed {
        contents
    } else {
        contents.push(snap)
    }
}

/// The queue contents after a whole sequence of delivery attempts.
pub open spec fn spec_offer_all(
    contents: Seq<Seq<Seq<char>>>,
    closed: bool,
    snaps: Seq<Seq<Seq<char>>>,
) -> Seq<Seq<Seq<char>>>
    decreases snaps.len(),
{
    if snaps.len() == 0 {
        contents
    } else {
        spec_offer(spec_offer_all(contents, closed, snaps.drop_last()), closed, snaps.last())
    }
}

/// Once shutdown has closed the queue, no sequence of delivery attempts
/// changes it: after a successful unload no snapshot reaches the host.
pub proof fn lemma_closed_queue_delivers_nothing(
    contents: Seq<Seq<Seq<char>>>,
    snaps: Seq<Seq<Seq<char>>>,
)
    ensures
        spec_offer_all(contents, true, snaps) == contents,
    decreases snaps.len(),
{
    if snaps.len() > 0 {
        lemma_closed_queue_delivers_nothing(contents, snaps.drop_last());
    }
}

impl SnapshotQueue {
    /// Whether the producer side has closed the queue.
    pub closed spec fn is_closed(&self) -> bool {
        self.closed
    }

    /// An open, empty queue.
    pub fn new() -> (q: SnapshotQueue)
        ensures
            q@ == Seq::<Seq<Seq<char>>>::empty(),
            !q.is_closed(),
    {
        let q = SnapshotQueue { pending: Vec::new(), closed: false };
        proof {
            assert(q@ =~= Seq::<Seq<Seq<char>>>::empty());
        }
        q
    }

    /// Producer side: append a snapshot at the back. A closed queue accepts
    /// nothing; no snapshot is delivered after shutdown.
    pub fn push(&mut self, snap: Vec<String>) -> (accepted: bool)
        ensures
            final(self).is_closed() == old(self).is_closed(),
            final(self)@ == spec_offer(old(self)@, old(self).is_closed(), snap.deep_view()),
            accepted == !old(self).is_closed(),
    {
        if self.closed {
            false
        } else {
            let ghost pre = self.pending.deep_view();
            self.pending.push(snap);
            proof {
                assert(self.pending.deep_view() =~= pre.push(snap.deep_view()));
            }
            true
        }
    }

    /// Producer side, at shutdown: close the queue. Snapshots already
    /// queued stay and can still be drained.
    pub fn close(&mut self)
        ensures
            final(self).is_closed(),
            final(self)@ == old(self)@,
    {
        self.closed = true;
    }

    /// Consumer side: take the oldest pending snapshot. `Ok(None)` means
    /// nothing is pending yet and the producer is still alive (the caller
    /// waits and retries); a drained, closed queue is a `ChannelClosed`
    /// error.
    pub fn take(&mut self) -> (r: Result<Option<Vec<String>>, EngineError>)
        ensures
            final(self).is_closed() == old(self).is_closed(),
            old(self)@.len() > 0 ==> (r matches Ok(s) && s matches Some(snap)
                && snap.deep_view() == old(self)@[0]) && final(self)@ == old(self)@.drop_first(),
            old(self)@.len() == 0 && !old(self).is_closed() ==> r == Ok::<
                Option<Vec<String>>,
                EngineError,
            >(None) && final(self)@ == old(self)@,
            old(self)@.len() == 0 && old(self).is_closed() ==> r == Err::<
                Option<Vec<String>>,
                EngineError,
            >(EngineError::ChannelClosed) && final(self)@ == old(self)@,
    {
        if self.pending.len() > 0 {
            let ghost pre = self.pending.deep_view();
            let snap = self.pending.remove(0);
            proof {
                assert(self.pending.deep_view() =~= pre.drop_first());
            }
            Ok(Some(snap))
        } else if self.closed {
            Err(EngineError::ChannelClosed)
        } else {
            Ok(None)
        }
    }
}

} // verus!
