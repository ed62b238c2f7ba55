use vstd::prelude::*;

use crate::frame::{Frame, MAX_FRAME_LEN};

verus! {

/// Error handed back to a producer whose frame found the queue at capacity.
/// The frame is dropped and counted; the producer decides whether to retry.
#[derive(Clone, Copy, Debug, PartialEq, Eq, Structural)]
pub struct QueueFull;

/// A counter that sticks at its ceiling instead of wrapping.
pub open spec fn saturating_inc(n: nat) -> nat {
    if n < u64::MAX {
        n + 1
    } else {
        n
    }
}

/// What one attempted enqueue does to the queue's contents: the frame is
/// appended when there is room, and the contents stay untouched when full.
pub open spec fn enqueue_model(q: Seq<Seq<u8>>, capacity: nat, frame: Seq<u8>) -> Seq<Seq<u8>> {
    if q.len() < capacity {
        q.push(frame)
    } else {
        q
    }
}

/// The contents after a whole series of enqueue attempts, oldest first.
pub open spec fn enqueue_all_model(
    q: Seq<Seq<u8>>,
    capacity: nat,
    frames: Seq<Seq<u8>>,
) -> Seq<Seq<u8>>
    decreases frames.len(),
{
    if frames.len() == 0 {
        q
    } else {
        enqueue_all_model(
            enqueue_model(q, capacity, frames.first()),
            capacity,
            frames.drop_first(),
        )
    }
}

/// FIFO law: as long as the queue has room for them all, a producer's frames
/// end up in the queue in exactly the order they were enqueued, behind what
/// was already there. The consumer always removes the front frame first, so
/// it observes them in that same relative order.
pub proof fn lemma_fifo_order(q: Seq<Seq<u8>>, capacity: nat, frames: Seq<Seq<u8>>)
    requires
        q.len() + frames.len() <= capacity,
    ensures
        enqueue_all_model(q, capacity, frames) == q + frames,
    decreases frames.len(),
{
    if frames.len() == 0 {
        assert(q + frames =~= q);
    } else {
        lemma_fifo_order(q.push(frames.first()), capacity, frames.drop_first());
        assert(q.push(frames.first()) + frames.drop_first() =~= q + frames);
    }
}

/// Bounded-capacity law: a queue already holding `capacity` frames rejects
/// the next enqueue and keeps its contents exactly as they were.
pub proof fn lemma_full_queue_rejects(q: Seq<Seq<u8>>, capacity: nat, frame: Seq<u8>)
    requires
        q.len() == capacity,
    ensures
        enqueue_model(q, capacity, frame) == q,
{
}

/// Bounded multi-producer/single-consumer FIFO channel carrying serialized
/// log frames from application tasks to the transport task. An enqueue on a
/// full queue fails fast instead of blocking or overwriting; refused frames
/// are only counted, never delivered.
pub struct LogQueue {
    frames: Vec<Frame>,
    capacity: usize,
    dropped: u64,
}

impl View for LogQueue {
    type V = Seq<Seq<u8>>;

    closed spec fn view(&self) -> Seq<Seq<u8>> {
        self.frames@.map_values(|f: Frame| f@)
    }
}

impl LogQueue {
    /// Fixed maximum number of undelivered frames the queue may hold.
    pub closed spec fn capacity(&self) -> nat {
        self.capacity as nat
    }

    /// How many enqueues have been refused so far (saturating).
    pub closed spec fn dropped_count(&self) -> nat {
        self.dropped as nat
    }

    /// The depth never exceeds the capacity, and every held frame respects
    /// the frame length bound.
    pub open spec fn wf(&self) -> bool {
        &&& self@.len() <= self.capacity()
        &&& forall|i: int| 0 <= i < self@.len() ==> (#[trigger] self@[i]).len() <= MAX_FRAME_LEN
    }

    /// An empty queue of the given fixed capacity.
    pub fn new(capacity: usize) -> (q: LogQueue)
        ensures
            q.wf(),
            q@ == Seq::<Seq<u8>>::empty(),
            q.capacity() == capacity as nat,
            q.dropped_count() == 0,
    {
        let q = LogQueue { frames: Vec::new(), capacity, dropped: 0 };
        proof {
            assert(q@ =~= Seq::<Seq<u8>>::empty());
        }
        q
    }

    /// Number of undelivered frames currently held.
    pub fn len(&self) -> (n: usize)
        ensures
            n as nat == self@.len(),
    {
        self.frames.len()
    }

    /// The saturating count of frames refused because the queue was full.
    pub fn dropped_frames(&self) -> (n: u64)
        ensures
            n as nat == self.dropped_count(),
    {
        self.dropped
    }

    /// Non-blocking producer entry point, callable from any task: appends the
    /// frame when there is room, otherwise fails fast with `QueueFull`,
    /// leaving the held frames intact and counting the drop.
    pub fn enqueue(&mut self, frame: Frame) -> (r: Result<(), QueueFull>)
        requires
            old(self).wf(),
            frame.wf(),
        ensures
            final(self).wf(),
            final(self).capacity() == old(self).capacity(),
            final(self)@ == enqueue_model(old(self)@, old(self).capacity(), frame@),
            r is Ok <==> old(self)@.len() < old(self).capacity(),
            r is Ok ==> final(self)@ == old(self)@.push(frame@)
                && final(self).dropped_count() == old(self).dropped_count(),
            r is Err ==> final(self)@ == old(self)@
                && final(self).dropped_count() == saturating_inc(old(self).dropped_count()),
    {
        if self.frames.len() < self.capacity {
            let ghost pre = self@;
            self.frames.push(frame);
            proof {
                assert(self@ =~= pre.push(frame@));
            }
            Ok(())
        } else {
            if self.dropped < u64::MAX {
                self.dropped = self.dropped + 1;
            }
            Err(QueueFull)
        }
    }

    /// Consumer entry point, called only by the transport task: removes and
    /// returns the oldest frame, or reports that the queue is empty. Draining
    /// an empty queue changes nothing and raises no error.
    pub fn dequeue(&mut self) -> (r: Option<Frame>)
        requires
            old(self).wf(),
        ensures
            final(self).wf(),
            final(self).capacity() == old(self).capacity(),
            final(self).dropped_count() == old(self).dropped_count(),
            old(self)@.len() == 0 ==> r is None && final(self)@ == old(self)@,
            old(self)@.len() > 0 ==> (r matches Some(f) && f@ == old(self)@.first() && f.wf()
                && final(self)@ == old(self)@.drop_first()),
    {
        if self.frames.len() == 0 {
            None
        } else {
            let ghost pre = self@;
            let f = self.frames.remove(0);
            proof {
                assert(self@ =~= pre.drop_first());
            }
            Some(f)
        }
    }
}

} // verus!
