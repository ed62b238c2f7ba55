use vstd::prelude::*;

use crate::buffer::FrameBuffer;
use crate::device::{transfer_allowed, UsbDeviceState};
use crate::frame::MAX_FRAME_LEN;
use crate::queue::{saturating_inc, LogQueue};

verus! {

/// Size of the transport task's frame buffer, in bytes: the largest single
/// transfer payload.
pub const FRAME_BUFFER_LEN: usize = 1024;

/// A hardware transfer failed. Non-fatal: the frame in flight is forfeited
/// and the task carries on with the next one; no retry is attempted.
#[derive(Clone, Copy, Debug, PartialEq, Eq, Structural)]
pub struct TransferError;

/// What one scheduling turn of the transport task did.
#[derive(Clone, Copy, Debug, PartialEq, Eq, Structural)]
pub enum TransportAction {
    /// The front frame was staged in the buffer and a transfer begun.
    Started,
    /// The front frame was dequeued but withheld from the wire, because the
    /// device is not configured.
    Discarded,
    /// Nothing to do: the queue is empty, or a transfer is still in flight.
    Idle,
}

/// The single consumer bridging the log queue to the USB endpoint. It owns
/// the frame buffer, drains one frame per turn, and starts a transfer only
/// while the device is configured and no earlier transfer is outstanding.
pub struct Transport {
    buffer: FrameBuffer,
    forfeited: u64,
}

impl Transport {
    /// The buffer is sound and large enough for any well-formed frame.
    pub closed spec fn wf(&self) -> bool {
        &&& self.buffer.wf()
        &&& self.buffer.capacity() >= MAX_FRAME_LEN
    }

    /// Whether a transfer is outstanding on the frame buffer.
    pub closed spec fn in_flight(&self) -> bool {
        self.buffer.in_flight()
    }

    /// The bytes staged for — or owned by — the current transfer.
    pub closed spec fn staged(&self) -> Seq<u8> {
        self.buffer.staged()
    }

    /// How many transfers have failed and forfeited their frame (saturating).
    pub closed spec fn forfeited_count(&self) -> nat {
        self.forfeited as nat
    }

    /// A transport with a fresh buffer and no transfer outstanding.
    pub fn new() -> (t: Transport)
        ensures
            t.wf(),
            !t.in_flight(),
            t.staged() == Seq::<u8>::empty(),
            t.forfeited_count() == 0,
    {
        Transport { buffer: FrameBuffer::new(FRAME_BUFFER_LEN), forfeited: 0 }
    }

    /// One scheduling turn of the steady-state loop. While a transfer is in
    /// flight nothing moves — the buffer may not be reused before the
    /// completion is observed. Otherwise the front frame, if any, is either
    /// staged and sent (device configured) or withheld from the wire and
    /// dropped (any other state). An empty queue is left untouched.
    pub fn step(&mut self, queue: &mut LogQueue, state: UsbDeviceState) -> (action:
        TransportAction)
        requires
            old(self).wf(),
            old(queue).wf(),
        ensures
            final(self).wf(),
            final(queue).wf(),
            final(queue).capacity() == old(queue).capacity(),
            final(queue).dropped_count() == old(queue).dropped_count(),
            final(self).forfeited_count() == old(self).forfeited_count(),
            // a transfer begins only in the configured state, on a free buffer
            action == TransportAction::Started ==> transfer_allowed(state)
                && !old(self).in_flight(),
            // one transfer at a time: an outstanding transfer freezes everything
            old(self).in_flight() ==> action == TransportAction::Idle
                && final(self).in_flight()
                && final(self).staged() == old(self).staged()
                && final(queue)@ == old(queue)@,
            // draining an empty queue does nothing and raises no error
            !old(self).in_flight() && old(queue)@.len() == 0 ==> action == TransportAction::Idle
                && !final(self).in_flight()
                && final(self).staged() == old(self).staged()
                && final(queue)@ == old(queue)@,
            // device configured: the front frame is staged and a transfer begun
            !old(self).in_flight() && old(queue)@.len() > 0 && transfer_allowed(state)
                ==> action == TransportAction::Started
                && final(self).in_flight()
                && final(self).staged() == old(queue)@.first()
                && final(queue)@ == old(queue)@.drop_first(),
            // device not configured: the front frame is withheld, not sent
            !old(self).in_flight() && old(queue)@.len() > 0 && !transfer_allowed(state)
                ==> action == TransportAction::Discarded
                && !final(self).in_flight()
                && final(self).staged() == old(self).staged()
                && final(queue)@ == old(queue)@.drop_first(),
            // anything in flight afterwards either was already, or began now
            final(self).in_flight() ==> old(self).in_flight()
                || action == TransportAction::Started,
    {
        if self.buffer.is_in_flight() {
            return TransportAction::Idle;
        }
        match queue.dequeue() {
            None => TransportAction::Idle,
            Some(frame) => {
                if state == UsbDeviceState::Configured {
                    self.buffer.load(&frame);
                    self.buffer.begin_transfer();
                    TransportAction::Started
                } else {
                    TransportAction::Discarded
                }
            },
        }
    }

    /// Observes the completion the hardware reported for the outstanding
    /// transfer. Either way the buffer is released for reuse; a failure
    /// forfeits the frame that was in flight and counts it, nothing more.
    pub fn complete(&mut self, outcome: Result<(), TransferError>)
        requires
            old(self).wf(),
            old(self).in_flight(),
        ensures
            final(self).wf(),
            !final(self).in_flight(),
            outcome is Ok ==> final(self).forfeited_count() == old(self).forfeited_count(),
            outcome is Err ==> final(self).forfeited_count() == saturating_inc(
                old(self).forfeited_count(),
            ),
    {
        if outcome.is_err() {
            if self.forfeited < u64::MAX {
                self.forfeited = self.forfeited + 1;
            }
        }
        self.buffer.complete_transfer();
    }

    /// Whether a transfer is outstanding right now.
    pub fn is_in_flight(&self) -> (b: bool)
        ensures
            b == self.in_flight(),
    {
        self.buffer.is_in_flight()
    }

    /// How many transfers have failed so far.
    pub fn forfeited_frames(&self) -> (n: u64)
        ensures
            n as nat == self.forfeited_count(),
    {
        self.forfeited
    }

    /// A copy of the payload staged for the current transfer — the bytes the
    /// endpoint write hands to the host.
    pub fn staged_payload(&self) -> (r: Vec<u8>)
        requires
            self.wf(),
        ensures
            r@ == self.staged(),
    {
        self.buffer.staged_bytes()
    }
}

/// Steady-state drain under a configured device: transfers every queued
/// frame, oldest first, each transfer completing before the next begins, and
/// returns the payloads in delivery order — end to end, the host sees
/// exactly the queue's contents, in FIFO order.
pub fn drain_configured(t: &mut Transport, queue: &mut LogQueue) -> (delivered: Vec<Vec<u8>>)
    requires
        old(t).wf(),
        !old(t).in_flight(),
        old(queue).wf(),
    ensures
        final(t).wf(),
        !final(t).in_flight(),
        final(t).forfeited_count() == old(t).forfeited_count(),
        final(queue).wf(),
        final(queue).capacity() == old(queue).capacity(),
        final(queue).dropped_count() == old(queue).dropped_count(),
        final(queue)@.len() == 0,
        delivered@.map_values(|p: Vec<u8>| p@) == old(queue)@,
{
    let mut delivered: Vec<Vec<u8>> = Vec::new();
    let ghost total = queue@;
    let ghost cap0 = queue.capacity();
    let ghost drop0 = queue.dropped_count();
    let ghost forf0 = t.forfeited_count();
    while queue.len() > 0
        invariant
            t.wf(),
            !t.in_flight(),
            t.forfeited_count() == forf0,
            queue.wf(),
            queue.capacity() == cap0,
            queue.dropped_count() == drop0,
            delivered@.map_values(|p: Vec<u8>| p@) + queue@ == total,
        decreases queue@.len(),
    {
        let ghost before = queue@;
        let ghost done = delivered@.map_values(|p: Vec<u8>| p@);
        let _ = t.step(queue, UsbDeviceState::Configured);
        let payload = t.staged_payload();
        delivered.push(payload);
        t.complete(Ok(()));
        proof {
            assert(delivered@.map_values(|p: Vec<u8>| p@) =~= done.push(before.first()));
            assert(done.push(before.first()) + before.drop_first() =~= done + before);
        }
    }
    proof {
        assert(delivered@.map_values(|p: Vec<u8>| p@) =~= total);
    }
    delivered
}

/// Drain outside the configured state: every queued frame is dequeued and
/// withheld from the wire — no transfer is attempted, the buffer stays
/// untouched. Returns how many frames were dropped.
pub fn drain_discarding(t: &mut Transport, queue: &mut LogQueue, state: UsbDeviceState) -> (n:
    usize)
    requires
        old(t).wf(),
        !old(t).in_flight(),
        old(queue).wf(),
        !transfer_allowed(state),
    ensures
        final(t).wf(),
        !final(t).in_flight(),
        final(t).staged() == old(t).staged(),
        final(t).forfeited_count() == old(t).forfeited_count(),
        final(queue).wf(),
        final(queue).capacity() == old(queue).capacity(),
        final(queue).dropped_count() == old(queue).dropped_count(),
        final(queue)@.len() == 0,
        n as nat == old(queue)@.len(),
{
    let ghost cap0 = queue.capacity();
    let ghost drop0 = queue.dropped_count();
    let ghost forf0 = t.forfeited_count();
    let ghost staged0 = t.staged();
    let n = queue.len();
    while queue.len() > 0
        invariant
            t.wf(),
            !t.in_flight(),
            t.staged() == staged0,
            t.forfeited_count() == forf0,
            queue.wf(),
            queue.capacity() == cap0,
            queue.dropped_count() == drop0,
            !transfer_allowed(state),
        decreases queue@.len(),
    {
        let _ = t.step(queue, state);
    }
    n
}

} // verus!
