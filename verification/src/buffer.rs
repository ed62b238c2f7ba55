use vstd::prelude::*;

use crate::frame::Frame;

verus! {

/// The fixed-size byte arena that backs a single USB transfer. The transport
/// task owns it exclusively; between `begin_transfer` and `complete_transfer`
/// the hardware holds a reference into it, so during that window the arena
/// must not be reloaded, released or reused — the most safety-critical
/// invariant of the subsystem, and here enforced by contract.
pub struct FrameBuffer {
    data: Vec<u8>,
    loaded: usize,
    in_flight: bool,
}

impl FrameBuffer {
    /// Size of the arena in bytes, fixed at construction.
    pub closed spec fn capacity(&self) -> nat {
        self.data@.len()
    }

    /// Whether a hardware transfer referencing the arena is outstanding.
    pub closed spec fn in_flight(&self) -> bool {
        self.in_flight
    }

    /// How many staged bytes the arena currently holds.
    pub closed spec fn staged_len(&self) -> nat {
        self.loaded as nat
    }

    /// The bytes staged for — or owned by — the current transfer.
    pub closed spec fn staged(&self) -> Seq<u8> {
        self.data@.take(self.loaded as int)
    }

    /// The staged bytes always lie within the arena.
    pub open spec fn wf(&self) -> bool {
        self.staged_len() <= self.capacity()
    }

    /// A zeroed arena of the given size, with no transfer outstanding.
    pub fn new(capacity: usize) -> (b: FrameBuffer)
        ensures
            b.wf(),
            b.capacity() == capacity as nat,
            !b.in_flight(),
            b.staged() == Seq::<u8>::empty(),
    {
        let mut data: Vec<u8> = Vec::new();
        while data.len() < capacity
            invariant
                data@.len() <= capacity,
            decreases capacity - data@.len(),
        {
            data.push(0u8);
        }
        let b = FrameBuffer { data, loaded: 0, in_flight: false };
        proof {
            assert(b.staged() =~= Seq::<u8>::empty());
        }
        b
    }

    /// Copies one frame's payload to the front of the arena, staging it for
    /// the next transfer. The arena must be free: no copy may touch memory
    /// that an outstanding transfer still references.
    pub fn load(&mut self, frame: &Frame)
        requires
            old(self).wf(),
            !old(self).in_flight(),
            frame@.len() <= old(self).capacity(),
        ensures
            final(self).wf(),
            final(self).capacity() == old(self).capacity(),
            !final(self).in_flight(),
            final(self).staged() == frame@,
    {
        let n = frame.len();
        let payload = frame.payload();
        let ghost cap = self.data@.len();
        let mut i: usize = 0;
        while i < n
            invariant
                i <= n,
                n == frame@.len(),
                payload@ == frame@,
                self.data@.len() == cap,
                n <= cap,
                !self.in_flight,
                forall|j: int| 0 <= j < i ==> self.data@[j] == frame@[j],
            decreases n - i,
        {
            self.data.set(i, payload[i]);
            i = i + 1;
        }
        self.loaded = n;
        proof {
            assert(self.staged() =~= frame@);
        }
    }

    /// Hands the staged bytes to the hardware: from here until the completion
    /// is observed, the outstanding transfer owns the arena.
    pub fn begin_transfer(&mut self)
        requires
            old(self).wf(),
            !old(self).in_flight(),
        ensures
            final(self).wf(),
            final(self).in_flight(),
            final(self).capacity() == old(self).capacity(),
            final(self).staged() == old(self).staged(),
    {
        self.in_flight = true;
    }

    /// Records that the hardware acknowledged the end of the transfer: the
    /// arena may be reused. The staged bytes are dead from here on and no
    /// longer exposed.
    pub fn complete_transfer(&mut self)
        requires
            old(self).wf(),
            old(self).in_flight(),
        ensures
            final(self).wf(),
            !final(self).in_flight(),
            final(self).capacity() == old(self).capacity(),
            final(self).staged() == Seq::<u8>::empty(),
    {
        self.loaded = 0;
        self.in_flight = false;
        proof {
            assert(self.staged() =~= Seq::<u8>::empty());
        }
    }

    /// Whether a transfer is outstanding on this arena.
    pub fn is_in_flight(&self) -> (b: bool)
        ensures
            b == self.in_flight(),
    {
        self.in_flight
    }

    /// A copy of the staged payload — what the endpoint write hands to the
    /// host for the current transfer.
    pub fn staged_bytes(&self) -> (r: Vec<u8>)
        requires
            self.wf(),
        ensures
            r@ == self.staged(),
    {
        let n = self.loaded;
        let mut out: Vec<u8> = Vec::new();
        let mut i: usize = 0;
        while i < n
            invariant
                i <= n,
                self.wf(),
                n == self.staged_len(),
                out@.len() == i as nat,
                forall|j: int| 0 <= j < i ==> out@[j] == self.data@[j],
            decreases n - i,
        {
            out.push(self.data[i]);
            i = i + 1;
        }
        proof {
            assert(out@ =~= self.staged());
        }
        out
    }
}

} // verus!
