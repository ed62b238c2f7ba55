use vstd::prelude::*;

verus! {

/// Largest payload a single log frame may carry, in bytes. It equals the
/// frame buffer's size, so any frame the queue accepts fits in one transfer.
pub const MAX_FRAME_LEN: usize = 1024;

/// One discrete unit of structured log data: an immutable byte payload of
/// bounded length. The transport treats the payload as opaque; a frame has
/// no identity beyond its position in the queue.
pub struct Frame {
    bytes: Vec<u8>,
}

impl View for Frame {
    type V = Seq<u8>;

    closed spec fn view(&self) -> Seq<u8> {
        self.bytes@
    }
}

impl Frame {
    /// A frame is well formed when its payload respects the length bound.
    pub open spec fn wf(&self) -> bool {
        self@.len() <= MAX_FRAME_LEN
    }

    /// Wraps a payload as a frame; a payload over the length bound is refused.
    pub fn new(bytes: Vec<u8>) -> (r: Option<Frame>)
        ensures
            bytes@.len() <= MAX_FRAME_LEN ==> (r matches Some(f) && f@ == bytes@ && f.wf()),
            bytes@.len() > MAX_FRAME_LEN ==> r is None,
    {
        if bytes.len() <= MAX_FRAME_LEN {
            Some(Frame { bytes })
        } else {
            None
        }
    }

    /// Payload length in bytes.
    pub fn len(&self) -> (n: usize)
        ensures
            n == self@.len(),
    {
        self.bytes.len()
    }

    /// Read access to the payload.
    pub fn payload(&self) -> (r: &Vec<u8>)
        ensures
            r@ == self@,
    {
        &self.bytes
    }
}

} // verus!
