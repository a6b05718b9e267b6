//! The TCP wire format: one JSON-RPC request per line (newline-delimited
//! UTF-8 text), one response per line, no length prefix.
//!
//! `FrameBuffer` accumulates the bytes read from one connection and hands
//! complete frames back in arrival order, so that within one connection
//! requests are processed and responded to strictly in the order they were
//! sent. One buffer serves exactly one connection; buffers of different
//! connections share nothing.

use vstd::prelude::*;

verus! {

/// The frame delimiter: the line feed byte.
pub const FRAME_DELIMITER: u8 = 10;

/// An accumulation buffer for one connection's inbound bytes.
pub struct FrameBuffer {
    data: Vec<u8>,
}

impl FrameBuffer {
    /// The bytes received and not yet consumed as frames, in arrival order.
    pub closed spec fn contents(&self) -> Seq<u8> {
        self.data@
    }

    /// An empty buffer, for a freshly accepted connection.
    pub fn new() -> (r: Self)
        ensures
            r.contents() == Seq::<u8>::empty(),
    {
        FrameBuffer { data: Vec::new() }
    }

    /// Append one chunk of bytes read from the connection.
    #[verifier::loop_isolation(false)]
    pub fn push_chunk(&mut self, chunk: &[u8])
        ensures
            final(self).contents() == old(self).contents() + chunk@,
    {
        let mut i: usize = 0;
        while i < chunk.len()
            invariant
                i <= chunk.len(),
                self.data@ == old(self).data@ + chunk@.subrange(0, i as int),
            decreases chunk.len() - i,
        {
            let ghost before = self.data@;
            self.data.push(chunk[i]);
            i = i + 1;
            assert(self.data@ =~= old(self).data@ + chunk@.subrange(0, i as int));
        }
        assert(self.data@ =~= old(self).data@ + chunk@);
    }

    /// Take the next complete frame out of the buffer, if one is there: the
    /// bytes up to, but not including, the first frame delimiter. The
    /// delimiter is consumed with the frame; the bytes after it stay in the
    /// buffer. Frames therefore come out exactly in arrival order.
    #[verifier::loop_isolation(false)]
    pub fn take_frame(&mut self) -> (r: Option<Vec<u8>>)
        ensures
            r is None ==> *final(self) == *old(self) && !old(self).contents().contains(
                FRAME_DELIMITER,
            ),
            r matches Some(frame) ==> {
                &&& !frame@.contains(FRAME_DELIMITER)
                &&& old(self).contents() == frame@ + seq![FRAME_DELIMITER]
                    + final(self).contents()
            },
    {
        let len = self.data.len();
        let mut j: usize = 0;
        while j < len && self.data[j] != FRAME_DELIMITER
            invariant
                j <= len,
                forall|k: int| 0 <= k < j ==> self.data@[k] != FRAME_DELIMITER,
            decreases len - j,
        {
            j = j + 1;
        }
        if j == len {
            assert(!self.data@.contains(FRAME_DELIMITER)) by {
                if self.data@.contains(FRAME_DELIMITER) {
                    let k = choose|k: int|
                        0 <= k < self.data@.len() && self.data@[k] == FRAME_DELIMITER;
                    assert(self.data@[k] != FRAME_DELIMITER);
                }
            }
            return None;
        }
        let mut frame: Vec<u8> = Vec::new();
        let mut k: usize = 0;
        while k < j
            invariant
                k <= j,
                frame@ == self.data@.subrange(0, k as int),
            decreases j - k,
        {
            let ghost before = frame@;
            frame.push(self.data[k]);
            k = k + 1;
            assert(frame@ =~= self.data@.subrange(0, k as int));
        }
        let mut rest: Vec<u8> = Vec::new();
        let mut m: usize = j + 1;
        while m < len
            invariant
                j + 1 <= m <= len,
                rest@ == self.data@.subrange(j + 1, m as int),
            decreases len - m,
        {
            let ghost before = rest@;
            rest.push(self.data[m]);
            m = m + 1;
            assert(rest@ =~= self.data@.subrange(j + 1, m as int));
        }
        let ghost whole = self.data@;
        self.data = rest;
        assert(forall|k: int| 0 <= k < j ==> frame@[k] != FRAME_DELIMITER);
        assert(!frame@.contains(FRAME_DELIMITER)) by {
            if frame@.contains(FRAME_DELIMITER) {
                let k = choose|k: int| 0 <= k < frame@.len() && frame@[k] == FRAME_DELIMITER;
                assert(frame@[k] != FRAME_DELIMITER);
            }
        }
        assert(whole =~= frame@ + seq![FRAME_DELIMITER] + self.data@);
        Some(frame)
    }
}

/// Seal one outbound response for the wire: the response bytes followed by
/// the frame delimiter, ready to be written back on the connection as one
/// line.
#[verifier::loop_isolation(false)]
pub fn encode_frame(response: &[u8]) -> (r: Vec<u8>)
    ensures
        r@ == response@ + seq![FRAME_DELIMITER],
{
    let mut r: Vec<u8> = Vec::new();
    let mut i: usize = 0;
    while i < response.len()
        invariant
            i <= response.len(),
            r@ == response@.subrange(0, i as int),
        decreases response.len() - i,
    {
        r.push(response[i]);
        i = i + 1;
        assert(r@ =~= response@.subrange(0, i as int));
    }
    r.push(FRAME_DELIMITER);
    assert(r@ =~= response@ + seq![FRAME_DELIMITER]);
    r
}

} // verus!
