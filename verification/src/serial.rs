//! The buffering behind the serial channel.
//!
//! Bytes arrive from the line one at a time and are queued; a read hands
//! out a fixed-size block: the queued bytes first, padded with zeroes.
//! Moving bytes to and from the physical line is the caller's part.

use vstd::prelude::*;

verus! {

/// A buffered serial endpoint.
pub struct Serial {
    /// Bytes received from the line and not yet consumed, oldest first.
    buffer: Vec<u8>,
}

impl Serial {
    /// The bytes received and not yet consumed, oldest first.
    pub closed spec fn buffered(self) -> Seq<u8> {
        self.buffer@
    }

    /// Creates an endpoint with an empty buffer.
    pub fn new() -> (r: Serial)
        ensures
            r.buffered() == Seq::<u8>::empty(),
    {
        Serial { buffer: Vec::new() }
    }

    /// Queues one byte read from the line.
    pub fn push_byte(&mut self, b: u8)
        ensures
            final(self).buffered() == old(self).buffered().push(b),
    {
        self.buffer.push(b);
    }

    /// Consumes up to `want` buffered bytes: the returned block holds
    /// exactly `want` bytes, the oldest buffered ones first and zeroes
    /// after them, and the second component says how many were real.
    /// The consumed bytes leave the buffer.
    pub fn read_buffered(&mut self, want: usize) -> (r: (Vec<u8>, usize))
        ensures
            ({
                let k = if want <= old(self).buffered().len() {
                    want as int
                } else {
                    old(self).buffered().len() as int
                };
                &&& r.1 == k
                &&& r.0@.len() == want
                &&& forall|i: int| 0 <= i < k ==> r.0@[i] == old(self).buffered()[i]
                &&& forall|i: int| k <= i < want ==> r.0@[i] == 0
                &&& final(self).buffered() == old(self).buffered().subrange(
                    k,
                    old(self).buffered().len() as int,
                )
            }),
    {
        let k: usize = if want <= self.buffer.len() {
            want
        } else {
            self.buffer.len()
        };
        let mut data: Vec<u8> = Vec::new();
        let mut i: usize = 0;
        while i < k
            invariant
                i <= k,
                k <= self.buffer@.len(),
                data@.len() == i,
                *self == *old(self),
                forall|q: int| 0 <= q < i ==> data@[q] == self.buffer@[q],
            decreases k - i,
        {
            data.push(self.buffer[i]);
            i += 1;
        }
        while data.len() < want
            invariant
                k <= data@.len() <= want,
                *self == *old(self),
                k <= self.buffer@.len(),
                forall|q: int| 0 <= q < k ==> data@[q] == self.buffer@[q],
                forall|q: int| k <= q < data@.len() ==> data@[q] == 0,
            decreases want - data@.len(),
        {
            data.push(0u8);
        }
        let rest = self.buffer.split_off(k);
        self.buffer = rest;
        (data, k)
    }
}

} // verus!
