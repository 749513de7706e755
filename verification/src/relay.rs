//! The blind relay's forwarding discipline.
//!
//! A relay shuttles bytes between its inbound connection and its one
//! configured next hop without parsing, trimming or reordering them. The
//! sockets live outside the library; each copy direction owns a
//! `RelayPipe`, hands it every chunk read, and writes out exactly what the
//! pipe returns. The pipe's ghost transcript shows the relay transparent:
//! what has been forwarded is, byte for byte, what was received.

use vstd::prelude::*;
use crate::crypto::vec_range;

verus! {

/// One direction of a relayed connection, with a ghost transcript of the
/// bytes that came in and the bytes that went out.
pub struct RelayPipe {
    /// Every byte received from the source so far, in order.
    pub received: Ghost<Seq<u8>>,
    /// Every byte handed to the sink so far, in order.
    pub forwarded: Ghost<Seq<u8>>,
}

impl RelayPipe {
    /// The relay is transparent: the outbound stream is the inbound stream.
    pub open spec fn transparent(&self) -> bool {
        self.forwarded@ == self.received@
    }

    /// A fresh direction with an empty transcript.
    pub fn new() -> (r: Self)
        ensures
            r.received@ == Seq::<u8>::empty(),
            r.forwarded@ == Seq::<u8>::empty(),
            r.transparent(),
    {
        RelayPipe { received: Ghost(Seq::empty()), forwarded: Ghost(Seq::empty()) }
    }

    /// Take the `n` bytes just read into `buf` and return the bytes to
    /// write to the next hop: exactly those bytes, unchanged and in order.
    /// Transparency is preserved.
    pub fn forward_chunk(&mut self, buf: &Vec<u8>, n: usize) -> (out: Vec<u8>)
        requires
            n <= buf@.len(),
        ensures
            out@ == buf@.take(n as int),
            final(self).received@ == old(self).received@ + buf@.take(n as int),
            final(self).forwarded@ == old(self).forwarded@ + out@,
            old(self).transparent() ==> final(self).transparent(),
    {
        let out = vec_range(buf, 0, n);
        proof {
            self.received@ = self.received@ + buf@.take(n as int);
            self.forwarded@ = self.forwarded@ + out@;
        }
        assert(buf@.subrange(0, n as int) =~= buf@.take(n as int));
        out
    }
}

} // verus!
