//! The stream pump: the bytes drained from the pseudoterminal's
//! descriptor, accumulated in arrival order until end-of-stream.

use vstd::prelude::*;

verus! {

/// The bytes collected from one pseudoterminal session, in exactly
/// the order they arrived. Append-only while the read loop runs.
pub struct ByteAccumulator {
    data: Vec<u8>,
}

impl View for ByteAccumulator {
    type V = Seq<u8>;

    closed spec fn view(&self) -> Seq<u8> {
        self.data@
    }
}

impl ByteAccumulator {
    /// Creates an empty accumulator, as the read loop starts with.
    pub fn new() -> (a: ByteAccumulator)
        ensures
            a@ == Seq::<u8>::empty(),
    {
        ByteAccumulator { data: Vec::new() }
    }

    /// One step of the read loop. A successful read appends its chunk
    /// at the end, preserving arrival order, and the loop goes on; a
    /// failed read means the stream is closed: nothing changes and
    /// the loop ends.
    pub fn pump_step(&mut self, read: Option<Vec<u8>>) -> (closed: bool)
        ensures
            read matches Some(chunk) ==> !closed && final(self)@ == old(self)@ + chunk@,
            read is None ==> closed && final(self)@ == old(self)@,
    {
        match read {
            Some(mut chunk) => {
                self.data.append(&mut chunk);
                false
            },
            None => true,
        }
    }

    /// The bytes accumulated so far.
    pub fn bytes(&self) -> (b: &Vec<u8>)
        ensures
            b@ == self@,
    {
        &self.data
    }
}

/// The chunk a successful read of `count` bytes yields: the first
/// `count` bytes of the read buffer, in order.
pub fn read_chunk(buf: &[u8], count: usize) -> (chunk: Vec<u8>)
    requires
        count <= buf@.len(),
    ensures
        chunk@ == buf@.subrange(0, count as int),
{
    let mut chunk: Vec<u8> = Vec::new();
    for i in 0..count
        invariant
            count <= buf@.len(),
            chunk@ == buf@.subrange(0, i as int),
    {
        chunk.push(buf[i]);
        proof {
            assert(chunk@ =~= buf@.subrange(0, i + 1 as int));
        }
    }
    chunk
}

} // verus!
