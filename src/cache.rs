//! A byte sink of fixed capacity, into which the documentation block is
//! decompressed.
use vstd::prelude::*;

verus! {

/// A buffer of fixed capacity that is filled from the front.
pub struct FixedBuffer {
    buffer: Vec<u8>,
    position: usize,
}

impl FixedBuffer {
    /// The bytes written so far.
    pub closed spec fn written(&self) -> Seq<u8> {
        self.buffer@.subrange(0, self.position as int)
    }

    /// How many bytes the buffer can hold.
    pub closed spec fn capacity(&self) -> nat {
        self.buffer@.len()
    }

    /// The written bytes fit in the buffer.
    pub closed spec fn wf(&self) -> bool {
        self.position <= self.buffer@.len()
    }

    /// An empty buffer that can hold `capacity` bytes.
    pub fn new(capacity: usize) -> (r: FixedBuffer)
        ensures
            r.wf(),
            r.written() == Seq::<u8>::empty(),
            r.capacity() == capacity,
    {
        let mut buffer: Vec<u8> = Vec::with_capacity(capacity);
        let mut i: usize = 0;
        while i < capacity
            invariant
                i <= capacity,
                buffer@.len() == i,
            decreases capacity - i,
        {
            buffer.push(0);
            i = i + 1;
        }
        let r = FixedBuffer { buffer, position: 0 };
        assert(r.written() =~= Seq::<u8>::empty());
        r
    }

    /// Number of bytes written so far.
    pub fn len(&self) -> (r: usize)
        requires
            self.wf(),
        ensures
            r == self.written().len(),
    {
        self.position
    }

    /// Appends as much of `buf` as there is room for; returns how many bytes
    /// were taken, which is all of them unless the buffer fills up.
    pub fn write(&mut self, buf: &[u8]) -> (r: usize)
        requires
            old(self).wf(),
        ensures
            final(self).wf(),
            final(self).capacity() == old(self).capacity(),
            r == if buf@.len() <= old(self).capacity() - old(self).written().len() {
                buf@.len()
            } else {
                (old(self).capacity() - old(self).written().len()) as nat
            },
            final(self).written() == old(self).written() + buf@.subrange(0, r as int),
    {
        let room = self.buffer.len() - self.position;
        let n: usize = if buf.len() <= room {
            buf.len()
        } else {
            room
        };
        let start = self.position;
        let cap = self.buffer.len();
        let ghost before = self.buffer@;
        let mut i: usize = 0;
        while i < n
            invariant
                i <= n,
                n <= buf@.len(),
                start + n <= cap,
                cap == before.len(),
                start == self.position,
                self.buffer@.len() == before.len(),
                forall|k: int| 0 <= k < start ==> #[trigger] self.buffer@[k] == before[k],
                forall|k: int| 0 <= k < i ==> #[trigger] self.buffer@[start + k] == buf@[k],
            decreases n - i,
        {
            self.buffer.set(start + i, buf[i]);
            i = i + 1;
        }
        self.position = start + n;
        assert forall|m: int| start <= m < start + n implies self.buffer@[m] == buf@[m - start] by {
            assert(self.buffer@[start + (m - start)] == buf@[m - start]);
        }
        assert(self.written() =~= before.subrange(0, start as int) + buf@.subrange(0, n as int));
        n
    }

    /// Nothing is held back, so there is nothing to flush.
    pub fn flush(&mut self)
        requires
            old(self).wf(),
        ensures
            *final(self) == *old(self),
    {
    }

    /// The bytes written so far.
    pub fn into_written(self) -> (r: Vec<u8>)
        requires
            self.wf(),
        ensures
            r@ == self.written(),
    {
        let mut buffer = self.buffer;
        buffer.truncate(self.position);
        assert(buffer@ =~= self.written());
        buffer
    }
}

} // verus!
