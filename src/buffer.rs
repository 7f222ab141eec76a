use std::collections::VecDeque;
use vstd::prelude::*;

verus! {

/// A bounded first-in, first-out queue of outgoing bytes.
pub trait SerialBuffer: Sized {
    /// The bytes waiting to be read, oldest first.
    spec fn contents(&self) -> Seq<u8>;

    /// The most bytes the buffer holds.
    spec fn bound(&self) -> nat;

    /// An empty buffer that holds up to `buffer_size` bytes.
    fn new(buffer_size: usize) -> (r: Self)
        requires
            buffer_size > 0,
        ensures
            r.contents() == Seq::<u8>::empty(),
            r.bound() == buffer_size,
    ;

    /// Appends `value`, or drops it when the buffer is full.
    fn write(&mut self, value: u8)
        ensures
            final(self).bound() == old(self).bound(),
            old(self).contents().len() < old(self).bound() ==> final(self).contents()
                == old(self).contents().push(value),
            old(self).contents().len() >= old(self).bound() ==> final(self).contents()
                == old(self).contents(),
    ;

    /// Takes the oldest byte, if any.
    fn read(&mut self) -> (r: Option<u8>)
        ensures
            final(self).bound() == old(self).bound(),
            old(self).contents().len() == 0 ==> r is None && final(self).contents()
                == old(self).contents(),
            old(self).contents().len() > 0 ==> r == Some(old(self).contents()[0])
                && final(self).contents() == old(self).contents().drop_first(),
    ;

    /// Takes every byte, oldest first.
    fn read_all(&mut self) -> (r: Vec<u8>)
        ensures
            final(self).bound() == old(self).bound(),
            r@ == old(self).contents(),
            final(self).contents() == Seq::<u8>::empty(),
    ;

    /// Drops every byte.
    fn reset(&mut self)
        ensures
            final(self).bound() == old(self).bound(),
            final(self).contents() == Seq::<u8>::empty(),
    ;

    /// How many bytes are waiting.
    fn available_to_read(&self) -> (r: usize)
        ensures
            r == self.contents().len(),
    ;
}

/// A `SerialBuffer` over a double-ended queue, bounded by the size it was made with.
pub struct SimpleBuffer {
    buf: VecDeque<u8>,
    capacity: usize,
}

impl SerialBuffer for SimpleBuffer {
    closed spec fn contents(&self) -> Seq<u8> {
        self.buf@
    }

    closed spec fn bound(&self) -> nat {
        self.capacity as nat
    }

    fn new(buffer_size: usize) -> (r: Self) {
        SimpleBuffer { buf: VecDeque::with_capacity(buffer_size), capacity: buffer_size }
    }

    fn write(&mut self, value: u8) {
        if self.buf.len() < self.capacity {
            self.buf.push_back(value);
        }
    }

    fn read(&mut self) -> (r: Option<u8>) {
        self.buf.pop_front()
    }

    fn read_all(&mut self) -> (r: Vec<u8>) {
        let n = self.available_to_read();
        let mut data = Vec::<u8>::with_capacity(n);
        let mut i: usize = 0;
        while i < n
            invariant
                n == old(self).buf@.len(),
                i <= n,
                self.capacity == old(self).capacity,
                data@ == old(self).buf@.take(i as int),
                self.buf@ == old(self).buf@.skip(i as int),
            decreases n - i,
        {
            let b = self.buf.pop_front();
            match b {
                Some(v) => data.push(v),
                None => data.push(0),
            }
            proof {
                assert(data@ =~= old(self).buf@.take(i + 1));
                assert(self.buf@ =~= old(self).buf@.skip(i + 1));
            }
            i = i + 1;
        }
        proof {
            assert(data@ =~= old(self).buf@);
            assert(self.buf@ =~= Seq::<u8>::empty());
        }
        data
    }

    fn reset(&mut self) {
        self.buf.clear();
    }

    fn available_to_read(&self) -> (r: usize) {
        self.buf.len()
    }
}

} // verus!
