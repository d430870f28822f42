//! In-memory byte streams that stand for the file a document is kept in.

use vstd::prelude::*;

verus! {

/// A byte source that is read front to back, like a file opened for reading.
pub struct ByteReader {
    data: Vec<u8>,
    pos: usize,
}

impl ByteReader {
    #[verifier::type_invariant]
    spec fn inv(self) -> bool {
        self.pos <= self.data.len()
    }

    /// The bytes that have not been read yet.
    pub closed spec fn remaining(self) -> Seq<u8> {
        self.data@.skip(self.pos as int)
    }

    /// A reader positioned at the start of `data`.
    pub fn new(data: Vec<u8>) -> (reader: Self)
        ensures
            reader.remaining() == data@,
    {
        ByteReader { data, pos: 0 }
    }

    /// Number of bytes that have not been read yet.
    pub fn len(&self) -> (n: usize)
        ensures
            n == self.remaining().len(),
    {
        proof {
            use_type_invariant(self);
        }
        self.data.len() - self.pos
    }

    /// Reads the next `N` bytes. When fewer than `N` bytes are left the
    /// read fails and the reader stays where it was.
    pub fn read_exact<const N: usize>(&mut self) -> (block: Option<[u8; N]>)
        ensures
            old(self).remaining().len() >= N ==> block.is_some()
                && block.unwrap()@ == old(self).remaining().take(N as int)
                && final(self).remaining() == old(self).remaining().skip(N as int),
            old(self).remaining().len() < N ==> block.is_none() && *final(self) == *old(self),
    {
        proof {
            use_type_invariant(&*self);
        }
        if self.data.len() - self.pos < N {
            return None;
        }
        let mut block: [u8; N] = [0u8; N];
        let mut i: usize = 0;
        while i < N
            invariant
                i <= N,
                self.pos + N <= self.data.len(),
                forall|k: int| 0 <= k < i ==> block@[k] == self.data@[self.pos + k],
            decreases N - i,
        {
            block[i] = self.data[self.pos + i];
            i = i + 1;
        }
        assert(block@ =~= self.remaining().take(N as int));
        assert(self.data@.skip(self.pos + N) =~= self.remaining().skip(N as int));
        self.pos = self.pos + N;
        Some(block)
    }

    /// Reads everything that is left.
    pub fn read_to_end(&mut self) -> (rest: Vec<u8>)
        ensures
            rest@ == old(self).remaining(),
            final(self).remaining() == Seq::<u8>::empty(),
    {
        proof {
            use_type_invariant(&*self);
        }
        let mut rest: Vec<u8> = Vec::new();
        let start: usize = self.pos;
        let mut i: usize = start;
        while i < self.data.len()
            invariant
                start <= i <= self.data.len(),
                rest@ == self.data@.subrange(start as int, i as int),
            decreases self.data.len() - i,
        {
            rest.push(self.data[i]);
            assert(rest@ =~= self.data@.subrange(start as int, i + 1));
            i = i + 1;
        }
        assert(rest@ =~= self.remaining());
        self.pos = self.data.len();
        assert(self.remaining() =~= Seq::<u8>::empty());
        rest
    }
}

/// A byte sink with a fixed amount of room, like a file on a device that
/// can fill up.
pub struct ByteWriter {
    data: Vec<u8>,
    limit: usize,
}

impl ByteWriter {
    /// The bytes written so far.
    pub closed spec fn written(self) -> Seq<u8> {
        self.data@
    }

    /// How many more bytes the sink takes.
    pub closed spec fn room(self) -> nat {
        if self.data.len() <= self.limit {
            (self.limit - self.data.len()) as nat
        } else {
            0
        }
    }

    /// An empty sink that takes at most `limit` bytes.
    pub fn with_limit(limit: usize) -> (writer: Self)
        ensures
            writer.written() == Seq::<u8>::empty(),
            writer.room() == limit,
    {
        ByteWriter { data: Vec::new(), limit }
    }

    /// An empty sink that takes as much as memory holds.
    pub fn new() -> (writer: Self)
        ensures
            writer.written() == Seq::<u8>::empty(),
            writer.room() == usize::MAX,
    {
        ByteWriter { data: Vec::new(), limit: usize::MAX }
    }

    /// Appends all of `bytes`. When they do not fit, nothing is written and
    /// the write fails.
    pub fn write_all(&mut self, bytes: &[u8]) -> (done: bool)
        ensures
            done <==> bytes@.len() <= old(self).room(),
            done ==> final(self).written() == old(self).written() + bytes@ && final(self).room()
                == old(self).room() - bytes@.len(),
            !done ==> *final(self) == *old(self),
    {
        let room: usize = if self.data.len() <= self.limit {
            self.limit - self.data.len()
        } else {
            0
        };
        if bytes.len() > room {
            return false;
        }
        self.data.extend_from_slice(bytes);
        true
    }

    /// The bytes written, in order.
    pub fn into_bytes(self) -> (bytes: Vec<u8>)
        ensures
            bytes@ == self.written(),
    {
        self.data
    }
}

} // verus!
