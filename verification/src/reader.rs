use vstd::prelude::*;

use crate::error::MooshroomError;

verus! {

/// A cursor over a fully buffered byte sequence.
///
/// Decoding works frame by frame: the frame codec hands each packet body to a
/// `Reader`, and the packet decoders consume it from the front.  `remaining()`
/// is the sequence of bytes not yet consumed; every decoder's contract is
/// stated against it.
pub struct Reader {
    data: Vec<u8>,
    pos: usize,
}

impl Reader {
    pub closed spec fn data(&self) -> Seq<u8> {
        self.data@
    }

    pub closed spec fn pos(&self) -> int {
        self.pos as int
    }

    pub open spec fn wf(&self) -> bool {
        0 <= self.pos() <= self.data().len()
    }

    pub open spec fn remaining(&self) -> Seq<u8> {
        self.data().skip(self.pos())
    }

    pub fn new(data: Vec<u8>) -> (r: Reader)
        ensures
            r.wf(),
            r.data() == data@,
            r.pos() == 0,
            r.remaining() == data@,
    {
        let r = Reader { data, pos: 0 };
        proof {
            assert(r.remaining() =~= r.data());
        }
        r
    }

    /// How many bytes are left to read.
    pub fn remaining_len(&self) -> (n: usize)
        requires
            self.wf(),
        ensures
            n == self.remaining().len(),
    {
        self.data.len() - self.pos
    }

    /// Consume one byte; fails once the input is exhausted.
    pub fn read_u8(&mut self) -> (res: Result<u8, MooshroomError>)
        requires
            old(self).wf(),
        ensures
            final(self).wf(),
            final(self).data() == old(self).data(),
            match res {
                Ok(b) => {
                    &&& old(self).remaining().len() > 0
                    &&& b == old(self).remaining()[0]
                    &&& final(self).pos() == old(self).pos() + 1
                },
                Err(e) => {
                    &&& old(self).remaining().len() == 0
                    &&& final(self).pos() == old(self).pos()
                    &&& e is IoError
                },
            },
    {
        if self.pos < self.data.len() {
            let b = self.data[self.pos];
            self.pos = self.pos + 1;
            Ok(b)
        } else {
            Err(MooshroomError::IoError)
        }
    }

    /// Consume exactly `n` bytes; fails if fewer are left.
    pub fn read_exact(&mut self, n: usize) -> (res: Result<Vec<u8>, MooshroomError>)
        requires
            old(self).wf(),
        ensures
            final(self).wf(),
            final(self).data() == old(self).data(),
            match res {
                Ok(v) => {
                    &&& n <= old(self).remaining().len()
                    &&& v@ == old(self).remaining().take(n as int)
                    &&& final(self).pos() == old(self).pos() + n
                },
                Err(e) => {
                    &&& old(self).remaining().len() < n
                    &&& final(self).pos() == old(self).pos()
                    &&& e is IoError
                },
            },
    {
        if n > self.data.len() - self.pos {
            return Err(MooshroomError::IoError);
        }
        let mut out: Vec<u8> = Vec::new();
        let mut i: usize = 0;
        while i < n
            invariant
                old(self).wf(),
                self.data() == old(self).data(),
                self.pos() == old(self).pos(),
                self.data().len() <= usize::MAX,
                i <= n,
                self.pos() + n <= self.data().len(),
                n <= old(self).remaining().len(),
                out@ == old(self).remaining().take(i as int),
            decreases n - i,
        {
            let b = self.data[self.pos + i];
            proof {
                assert(old(self).remaining().take(i + 1) =~= old(self).remaining().take(i as int)
                    + seq![old(self).data()[old(self).pos() + i]]);
            }
            out.push(b);
            i = i + 1;
        }
        self.pos = self.pos + n;
        Ok(out)
    }

    /// Skip over `n` bytes without copying them; fails if fewer are left.
    pub fn skip_bytes(&mut self, n: usize) -> (res: Result<(), MooshroomError>)
        requires
            old(self).wf(),
        ensures
            final(self).wf(),
            final(self).data() == old(self).data(),
            match res {
                Ok(()) => {
                    &&& n <= old(self).remaining().len()
                    &&& final(self).pos() == old(self).pos() + n
                },
                Err(e) => {
                    &&& old(self).remaining().len() < n
                    &&& final(self).pos() == old(self).pos()
                    &&& e is IoError
                },
            },
    {
        if n > self.data.len() - self.pos {
            return Err(MooshroomError::IoError);
        }
        self.pos = self.pos + n;
        Ok(())
    }

    /// The current position, for later use with `copy_since`.
    pub fn mark(&self) -> (p: usize)
        requires
            self.wf(),
        ensures
            p as int == self.pos(),
    {
        self.pos
    }

    /// Copy the bytes consumed since `start`.
    pub fn copy_since(&self, start: usize) -> (v: Vec<u8>)
        requires
            self.wf(),
            start as int <= self.pos(),
        ensures
            v@ == self.data().subrange(start as int, self.pos()),
    {
        let mut out: Vec<u8> = Vec::new();
        let mut i: usize = start;
        while i < self.pos
            invariant
                self.wf(),
                start <= i <= self.pos(),
                out@ == self.data().subrange(start as int, i as int),
            decreases self.pos() - i,
        {
            proof {
                assert(self.data().subrange(start as int, i + 1) =~= self.data().subrange(
                    start as int,
                    i as int,
                ).push(self.data()[i as int]));
            }
            out.push(self.data[i]);
            i = i + 1;
        }
        out
    }
}

} // verus!
