use vstd::prelude::*;

verus! {

/// The bytes of `c` that a positional read of at most `n` bytes at offset `o` yields:
/// none at or past the end, otherwise up to `n` of them, fewer where the end comes first.
pub open spec fn read_model(c: Seq<u8>, o: nat, n: nat) -> Seq<u8> {
    if o >= c.len() {
        Seq::empty()
    } else if o + n <= c.len() {
        c.subrange(o as int, (o + n) as int)
    } else {
        c.subrange(o as int, c.len() as int)
    }
}

/// The contents after a positional write of `b` at offset `o` into `c`: the bytes of
/// `b` replace those at `o..o + |b|`, a gap past the old end reads as zeros, and an
/// empty write changes nothing.
pub open spec fn write_model(c: Seq<u8>, o: nat, b: Seq<u8>) -> Seq<u8> {
    if b.len() == 0 {
        c
    } else {
        let end = o + b.len();
        let len = if end > c.len() { end } else { c.len() };
        Seq::new(
            len,
            |i: int|
                if o <= i < end {
                    b[i - o]
                } else if i < c.len() {
                    c[i]
                } else {
                    0u8
                },
        )
    }
}

/// Reading back, at the same offset, as many bytes as were just written there gives
/// exactly the bytes written, whatever the file held before.
pub proof fn lemma_write_then_read(c: Seq<u8>, o: nat, b: Seq<u8>)
    ensures
        read_model(write_model(c, o, b), o, b.len()) == b,
{
    assert(read_model(write_model(c, o, b), o, b.len()) =~= b);
}

/// Positional I/O on an open file: reads and writes addressed by an absolute offset,
/// with no cursor.
pub trait OffsetIo: Sized {
    /// What the file holds. Every verified handle defines its own. The default is
    /// there only so that handles written outside Verus, which cannot define a spec
    /// function, can implement the trait; being closed, it is never unfolded for a
    /// handle in generic code.
    closed spec fn contents(&self) -> Seq<u8> {
        Seq::empty()
    }

    /// The current length of the file. A handle whose length cannot be known is not
    /// handed out: its opener fails instead.
    fn len(&self) -> (r: u64)
        ensures
            r as nat == self.contents().len(),
    ;

    /// Reads up to `buf.len()` bytes at `offset` into the front of `buf`; stops only
    /// at the end of the file, and leaves the rest of `buf` alone. `None` when the
    /// device fails.
    fn pread(&self, buf: &mut Vec<u8>, offset: u64) -> (r: Option<usize>)
        ensures
            final(buf)@.len() == old(buf)@.len(),
            match r {
                Some(n) => {
                    let got = read_model(self.contents(), offset as nat, old(buf)@.len());
                    &&& n as nat == got.len()
                    &&& final(buf)@.subrange(0, n as int) == got
                    &&& final(buf)@.subrange(n as int, final(buf)@.len() as int)
                        == old(buf)@.subrange(n as int, old(buf)@.len() as int)
                },
                None => true,
            },
    ;

    /// Writes all of `buf` at `offset`. `None` when the device fails, after which
    /// the contents are unknown.
    fn pwrite(&mut self, buf: &Vec<u8>, offset: u64) -> (r: Option<usize>)
        ensures
            match r {
                Some(n) => {
                    &&& n == buf@.len()
                    &&& final(self).contents() == write_model(old(self).contents(), offset as nat, buf@)
                },
                None => true,
            },
    ;
}

/// A file held in memory.
#[derive(Debug, Clone)]
pub struct MemFile {
    bytes: Vec<u8>,
}

impl MemFile {
    /// A file that holds `bytes`.
    pub fn new(bytes: Vec<u8>) -> (r: MemFile)
        ensures
            r.contents() == bytes@,
    {
        MemFile { bytes }
    }

    /// What the file holds.
    pub fn as_bytes(&self) -> (r: &Vec<u8>)
        ensures
            r@ == self.contents(),
    {
        &self.bytes
    }
}

impl OffsetIo for MemFile {
    closed spec fn contents(&self) -> Seq<u8> {
        self.bytes@
    }

    fn len(&self) -> (r: u64) {
        self.bytes.len() as u64
    }

    fn pread(&self, buf: &mut Vec<u8>, offset: u64) -> (r: Option<usize>) {
        let len = self.bytes.len();
        if offset >= len as u64 {
            assert(buf@.subrange(0, buf@.len() as int) =~= buf@);
            return Some(0);
        }
        let start = offset as usize;
        let avail = len - start;
        let n: usize = if buf.len() < avail { buf.len() } else { avail };
        let ghost want = read_model(self.bytes@, offset as nat, buf@.len());
        let ghost before = buf@;
        let mut i: usize = 0;
        while i < n
            invariant
                i <= n,
                n <= buf@.len(),
                start + n <= len,
                len == self.bytes@.len(),
                start == offset,
                buf@.len() == before.len(),
                want == self.bytes@.subrange(start as int, start + n),
                forall|k: int| 0 <= k < i ==> buf@[k] == want[k],
                forall|k: int| i <= k < before.len() ==> buf@[k] == before[k],
            decreases n - i,
        {
            buf[i] = self.bytes[start + i];
            i = i + 1;
        }
        assert(buf@.subrange(0, n as int) =~= want);
        assert(buf@.subrange(n as int, buf@.len() as int) =~= before.subrange(
            n as int,
            before.len() as int,
        ));
        Some(n)
    }

    fn pwrite(&mut self, buf: &Vec<u8>, offset: u64) -> (r: Option<usize>) {
        if buf.len() == 0 {
            return Some(0);
        }
        if offset > (usize::MAX - buf.len()) as u64 {
            return None;
        }
        let start = offset as usize;
        let end = start + buf.len();
        let ghost want = write_model(self.bytes@, offset as nat, buf@);
        let ghost before = self.bytes@;
        while self.bytes.len() < start
            invariant
                before.len() <= self.bytes@.len() <= if before.len() > start { before.len() } else { start as nat },
                forall|k: int| 0 <= k < before.len() ==> self.bytes@[k] == before[k],
                forall|k: int| before.len() <= k < self.bytes@.len() ==> self.bytes@[k] == 0u8,
            decreases start - self.bytes@.len(),
        {
            self.bytes.push(0u8);
        }
        let mut i: usize = 0;
        while i < buf.len()
            invariant
                start + buf@.len() == end,
                start == offset,
                buf@.len() > 0,
                want == write_model(before, offset as nat, buf@),
                i <= buf@.len(),
                self.bytes@.len() >= start + i,
                self.bytes@.len() == if before.len() > start + i { before.len() } else { (start + i) as nat },
                forall|k: int| 0 <= k < start + i ==> self.bytes@[k] == want[k],
                forall|k: int| start + i <= k < self.bytes@.len() ==> self.bytes@[k] == before[k],
            decreases buf@.len() - i,
        {
            if start + i < self.bytes.len() {
                self.bytes.set(start + i, buf[i]);
            } else {
                self.bytes.push(buf[i]);
            }
            i = i + 1;
        }
        assert(self.bytes@ =~= want);
        Some(buf.len())
    }
}

} // verus!
