use vstd::prelude::*;

use crate::error::PacketError;
use crate::packet_io::{be16_bytes, be32_bytes, PacketReader, PacketWriter};

verus! {

/// An in-memory transport: the session's view of one TCP connection.
///
/// The caller appends bytes received from the network with `feed` and
/// sends whatever `take_output` returns; the packet machinery consumes
/// `input` through the `PacketReader` primitives and appends to `output`
/// through the `PacketWriter` primitives.
pub struct ByteStream {
    input: Vec<u8>,
    pos: usize,
    output: Vec<u8>,
}

impl ByteStream {
    pub fn new() -> (r: ByteStream)
        ensures
            r.stream() == Seq::<u8>::empty(),
            r.rpos() == 0,
            r.sink() == Seq::<u8>::empty(),
            r.r_wf(),
    {
        ByteStream { input: Vec::new(), pos: 0, output: Vec::new() }
    }

    /// Appends bytes delivered by the transport.
    pub fn feed(&mut self, data: &[u8])
        requires
            old(self).r_wf(),
        ensures
            final(self).r_wf(),
            final(self).stream() == old(self).stream() + data@,
            final(self).rpos() == old(self).rpos(),
            final(self).sink() == old(self).sink(),
    {
        let mut i: usize = 0;
        while i < data.len()
            invariant
                i <= data.len(),
                self.input@ == old(self).input@ + data@.subrange(0, i as int),
                self.pos == old(self).pos,
                self.output@ == old(self).output@,
            decreases data.len() - i,
        {
            self.input.push(data[i]);
            i += 1;
            assert(self.input@ =~= old(self).input@ + data@.subrange(0, i as int));
        }
        assert(data@.subrange(0, data@.len() as int) =~= data@);
    }

    /// Hands back everything written so far and clears the send buffer.
    pub fn take_output(&mut self) -> (r: Vec<u8>)
        ensures
            r@ == old(self).sink(),
            final(self).sink() == Seq::<u8>::empty(),
            final(self).stream() == old(self).stream(),
            final(self).rpos() == old(self).rpos(),
            old(self).r_wf() ==> final(self).r_wf(),
    {
        let r = self.output.clone();
        self.output.clear();
        r
    }

    /// How many input bytes have been consumed so far.
    pub fn consumed(&self) -> (r: usize)
        ensures
            r == self.rpos(),
    {
        self.pos
    }
}

impl PacketReader for ByteStream {
    closed spec fn stream(&self) -> Seq<u8> {
        self.input@
    }

    closed spec fn rpos(&self) -> int {
        self.pos as int
    }

    closed spec fn r_wf(&self) -> bool {
        self.pos <= self.input.len()
    }

    fn read_u8(&mut self) -> (r: Result<u8, PacketError>) {
        if self.pos < self.input.len() {
            let b = self.input[self.pos];
            self.pos = self.pos + 1;
            Ok(b)
        } else {
            Err(PacketError::InsufficientDataError)
        }
    }

    fn read_i8(&mut self) -> (r: Result<i8, PacketError>) {
        if self.pos < self.input.len() {
            let b = self.input[self.pos];
            self.pos = self.pos + 1;
            Ok(b as i8)
        } else {
            Err(PacketError::InsufficientDataError)
        }
    }

    fn read_u16(&mut self) -> (r: Result<u16, PacketError>) {
        if self.input.len() - self.pos >= 2 {
            let b0 = self.input[self.pos];
            let b1 = self.input[self.pos + 1];
            self.pos = self.pos + 2;
            Ok((b0 as u16) * 0x100 + (b1 as u16))
        } else {
            Err(PacketError::InsufficientDataError)
        }
    }

    fn read_i16(&mut self) -> (r: Result<i16, PacketError>) {
        if self.input.len() - self.pos >= 2 {
            let b0 = self.input[self.pos];
            let b1 = self.input[self.pos + 1];
            self.pos = self.pos + 2;
            let v: i32 = (b0 as i32) * 0x100 + (b1 as i32);
            if v >= 0x8000 {
                Ok((v - 0x10000) as i16)
            } else {
                Ok(v as i16)
            }
        } else {
            Err(PacketError::InsufficientDataError)
        }
    }

    fn read_u32(&mut self) -> (r: Result<u32, PacketError>) {
        if self.input.len() - self.pos >= 4 {
            let b0 = self.input[self.pos];
            let b1 = self.input[self.pos + 1];
            let b2 = self.input[self.pos + 2];
            let b3 = self.input[self.pos + 3];
            self.pos = self.pos + 4;
            Ok(
                (b0 as u32) * 0x1000000 + (b1 as u32) * 0x10000 + (b2 as u32) * 0x100 + (
                b3 as u32),
            )
        } else {
            Err(PacketError::InsufficientDataError)
        }
    }

    fn read_packet_size(&mut self) -> (r: Result<u32, PacketError>) {
        self.read_u32()
    }

    fn read_bytes_exact(&mut self, n: usize) -> (r: Result<Vec<u8>, PacketError>) {
        if self.input.len() - self.pos >= n {
            let mut v: Vec<u8> = Vec::new();
            let mut i: usize = 0;
            while i < n
                invariant
                    i <= n,
                    self.pos + n <= self.input.len(),
                    self.pos == old(self).pos,
                    self.input@ == old(self).input@,
                    self.output@ == old(self).output@,
                    v@ == self.input@.subrange(self.pos as int, self.pos + i),
                decreases n - i,
            {
                v.push(self.input[self.pos + i]);
                i += 1;
                assert(v@ =~= self.input@.subrange(self.pos as int, self.pos + i));
            }
            self.pos = self.pos + n;
            Ok(v)
        } else {
            Err(PacketError::InsufficientDataError)
        }
    }

    fn discard_exact(&mut self, n: usize) -> (r: Result<(), PacketError>) {
        if self.input.len() - self.pos >= n {
            self.pos = self.pos + n;
            Ok(())
        } else {
            Err(PacketError::InsufficientDataError)
        }
    }

    fn has_frame(&self) -> (r: bool) {
        if self.input.len() - self.pos >= 4 {
            let b0 = self.input[self.pos];
            let b1 = self.input[self.pos + 1];
            let b2 = self.input[self.pos + 2];
            let b3 = self.input[self.pos + 3];
            let size: u32 = (b0 as u32) * 0x1000000 + (b1 as u32) * 0x10000 + (b2 as u32) * 0x100
                + (b3 as u32);
            let rem: usize = self.input.len() - (self.pos + 4);
            size as usize <= rem
        } else {
            false
        }
    }
}

impl PacketWriter for ByteStream {
    closed spec fn sink(&self) -> Seq<u8> {
        self.output@
    }

    fn write_u16(&mut self, data: u16) -> (r: Result<(), PacketError>) {
        self.output.push((data / 0x100) as u8);
        self.output.push((data % 0x100) as u8);
        assert(self.output@ =~= old(self).output@ + be16_bytes(data as int));
        Ok(())
    }

    fn write_u32(&mut self, data: u32) -> (r: Result<(), PacketError>) {
        self.output.push((data / 0x1000000) as u8);
        self.output.push((data / 0x10000 % 0x100) as u8);
        self.output.push((data / 0x100 % 0x100) as u8);
        self.output.push((data % 0x100) as u8);
        assert(self.output@ =~= old(self).output@ + be32_bytes(data as int));
        Ok(())
    }

    fn write_str(&mut self, data: &str) -> (r: Result<(), PacketError>) {
        let bytes = data.as_bytes();
        let n = bytes.len();
        let res = self.write_u32(n as u32);
        match res {
            Ok(()) => self.write_all(bytes),
            Err(e) => Err(e),
        }
    }

    fn write_all(&mut self, data: &[u8]) -> (r: Result<(), PacketError>) {
        let mut i: usize = 0;
        while i < data.len()
            invariant
                i <= data.len(),
                self.output@ == old(self).output@ + data@.subrange(0, i as int),
                self.input@ == old(self).input@,
                self.pos == old(self).pos,
            decreases data.len() - i,
        {
            self.output.push(data[i]);
            i += 1;
            assert(self.output@ =~= old(self).output@ + data@.subrange(0, i as int));
        }
        assert(data@.subrange(0, data@.len() as int) =~= data@);
        Ok(())
    }
}

} // verus!
