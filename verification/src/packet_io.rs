use vstd::prelude::*;
use vstd::string::StringSliceAdditionalSpecFns;

use crate::error::PacketError;

verus! {

/// Value of the big-endian 16-bit field at offset `i` of `s`.
pub open spec fn be16_at(s: Seq<u8>, i: int) -> int {
    (s[i] as int) * 0x100 + (s[i + 1] as int)
}

/// Value of the big-endian 32-bit field at offset `i` of `s`.
pub open spec fn be32_at(s: Seq<u8>, i: int) -> int {
    (s[i] as int) * 0x1000000 + (s[i + 1] as int) * 0x10000 + (s[i + 2] as int) * 0x100 + (
    s[i + 3] as int)
}

/// Value of the big-endian 16-bit field at offset `i`, read as two's-complement.
pub open spec fn sbe16_at(s: Seq<u8>, i: int) -> int {
    if be16_at(s, i) >= 0x8000 {
        be16_at(s, i) - 0x10000
    } else {
        be16_at(s, i)
    }
}

/// The two big-endian bytes of a 16-bit value.
pub open spec fn be16_bytes(v: int) -> Seq<u8> {
    seq![(v / 0x100 % 0x100) as u8, (v % 0x100) as u8]
}

/// The four big-endian bytes of a 32-bit value.
pub open spec fn be32_bytes(v: int) -> Seq<u8> {
    seq![
        (v / 0x1000000 % 0x100) as u8,
        (v / 0x10000 % 0x100) as u8,
        (v / 0x100 % 0x100) as u8,
        (v % 0x100) as u8,
    ]
}

/// Reads the big-endian 16-bit field at offset `i` of a byte buffer.
pub fn read_be16(p: &Vec<u8>, i: usize) -> (r: u16)
    requires
        i + 2 <= p@.len(),
    ensures
        r == be16_at(p@, i as int),
{
    let _n: usize = p.len();
    (p[i] as u16) * 0x100 + (p[i + 1] as u16)
}

/// Reads the big-endian 16-bit field at offset `i`, as two's-complement.
pub fn read_sbe16(p: &Vec<u8>, i: usize) -> (r: i16)
    requires
        i + 2 <= p@.len(),
    ensures
        r == sbe16_at(p@, i as int),
{
    let _n: usize = p.len();
    let v: i32 = (p[i] as i32) * 0x100 + (p[i + 1] as i32);
    if v >= 0x8000 {
        (v - 0x10000) as i16
    } else {
        v as i16
    }
}

/// Reads the big-endian 32-bit field at offset `i` of a byte buffer.
pub fn read_be32(p: &Vec<u8>, i: usize) -> (r: u32)
    requires
        i + 4 <= p@.len(),
    ensures
        r == be32_at(p@, i as int),
{
    let _n: usize = p.len();
    (p[i] as u32) * 0x1000000 + (p[i + 1] as u32) * 0x10000 + (p[i + 2] as u32) * 0x100 + (p[i
        + 3] as u32)
}

/// A source of packet bytes: a readable stream with an explicit position.
///
/// `stream()` is everything the transport has delivered so far and `rpos()`
/// is how much of it has been consumed; each primitive reads big-endian
/// fields at the current position, or reports `InsufficientDataError`
/// without moving when the bytes are not there yet.
pub trait PacketReader: Sized {
    /// All bytes delivered by the transport so far.
    spec fn stream(&self) -> Seq<u8>;

    /// How many of those bytes have been consumed.
    spec fn rpos(&self) -> int;

    /// The position never runs past the delivered bytes.
    spec fn r_wf(&self) -> bool;

    fn read_u8(&mut self) -> (r: Result<u8, PacketError>)
        requires
            old(self).r_wf(),
        ensures
            final(self).r_wf(),
            final(self).stream() == old(self).stream(),
            match r {
                Ok(b) => final(self).rpos() == old(self).rpos() + 1 && old(self).rpos() + 1 <= old(
                    self,
                ).stream().len() && b == old(self).stream()[old(self).rpos()],
                Err(e) => e == PacketError::InsufficientDataError && final(self).rpos() == old(
                    self,
                ).rpos() && old(self).stream().len() < old(self).rpos() + 1,
            },
    ;

    fn read_i8(&mut self) -> (r: Result<i8, PacketError>)
        requires
            old(self).r_wf(),
        ensures
            final(self).r_wf(),
            final(self).stream() == old(self).stream(),
            match r {
                Ok(b) => final(self).rpos() == old(self).rpos() + 1 && old(self).rpos() + 1 <= old(
                    self,
                ).stream().len() && b == old(self).stream()[old(self).rpos()] as i8,
                Err(e) => e == PacketError::InsufficientDataError && final(self).rpos() == old(
                    self,
                ).rpos() && old(self).stream().len() < old(self).rpos() + 1,
            },
    ;

    fn read_u16(&mut self) -> (r: Result<u16, PacketError>)
        requires
            old(self).r_wf(),
        ensures
            final(self).r_wf(),
            final(self).stream() == old(self).stream(),
            match r {
                Ok(v) => final(self).rpos() == old(self).rpos() + 2 && old(self).rpos() + 2 <= old(
                    self,
                ).stream().len() && v == be16_at(old(self).stream(), old(self).rpos()),
                Err(e) => e == PacketError::InsufficientDataError && final(self).rpos() == old(
                    self,
                ).rpos() && old(self).stream().len() < old(self).rpos() + 2,
            },
    ;

    fn read_i16(&mut self) -> (r: Result<i16, PacketError>)
        requires
            old(self).r_wf(),
        ensures
            final(self).r_wf(),
            final(self).stream() == old(self).stream(),
            match r {
                Ok(v) => final(self).rpos() == old(self).rpos() + 2 && old(self).rpos() + 2 <= old(
                    self,
                ).stream().len() && v == sbe16_at(old(self).stream(), old(self).rpos()),
                Err(e) => e == PacketError::InsufficientDataError && final(self).rpos() == old(
                    self,
                ).rpos() && old(self).stream().len() < old(self).rpos() + 2,
            },
    ;

    fn read_u32(&mut self) -> (r: Result<u32, PacketError>)
        requires
            old(self).r_wf(),
        ensures
            final(self).r_wf(),
            final(self).stream() == old(self).stream(),
            match r {
                Ok(v) => final(self).rpos() == old(self).rpos() + 4 && old(self).rpos() + 4 <= old(
                    self,
                ).stream().len() && v == be32_at(old(self).stream(), old(self).rpos()),
                Err(e) => e == PacketError::InsufficientDataError && final(self).rpos() == old(
                    self,
                ).rpos() && old(self).stream().len() < old(self).rpos() + 4,
            },
    ;

    /// Reads the four-byte length prefix of the next message.
    fn read_packet_size(&mut self) -> (r: Result<u32, PacketError>)
        requires
            old(self).r_wf(),
        ensures
            final(self).r_wf(),
            final(self).stream() == old(self).stream(),
            match r {
                Ok(v) => final(self).rpos() == old(self).rpos() + 4 && old(self).rpos() + 4 <= old(
                    self,
                ).stream().len() && v == be32_at(old(self).stream(), old(self).rpos()),
                Err(e) => e == PacketError::InsufficientDataError && final(self).rpos() == old(
                    self,
                ).rpos() && old(self).stream().len() < old(self).rpos() + 4,
            },
    ;

    /// Reads exactly `n` bytes.
    fn read_bytes_exact(&mut self, n: usize) -> (r: Result<Vec<u8>, PacketError>)
        requires
            old(self).r_wf(),
        ensures
            final(self).r_wf(),
            final(self).stream() == old(self).stream(),
            match r {
                Ok(v) => final(self).rpos() == old(self).rpos() + n && old(self).rpos()
                    + n <= old(self).stream().len() && v@ == old(self).stream().subrange(
                    old(self).rpos(),
                    old(self).rpos() + n,
                ),
                Err(e) => e == PacketError::InsufficientDataError && final(self).rpos() == old(
                    self,
                ).rpos() && old(self).stream().len() < old(self).rpos() + n,
            },
    ;

    /// Consumes exactly `n` bytes without returning them.
    fn discard_exact(&mut self, n: usize) -> (r: Result<(), PacketError>)
        requires
            old(self).r_wf(),
        ensures
            final(self).r_wf(),
            final(self).stream() == old(self).stream(),
            match r {
                Ok(()) => final(self).rpos() == old(self).rpos() + n && old(self).rpos()
                    + n <= old(self).stream().len(),
                Err(e) => e == PacketError::InsufficientDataError && final(self).rpos() == old(
                    self,
                ).rpos() && old(self).stream().len() < old(self).rpos() + n,
            },
    ;

    /// True when a complete length-prefixed message waits at the position.
    fn has_frame(&self) -> (r: bool)
        requires
            self.r_wf(),
        ensures
            r == frame_ready(self.stream(), self.rpos()),
    ;
}

/// A complete message (length prefix plus declared payload) waits at `pos`.
pub open spec fn frame_ready(s: Seq<u8>, pos: int) -> bool {
    pos + 4 <= s.len() && pos + 4 + be32_at(s, pos) <= s.len()
}

/// A sink for packet bytes: everything written is appended to `sink()`.
pub trait PacketWriter: Sized {
    /// All bytes handed to the transport so far.
    spec fn sink(&self) -> Seq<u8>;

    fn write_u16(&mut self, data: u16) -> (r: Result<(), PacketError>)
        ensures
            r is Ok,
            final(self).sink() == old(self).sink() + be16_bytes(data as int),
    ;

    fn write_u32(&mut self, data: u32) -> (r: Result<(), PacketError>)
        ensures
            r is Ok,
            final(self).sink() == old(self).sink() + be32_bytes(data as int),
    ;

    /// Writes the length of `data` as a 32-bit prefix, then its raw bytes.
    fn write_str(&mut self, data: &str) -> (r: Result<(), PacketError>)
        requires
            data.spec_bytes().len() < 0x100000000,
        ensures
            r is Ok,
            final(self).sink() == old(self).sink() + be32_bytes(data.spec_bytes().len() as int)
                + data.spec_bytes(),
    ;

    fn write_all(&mut self, data: &[u8]) -> (r: Result<(), PacketError>)
        ensures
            r is Ok,
            final(self).sink() == old(self).sink() + data@,
    ;
}

} // verus!
