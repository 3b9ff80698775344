use vstd::prelude::*;

use crate::constants::MAX_CLIPBOARD_SIZE;
use crate::error::PacketError;
use crate::packet_io::{be32_at, read_be32};

verus! {

/// The bounded buffer that carries one clipboard text payload.
pub type ClipboardBuffer = heapless::Vec<u8, MAX_CLIPBOARD_SIZE>;

#[verifier::external_type_specification]
#[verifier::external_body]
#[verifier::reject_recursive_types(T)]
pub struct ExHeaplessVec<T, const N: usize>(heapless::Vec<T, N>);

/// The bytes a clipboard buffer holds, in order.
pub uninterp spec fn clip_bytes(v: ClipboardBuffer) -> Seq<u8>;

/// Relies on heapless::Vec::new: a fresh vector holds no elements.
#[verifier::external_body]
pub(crate) fn clip_new() -> (r: ClipboardBuffer)
    ensures
        clip_bytes(r) == Seq::<u8>::empty(),
{
    heapless::Vec::new()
}

/// Relies on heapless::Vec::push: the element is appended when the vector
/// holds fewer elements than its capacity, and returned (here: dropped)
/// otherwise, leaving the contents unchanged.
#[verifier::external_body]
pub(crate) fn clip_push(v: &mut ClipboardBuffer, b: u8) -> (r: bool)
    ensures
        r == (clip_bytes(*old(v)).len() < MAX_CLIPBOARD_SIZE),
        r ==> clip_bytes(*final(v)) == clip_bytes(*old(v)).push(b),
        !r ==> clip_bytes(*final(v)) == clip_bytes(*old(v)),
{
    v.push(b).is_ok()
}

/// Relies on heapless::Vec::as_slice: a slice of exactly the elements held.
#[verifier::external_body]
pub(crate) fn clip_as_slice(v: &ClipboardBuffer) -> (r: &[u8])
    ensures
        r@ == clip_bytes(*v),
{
    v.as_slice()
}

/// The phase of the three-mark clipboard transfer.
#[derive(Clone, Copy, Debug, PartialEq, Eq, Structural)]
pub enum ClipboardStage {
    Idle,
    Mark1,
    Mark2(usize),
    Mark3,
}

/// Data formats a clipboard chunk may carry; only text is kept.
#[derive(Clone, Copy, Debug, PartialEq, Eq, Structural)]
pub enum ClipboardFormat {
    Text,
    Html,
    Bitmap,
}

/// The format a wire identifier names, if any.
pub open spec fn spec_clipboard_format(v: u32) -> Option<ClipboardFormat> {
    if v == 0 {
        Some(ClipboardFormat::Text)
    } else if v == 1 {
        Some(ClipboardFormat::Html)
    } else if v == 2 {
        Some(ClipboardFormat::Bitmap)
    } else {
        None
    }
}

/// Decodes a clipboard format identifier.
pub fn clipboard_format_of(v: u32) -> (r: Option<ClipboardFormat>)
    ensures
        r == spec_clipboard_format(v),
{
    if v == 0 {
        Some(ClipboardFormat::Text)
    } else if v == 1 {
        Some(ClipboardFormat::Html)
    } else if v == 2 {
        Some(ClipboardFormat::Bitmap)
    } else {
        None
    }
}

/// The legal transitions of the transfer state machine: a fresh transfer
/// (mark 1) may start from the idle or the just-finished state, data
/// chunks (mark 2) follow mark 1 and each other, and the terminator
/// (mark 3) follows the data.  Everything else resets to the idle state.
pub open spec fn next_clipboard_stage(st: ClipboardStage, mark: u8) -> ClipboardStage {
    if mark == 1 {
        match st {
            ClipboardStage::Idle => ClipboardStage::Mark1,
            ClipboardStage::Mark3 => ClipboardStage::Mark1,
            _ => ClipboardStage::Idle,
        }
    } else if mark == 2 {
        match st {
            ClipboardStage::Mark1 => ClipboardStage::Mark2(0),
            ClipboardStage::Mark2(i) => if i == usize::MAX {
                ClipboardStage::Mark2(i)
            } else {
                ClipboardStage::Mark2((i + 1) as usize)
            },
            _ => ClipboardStage::Idle,
        }
    } else if mark == 3 {
        match st {
            ClipboardStage::Mark2(_) => ClipboardStage::Mark3,
            _ => ClipboardStage::Idle,
        }
    } else {
        ClipboardStage::Idle
    }
}

/// Advances the clipboard transfer by one received mark.
pub fn clipboard_stage_transition(st: ClipboardStage, mark: u8) -> (r: ClipboardStage)
    ensures
        r == next_clipboard_stage(st, mark),
{
    if mark == 1 {
        match st {
            ClipboardStage::Idle => ClipboardStage::Mark1,
            ClipboardStage::Mark3 => ClipboardStage::Mark1,
            _ => ClipboardStage::Idle,
        }
    } else if mark == 2 {
        match st {
            ClipboardStage::Mark1 => ClipboardStage::Mark2(0),
            ClipboardStage::Mark2(i) => if i == usize::MAX {
                ClipboardStage::Mark2(i)
            } else {
                ClipboardStage::Mark2(i + 1)
            },
            _ => ClipboardStage::Idle,
        }
    } else if mark == 3 {
        match st {
            ClipboardStage::Mark2(_) => ClipboardStage::Mark3,
            _ => ClipboardStage::Idle,
        }
    } else {
        ClipboardStage::Idle
    }
}

/// Text accumulated so far, cut off at the clipboard capacity.
pub open spec fn clip_cap(s: Seq<u8>) -> Seq<u8> {
    if s.len() <= MAX_CLIPBOARD_SIZE {
        s
    } else {
        s.subrange(0, MAX_CLIPBOARD_SIZE as int)
    }
}

/// Parses `n` clipboard formats of `p` starting at offset `i`, text
/// already gathered in `acc`: each format is a 32-bit id and a 32-bit
/// length followed by that many bytes; text formats are gathered up to
/// capacity, known non-text formats are skipped, anything else fails.
pub open spec fn parse_clip_formats(p: Seq<u8>, i: int, n: int, acc: Seq<u8>) -> Result<
    Seq<u8>,
    PacketError,
>
    decreases n,
{
    if n <= 0 {
        Ok(acc)
    } else if i + 8 > p.len() {
        Err(PacketError::FormatError)
    } else {
        let fmt = be32_at(p, i);
        let flen = be32_at(p, i + 4);
        if fmt != 0 && fmt != 1 && fmt != 2 {
            Err(PacketError::FormatError)
        } else if i + 8 + flen > p.len() {
            Err(PacketError::FormatError)
        } else if fmt == 0 {
            parse_clip_formats(
                p,
                i + 8 + flen,
                n - 1,
                clip_cap(acc + p.subrange(i + 8, i + 8 + flen)),
            )
        } else {
            parse_clip_formats(p, i + 8 + flen, n - 1, acc)
        }
    }
}

/// The text payload of a clipboard data chunk `p` (a whole DCLP packet
/// payload: four code bytes, id, sequence, mark, then the chunk body of a
/// 32-bit total size, a 32-bit format count, and the formats).
pub open spec fn parse_clip(p: Seq<u8>) -> Result<Seq<u8>, PacketError> {
    if p.len() < 18 {
        Err(PacketError::FormatError)
    } else {
        parse_clip_formats(p, 18, be32_at(p, 14), Seq::<u8>::empty())
    }
}

/// Extracts the text carried by a clipboard data chunk: `Ok(Some(_))`
/// with the gathered text exactly when the chunk parses and holds text,
/// `Ok(None)` when it parses but holds none, and the parse error
/// otherwise.
pub fn parse_clipboard(payload: &Vec<u8>) -> (r: Result<Option<ClipboardBuffer>, PacketError>)
    ensures
        match r {
            Ok(Some(v)) => parse_clip(payload@) == Ok::<Seq<u8>, PacketError>(clip_bytes(v))
                && clip_bytes(v).len() > 0,
            Ok(None) => parse_clip(payload@) == Ok::<Seq<u8>, PacketError>(Seq::<u8>::empty()),
            Err(e) => parse_clip(payload@) == Err::<Seq<u8>, PacketError>(e),
        },
{
    if payload.len() < 18 {
        return Err(PacketError::FormatError);
    }
    let num_formats: u32 = read_be32(payload, 14);
    let mut ret = clip_new();
    let mut i: usize = 18;
    let mut k: u32 = 0;
    while k < num_formats
        invariant
            18 <= i <= payload@.len(),
            k <= num_formats,
            num_formats == be32_at(payload@, 14),
            clip_bytes(ret).len() <= MAX_CLIPBOARD_SIZE,
            parse_clip_formats(payload@, 18, num_formats as int, Seq::<u8>::empty())
                == parse_clip_formats(payload@, i as int, num_formats - k, clip_bytes(ret)),
        decreases num_formats - k,
    {
        if payload.len() - i < 8 {
            return Err(PacketError::FormatError);
        }
        let fmt: u32 = read_be32(payload, i);
        let flen_u32: u32 = read_be32(payload, i + 4);
        let flen: usize = flen_u32 as usize;
        let format = match clipboard_format_of(fmt) {
            Some(f) => f,
            None => {
                return Err(PacketError::FormatError);
            },
        };
        if payload.len() - (i + 8) < flen {
            return Err(PacketError::FormatError);
        }
        if matches!(format, ClipboardFormat::Text) {
            let ghost acc0 = clip_bytes(ret);
            let mut j: usize = 0;
            while j < flen
                invariant
                    j <= flen,
                    i + 8 + flen <= payload@.len(),
                    payload@.len() <= usize::MAX,
                    clip_bytes(ret) == clip_cap(
                        acc0 + payload@.subrange(i + 8, i + 8 + j),
                    ),
                    acc0.len() <= MAX_CLIPBOARD_SIZE,
                decreases flen - j,
            {
                let ghost before = clip_bytes(ret);
                let ghost sofar = acc0 + payload@.subrange(i + 8, i + 8 + j);
                let _ = clip_push(&mut ret, payload[i + 8 + j]);
                proof {
                    let next = acc0 + payload@.subrange(i + 8, i + 8 + j + 1);
                    assert(next =~= sofar.push(payload@[i + 8 + j]));
                    if before.len() < MAX_CLIPBOARD_SIZE {
                        assert(sofar.len() <= MAX_CLIPBOARD_SIZE);
                        assert(clip_cap(sofar) == sofar);
                        assert(clip_cap(next) =~= clip_bytes(ret));
                    } else {
                        assert(sofar.len() >= MAX_CLIPBOARD_SIZE);
                        assert(clip_cap(next) =~= clip_cap(sofar));
                    }
                }
                j += 1;
            }
            proof {
                assert(parse_clip_formats(
                    payload@,
                    i as int,
                    num_formats - k,
                    acc0,
                ) == parse_clip_formats(
                    payload@,
                    i + 8 + flen,
                    num_formats - (k + 1),
                    clip_cap(acc0 + payload@.subrange(i + 8, i + 8 + flen)),
                ));
            }
        } else {
            proof {
                assert(parse_clip_formats(
                    payload@,
                    i as int,
                    num_formats - k,
                    clip_bytes(ret),
                ) == parse_clip_formats(
                    payload@,
                    i + 8 + flen,
                    num_formats - (k + 1),
                    clip_bytes(ret),
                ));
            }
        }
        i = i + 8 + flen;
        k = k + 1;
    }
    let text = clip_as_slice(&ret);
    if text.len() == 0 {
        proof {
            assert(clip_bytes(ret) =~= Seq::<u8>::empty());
        }
        Ok(None)
    } else {
        Ok(Some(ret))
    }
}

} // verus!
