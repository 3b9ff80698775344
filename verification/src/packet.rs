use vstd::prelude::*;

use crate::clipboard::{
    clip_bytes, clipboard_stage_transition, next_clipboard_stage, parse_clip, parse_clipboard,
    ClipboardBuffer, ClipboardStage,
};
use crate::error::PacketError;
use crate::packet_io::{
    be16_at, be32_at, be32_bytes, read_be16, read_be32, read_sbe16, sbe16_at, PacketWriter,
};

verus! {

/// One Barrier protocol message, as exchanged with the server.
#[derive(Debug, PartialEq, Eq)]
pub enum Packet {
    QueryInfo,
    DeviceInfo { x: u16, y: u16, w: u16, h: u16, reserved: u16, mx: u16, my: u16 },
    InfoAck,
    KeepAlive,
    ClientNoOp,
    UnknownDevice,
    ServerBusy,
    BadProtocol,
    GoodBye,
    ResetOptions,
    IncompatibleVersion { major: u16, minor: u16 },
    GrabClipboard { id: u8, seq_num: u32 },
    SetClipboard { id: u8, seq_num: u32, data: Option<ClipboardBuffer> },
    CursorEnter { x: u16, y: u16, seq_num: u32, mask: u16 },
    CursorLeave,
    MouseMoveAbs { x: u16, y: u16 },
    MouseMove { x: i16, y: i16 },
    MouseDown { id: i8 },
    MouseUp { id: i8 },
    MouseWheel { x_delta: i16, y_delta: i16 },
    KeyDown { id: u16, mask: u16, button: u16 },
    KeyUp { id: u16, mask: u16, button: u16 },
    KeyRepeat { id: u16, mask: u16, button: u16, count: u16 },
    Unknown([u8; 4]),
}

/// The mathematical shape of a packet: identical to `Packet` except that
/// the clipboard payload appears as the byte sequence it holds.
pub enum PacketModel {
    QueryInfo,
    DeviceInfo { x: u16, y: u16, w: u16, h: u16, reserved: u16, mx: u16, my: u16 },
    InfoAck,
    KeepAlive,
    ClientNoOp,
    UnknownDevice,
    ServerBusy,
    BadProtocol,
    GoodBye,
    ResetOptions,
    IncompatibleVersion { major: u16, minor: u16 },
    GrabClipboard { id: u8, seq_num: u32 },
    SetClipboard { id: u8, seq_num: u32, data: Option<Seq<u8>> },
    CursorEnter { x: u16, y: u16, seq_num: u32, mask: u16 },
    CursorLeave,
    MouseMoveAbs { x: u16, y: u16 },
    MouseMove { x: i16, y: i16 },
    MouseDown { id: i8 },
    MouseUp { id: i8 },
    MouseWheel { x_delta: i16, y_delta: i16 },
    KeyDown { id: u16, mask: u16, button: u16 },
    KeyUp { id: u16, mask: u16, button: u16 },
    KeyRepeat { id: u16, mask: u16, button: u16, count: u16 },
    Unknown { code: Seq<u8> },
}

impl View for Packet {
    type V = PacketModel;

    open spec fn view(&self) -> PacketModel {
        match self {
            Packet::QueryInfo => PacketModel::QueryInfo,
            Packet::DeviceInfo { x, y, w, h, reserved, mx, my } => PacketModel::DeviceInfo {
                x: *x,
                y: *y,
                w: *w,
                h: *h,
                reserved: *reserved,
                mx: *mx,
                my: *my,
            },
            Packet::InfoAck => PacketModel::InfoAck,
            Packet::KeepAlive => PacketModel::KeepAlive,
            Packet::ClientNoOp => PacketModel::ClientNoOp,
            Packet::UnknownDevice => PacketModel::UnknownDevice,
            Packet::ServerBusy => PacketModel::ServerBusy,
            Packet::BadProtocol => PacketModel::BadProtocol,
            Packet::GoodBye => PacketModel::GoodBye,
            Packet::ResetOptions => PacketModel::ResetOptions,
            Packet::IncompatibleVersion { major, minor } => PacketModel::IncompatibleVersion {
                major: *major,
                minor: *minor,
            },
            Packet::GrabClipboard { id, seq_num } => PacketModel::GrabClipboard {
                id: *id,
                seq_num: *seq_num,
            },
            Packet::SetClipboard { id, seq_num, data } => PacketModel::SetClipboard {
                id: *id,
                seq_num: *seq_num,
                data: match data {
                    Some(v) => Some(clip_bytes(*v)),
                    None => None,
                },
            },
            Packet::CursorEnter { x, y, seq_num, mask } => PacketModel::CursorEnter {
                x: *x,
                y: *y,
                seq_num: *seq_num,
                mask: *mask,
            },
            Packet::CursorLeave => PacketModel::CursorLeave,
            Packet::MouseMoveAbs { x, y } => PacketModel::MouseMoveAbs { x: *x, y: *y },
            Packet::MouseMove { x, y } => PacketModel::MouseMove { x: *x, y: *y },
            Packet::MouseDown { id } => PacketModel::MouseDown { id: *id },
            Packet::MouseUp { id } => PacketModel::MouseUp { id: *id },
            Packet::MouseWheel { x_delta, y_delta } => PacketModel::MouseWheel {
                x_delta: *x_delta,
                y_delta: *y_delta,
            },
            Packet::KeyDown { id, mask, button } => PacketModel::KeyDown {
                id: *id,
                mask: *mask,
                button: *button,
            },
            Packet::KeyUp { id, mask, button } => PacketModel::KeyUp {
                id: *id,
                mask: *mask,
                button: *button,
            },
            Packet::KeyRepeat { id, mask, button, count } => PacketModel::KeyRepeat {
                id: *id,
                mask: *mask,
                button: *button,
                count: *count,
            },
            Packet::Unknown(code) => PacketModel::Unknown { code: code@ },
        }
    }
}

/// What decoding one frame payload (code plus body) yields, and how it
/// moves the clipboard transfer: every known code checks that the body
/// holds its fixed fields and ignores anything beyond them; an unknown
/// code is preserved for diagnostics.
pub open spec fn decode_payload(p: Seq<u8>, st: ClipboardStage) -> (ClipboardStage, Result<
    PacketModel,
    PacketError,
>) {
    if p.len() < 4 {
        (st, Err(PacketError::FormatError))
    } else {
        let c0 = p[0];
        let c1 = p[1];
        let c2 = p[2];
        let c3 = p[3];
        if c0 == 0x51 && c1 == 0x49 && c2 == 0x4e && c3 == 0x46 {
            (st, Ok(PacketModel::QueryInfo))
        } else if c0 == 0x44 && c1 == 0x49 && c2 == 0x4e && c3 == 0x46 {
            if p.len() >= 18 {
                (
                    st,
                    Ok(
                        PacketModel::DeviceInfo {
                            x: be16_at(p, 4) as u16,
                            y: be16_at(p, 6) as u16,
                            w: be16_at(p, 8) as u16,
                            h: be16_at(p, 10) as u16,
                            reserved: be16_at(p, 12) as u16,
                            mx: be16_at(p, 14) as u16,
                            my: be16_at(p, 16) as u16,
                        },
                    ),
                )
            } else {
                (st, Err(PacketError::FormatError))
            }
        } else if c0 == 0x43 && c1 == 0x49 && c2 == 0x41 && c3 == 0x4b {
            (st, Ok(PacketModel::InfoAck))
        } else if c0 == 0x43 && c1 == 0x41 && c2 == 0x4c && c3 == 0x56 {
            (st, Ok(PacketModel::KeepAlive))
        } else if c0 == 0x43 && c1 == 0x4e && c2 == 0x4f && c3 == 0x50 {
            (st, Ok(PacketModel::ClientNoOp))
        } else if c0 == 0x45 && c1 == 0x55 && c2 == 0x4e && c3 == 0x4b {
            (st, Ok(PacketModel::UnknownDevice))
        } else if c0 == 0x45 && c1 == 0x42 && c2 == 0x53 && c3 == 0x59 {
            (st, Ok(PacketModel::ServerBusy))
        } else if c0 == 0x45 && c1 == 0x42 && c2 == 0x41 && c3 == 0x44 {
            (st, Ok(PacketModel::BadProtocol))
        } else if c0 == 0x43 && c1 == 0x42 && c2 == 0x59 && c3 == 0x45 {
            (st, Ok(PacketModel::GoodBye))
        } else if c0 == 0x43 && c1 == 0x52 && c2 == 0x4f && c3 == 0x50 {
            (st, Ok(PacketModel::ResetOptions))
        } else if c0 == 0x45 && c1 == 0x49 && c2 == 0x43 && c3 == 0x56 {
            if p.len() >= 8 {
                (
                    st,
                    Ok(
                        PacketModel::IncompatibleVersion {
                            major: be16_at(p, 4) as u16,
                            minor: be16_at(p, 6) as u16,
                        },
                    ),
                )
            } else {
                (st, Err(PacketError::FormatError))
            }
        } else if c0 == 0x43 && c1 == 0x43 && c2 == 0x4c && c3 == 0x50 {
            if p.len() >= 9 {
                (st, Ok(PacketModel::GrabClipboard { id: p[4], seq_num: be32_at(p, 5) as u32 }))
            } else {
                (st, Err(PacketError::FormatError))
            }
        } else if c0 == 0x44 && c1 == 0x43 && c2 == 0x4c && c3 == 0x50 {
            if p.len() >= 10 {
                let st2 = next_clipboard_stage(st, p[9]);
                if st2 == ClipboardStage::Mark2(0) {
                    match parse_clip(p) {
                        Ok(text) => (
                            st2,
                            Ok(
                                PacketModel::SetClipboard {
                                    id: p[4],
                                    seq_num: be32_at(p, 5) as u32,
                                    data: if text.len() == 0 {
                                        None
                                    } else {
                                        Some(text)
                                    },
                                },
                            ),
                        ),
                        Err(e) => (st2, Err(e)),
                    }
                } else {
                    (
                        st2,
                        Ok(
                            PacketModel::SetClipboard {
                                id: p[4],
                                seq_num: be32_at(p, 5) as u32,
                                data: None,
                            },
                        ),
                    )
                }
            } else {
                (st, Err(PacketError::FormatError))
            }
        } else if c0 == 0x43 && c1 == 0x49 && c2 == 0x4e && c3 == 0x4e {
            if p.len() >= 14 {
                (
                    st,
                    Ok(
                        PacketModel::CursorEnter {
                            x: be16_at(p, 4) as u16,
                            y: be16_at(p, 6) as u16,
                            seq_num: be32_at(p, 8) as u32,
                            mask: be16_at(p, 12) as u16,
                        },
                    ),
                )
            } else {
                (st, Err(PacketError::FormatError))
            }
        } else if c0 == 0x43 && c1 == 0x4f && c2 == 0x55 && c3 == 0x54 {
            (st, Ok(PacketModel::CursorLeave))
        } else if c0 == 0x44 && c1 == 0x4d && c2 == 0x4d && c3 == 0x56 {
            if p.len() >= 8 {
                (
                    st,
                    Ok(
                        PacketModel::MouseMoveAbs {
                            x: be16_at(p, 4) as u16,
                            y: be16_at(p, 6) as u16,
                        },
                    ),
                )
            } else {
                (st, Err(PacketError::FormatError))
            }
        } else if c0 == 0x44 && c1 == 0x4d && c2 == 0x52 && c3 == 0x4d {
            if p.len() >= 8 {
                (
                    st,
                    Ok(
                        PacketModel::MouseMove {
                            x: sbe16_at(p, 4) as i16,
                            y: sbe16_at(p, 6) as i16,
                        },
                    ),
                )
            } else {
                (st, Err(PacketError::FormatError))
            }
        } else if c0 == 0x44 && c1 == 0x4d && c2 == 0x44 && c3 == 0x4e {
            if p.len() >= 5 {
                (st, Ok(PacketModel::MouseDown { id: p[4] as i8 }))
            } else {
                (st, Err(PacketError::FormatError))
            }
        } else if c0 == 0x44 && c1 == 0x4d && c2 == 0x55 && c3 == 0x50 {
            if p.len() >= 5 {
                (st, Ok(PacketModel::MouseUp { id: p[4] as i8 }))
            } else {
                (st, Err(PacketError::FormatError))
            }
        } else if c0 == 0x44 && c1 == 0x4d && c2 == 0x57 && c3 == 0x4d {
            if p.len() >= 8 {
                (
                    st,
                    Ok(
                        PacketModel::MouseWheel {
                            x_delta: sbe16_at(p, 4) as i16,
                            y_delta: sbe16_at(p, 6) as i16,
                        },
                    ),
                )
            } else {
                (st, Err(PacketError::FormatError))
            }
        } else if c0 == 0x44 && c1 == 0x4b && c2 == 0x44 && c3 == 0x4e {
            if p.len() >= 10 {
                (
                    st,
                    Ok(
                        PacketModel::KeyDown {
                            id: be16_at(p, 4) as u16,
                            mask: be16_at(p, 6) as u16,
                            button: be16_at(p, 8) as u16,
                        },
                    ),
                )
            } else {
                (st, Err(PacketError::FormatError))
            }
        } else if c0 == 0x44 && c1 == 0x4b && c2 == 0x55 && c3 == 0x50 {
            if p.len() >= 10 {
                (
                    st,
                    Ok(
                        PacketModel::KeyUp {
                            id: be16_at(p, 4) as u16,
                            mask: be16_at(p, 6) as u16,
                            button: be16_at(p, 8) as u16,
                        },
                    ),
                )
            } else {
                (st, Err(PacketError::FormatError))
            }
        } else if c0 == 0x44 && c1 == 0x4b && c2 == 0x52 && c3 == 0x50 {
            if p.len() >= 12 {
                (
                    st,
                    Ok(
                        PacketModel::KeyRepeat {
                            id: be16_at(p, 4) as u16,
                            mask: be16_at(p, 6) as u16,
                            count: be16_at(p, 8) as u16,
                            button: be16_at(p, 10) as u16,
                        },
                    ),
                )
            } else {
                (st, Err(PacketError::FormatError))
            }
        } else if c0 == 0x44 && c1 == 0x53 && c2 == 0x4f && c3 == 0x50 {
            if p.len() >= 8 && 8 + (be32_at(p, 4) / 2) * 8 <= p.len() {
                (st, Ok(PacketModel::ClientNoOp))
            } else {
                (st, Err(PacketError::FormatError))
            }
        } else {
            (st, Ok(PacketModel::Unknown { code: seq![c0, c1, c2, c3] }))
        }
    }
}

/// The decoded packet agrees with the model, or both fail alike.
pub open spec fn packet_result_matches(
    r: Result<Packet, PacketError>,
    m: Result<PacketModel, PacketError>,
) -> bool {
    match (r, m) {
        (Ok(p), Ok(pm)) => p@ == pm,
        (Err(a), Err(b)) => a == b,
        _ => false,
    }
}

/// Decodes one frame payload (the four code bytes and the body declared
/// by the length prefix), advancing the clipboard transfer stage.
pub fn parse_packet(payload: &Vec<u8>, stage: &mut ClipboardStage) -> (r: Result<
    Packet,
    PacketError,
>)
    ensures
        *final(stage) == decode_payload(payload@, *old(stage)).0,
        packet_result_matches(r, decode_payload(payload@, *old(stage)).1),
{
    let n: usize = payload.len();
    if n < 4 {
        return Err(PacketError::FormatError);
    }
    let c0 = payload[0];
    let c1 = payload[1];
    let c2 = payload[2];
    let c3 = payload[3];
    if c0 == 0x51 && c1 == 0x49 && c2 == 0x4e && c3 == 0x46 {
        Ok(Packet::QueryInfo)
    } else if c0 == 0x44 && c1 == 0x49 && c2 == 0x4e && c3 == 0x46 {
        if n >= 18 {
            Ok(
                Packet::DeviceInfo {
                    x: read_be16(payload, 4),
                    y: read_be16(payload, 6),
                    w: read_be16(payload, 8),
                    h: read_be16(payload, 10),
                    reserved: read_be16(payload, 12),
                    mx: read_be16(payload, 14),
                    my: read_be16(payload, 16),
                },
            )
        } else {
            Err(PacketError::FormatError)
        }
    } else if c0 == 0x43 && c1 == 0x49 && c2 == 0x41 && c3 == 0x4b {
        Ok(Packet::InfoAck)
    } else if c0 == 0x43 && c1 == 0x41 && c2 == 0x4c && c3 == 0x56 {
        Ok(Packet::KeepAlive)
    } else if c0 == 0x43 && c1 == 0x4e && c2 == 0x4f && c3 == 0x50 {
        Ok(Packet::ClientNoOp)
    } else if c0 == 0x45 && c1 == 0x55 && c2 == 0x4e && c3 == 0x4b {
        Ok(Packet::UnknownDevice)
    } else if c0 == 0x45 && c1 == 0x42 && c2 == 0x53 && c3 == 0x59 {
        Ok(Packet::ServerBusy)
    } else if c0 == 0x45 && c1 == 0x42 && c2 == 0x41 && c3 == 0x44 {
        Ok(Packet::BadProtocol)
    } else if c0 == 0x43 && c1 == 0x42 && c2 == 0x59 && c3 == 0x45 {
        Ok(Packet::GoodBye)
    } else if c0 == 0x43 && c1 == 0x52 && c2 == 0x4f && c3 == 0x50 {
        Ok(Packet::ResetOptions)
    } else if c0 == 0x45 && c1 == 0x49 && c2 == 0x43 && c3 == 0x56 {
        if n >= 8 {
            Ok(
                Packet::IncompatibleVersion {
                    major: read_be16(payload, 4),
                    minor: read_be16(payload, 6),
                },
            )
        } else {
            Err(PacketError::FormatError)
        }
    } else if c0 == 0x43 && c1 == 0x43 && c2 == 0x4c && c3 == 0x50 {
        if n >= 9 {
            Ok(Packet::GrabClipboard { id: payload[4], seq_num: read_be32(payload, 5) })
        } else {
            Err(PacketError::FormatError)
        }
    } else if c0 == 0x44 && c1 == 0x43 && c2 == 0x4c && c3 == 0x50 {
        if n >= 10 {
            let id = payload[4];
            let seq_num = read_be32(payload, 5);
            let mark = payload[9];
            let st2 = clipboard_stage_transition(*stage, mark);
            *stage = st2;
            if st2 == ClipboardStage::Mark2(0) {
                match parse_clipboard(payload) {
                    Ok(data) => Ok(Packet::SetClipboard { id, seq_num, data }),
                    Err(e) => Err(e),
                }
            } else {
                Ok(Packet::SetClipboard { id, seq_num, data: None })
            }
        } else {
            Err(PacketError::FormatError)
        }
    } else if c0 == 0x43 && c1 == 0x49 && c2 == 0x4e && c3 == 0x4e {
        if n >= 14 {
            Ok(
                Packet::CursorEnter {
                    x: read_be16(payload, 4),
                    y: read_be16(payload, 6),
                    seq_num: read_be32(payload, 8),
                    mask: read_be16(payload, 12),
                },
            )
        } else {
            Err(PacketError::FormatError)
        }
    } else if c0 == 0x43 && c1 == 0x4f && c2 == 0x55 && c3 == 0x54 {
        Ok(Packet::CursorLeave)
    } else if c0 == 0x44 && c1 == 0x4d && c2 == 0x4d && c3 == 0x56 {
        if n >= 8 {
            Ok(Packet::MouseMoveAbs { x: read_be16(payload, 4), y: read_be16(payload, 6) })
        } else {
            Err(PacketError::FormatError)
        }
    } else if c0 == 0x44 && c1 == 0x4d && c2 == 0x52 && c3 == 0x4d {
        if n >= 8 {
            Ok(Packet::MouseMove { x: read_sbe16(payload, 4), y: read_sbe16(payload, 6) })
        } else {
            Err(PacketError::FormatError)
        }
    } else if c0 == 0x44 && c1 == 0x4d && c2 == 0x44 && c3 == 0x4e {
        if n >= 5 {
            Ok(Packet::MouseDown { id: payload[4] as i8 })
        } else {
            Err(PacketError::FormatError)
        }
    } else if c0 == 0x44 && c1 == 0x4d && c2 == 0x55 && c3 == 0x50 {
        if n >= 5 {
            Ok(Packet::MouseUp { id: payload[4] as i8 })
        } else {
            Err(PacketError::FormatError)
        }
    } else if c0 == 0x44 && c1 == 0x4d && c2 == 0x57 && c3 == 0x4d {
        if n >= 8 {
            Ok(
                Packet::MouseWheel {
                    x_delta: read_sbe16(payload, 4),
                    y_delta: read_sbe16(payload, 6),
                },
            )
        } else {
            Err(PacketError::FormatError)
        }
    } else if c0 == 0x44 && c1 == 0x4b && c2 == 0x44 && c3 == 0x4e {
        if n >= 10 {
            Ok(
                Packet::KeyDown {
                    id: read_be16(payload, 4),
                    mask: read_be16(payload, 6),
                    button: read_be16(payload, 8),
                },
            )
        } else {
            Err(PacketError::FormatError)
        }
    } else if c0 == 0x44 && c1 == 0x4b && c2 == 0x55 && c3 == 0x50 {
        if n >= 10 {
            Ok(
                Packet::KeyUp {
                    id: read_be16(payload, 4),
                    mask: read_be16(payload, 6),
                    button: read_be16(payload, 8),
                },
            )
        } else {
            Err(PacketError::FormatError)
        }
    } else if c0 == 0x44 && c1 == 0x4b && c2 == 0x52 && c3 == 0x50 {
        if n >= 12 {
            Ok(
                Packet::KeyRepeat {
                    id: read_be16(payload, 4),
                    mask: read_be16(payload, 6),
                    count: read_be16(payload, 8),
                    button: read_be16(payload, 10),
                },
            )
        } else {
            Err(PacketError::FormatError)
        }
    } else if c0 == 0x44 && c1 == 0x53 && c2 == 0x4f && c3 == 0x50 {
        if n >= 8 {
            let num_words = read_be32(payload, 4);
            let num_options: u64 = (num_words / 2) as u64;
            if 8 + num_options * 8 <= n as u64 {
                Ok(Packet::ClientNoOp)
            } else {
                Err(PacketError::FormatError)
            }
        } else {
            Err(PacketError::FormatError)
        }
    } else {
        let code: [u8; 4] = [c0, c1, c2, c3];
        proof {
            assert(code@ =~= seq![c0, c1, c2, c3]);
        }
        Ok(Packet::Unknown(code))
    }
}

/// High byte of a 16-bit value.
pub open spec fn msb16(v: u16) -> u8 {
    (v / 0x100) as u8
}

/// Low byte of a 16-bit value.
pub open spec fn lsb16(v: u16) -> u8 {
    (v % 0x100) as u8
}

/// The packets this client puts on the wire.
pub open spec fn wire_encodable(m: PacketModel) -> bool {
    ||| m is QueryInfo
    ||| m is InfoAck
    ||| m is KeepAlive
    ||| m is ClientNoOp
    ||| m is UnknownDevice
    ||| m is DeviceInfo
    ||| m is MouseMoveAbs
}

/// The full wire image (length prefix, code, body) of an emitted packet.
pub open spec fn encode_packet(m: PacketModel) -> Seq<u8> {
    match m {
        PacketModel::QueryInfo => seq![0u8, 0, 0, 4, 0x51, 0x49, 0x4e, 0x46],
        PacketModel::InfoAck => seq![0u8, 0, 0, 4, 0x43, 0x49, 0x41, 0x4b],
        PacketModel::KeepAlive => seq![0u8, 0, 0, 4, 0x43, 0x41, 0x4c, 0x56],
        PacketModel::ClientNoOp => seq![0u8, 0, 0, 4, 0x43, 0x4e, 0x4f, 0x50],
        PacketModel::UnknownDevice => seq![0u8, 0, 0, 4, 0x45, 0x55, 0x4e, 0x4b],
        PacketModel::DeviceInfo { x, y, w, h, reserved, mx, my } => seq![
            0u8,
            0,
            0,
            18,
            0x44,
            0x49,
            0x4e,
            0x46,
            msb16(x),
            lsb16(x),
            msb16(y),
            lsb16(y),
            msb16(w),
            lsb16(w),
            msb16(h),
            lsb16(h),
            msb16(reserved),
            lsb16(reserved),
            msb16(mx),
            lsb16(mx),
            msb16(my),
            lsb16(my),
        ],
        PacketModel::MouseMoveAbs { x, y } => seq![
            0u8,
            0,
            0,
            8,
            0x44,
            0x4d,
            0x4d,
            0x56,
            msb16(x),
            lsb16(x),
            msb16(y),
            lsb16(y),
        ],
        _ => Seq::<u8>::empty(),
    }
}

/// Writes a message that has no body: a length prefix of four and the code.
fn write_bodyless<W: PacketWriter>(out: &mut W, code: [u8; 4]) -> (r: Result<(), PacketError>)
    ensures
        r is Ok,
        final(out).sink() == old(out).sink() + seq![0u8, 0, 0, 4] + code@,
{
    let _ = out.write_u32(4);
    proof {
        assert(be32_bytes(4) =~= seq![0u8, 0, 0, 4]);
    }
    let _ = out.write_all(code.as_slice());
    proof {
        assert(out.sink() =~= old(out).sink() + seq![0u8, 0, 0, 4] + code@);
    }
    Ok(())
}

impl Packet {
    /// Emits the packet's wire image; packets the client never sends are
    /// dropped without touching the wire, as a diagnostic no-op.
    pub fn write_wire<W: PacketWriter>(self, out: &mut W) -> (r: Result<(), PacketError>)
        requires
            !(self is Unknown),
        ensures
            r is Ok,
            wire_encodable(self@) ==> final(out).sink() == old(out).sink() + encode_packet(self@),
            !wire_encodable(self@) ==> final(out).sink() == old(out).sink(),
    {
        match self {
            Packet::QueryInfo => {
                let r = write_bodyless(out, [0x51, 0x49, 0x4e, 0x46]);
                proof {
                    assert(out.sink() =~= old(out).sink() + encode_packet(self@));
                }
                r
            },
            Packet::InfoAck => {
                let r = write_bodyless(out, [0x43, 0x49, 0x41, 0x4b]);
                proof {
                    assert(out.sink() =~= old(out).sink() + encode_packet(self@));
                }
                r
            },
            Packet::KeepAlive => {
                let r = write_bodyless(out, [0x43, 0x41, 0x4c, 0x56]);
                proof {
                    assert(out.sink() =~= old(out).sink() + encode_packet(self@));
                }
                r
            },
            Packet::ClientNoOp => {
                let r = write_bodyless(out, [0x43, 0x4e, 0x4f, 0x50]);
                proof {
                    assert(out.sink() =~= old(out).sink() + encode_packet(self@));
                }
                r
            },
            Packet::UnknownDevice => {
                let r = write_bodyless(out, [0x45, 0x55, 0x4e, 0x4b]);
                proof {
                    assert(out.sink() =~= old(out).sink() + encode_packet(self@));
                }
                r
            },
            Packet::DeviceInfo { x, y, w, h, reserved, mx, my } => {
                let _ = out.write_u32(18);
                let code: [u8; 4] = [0x44, 0x49, 0x4e, 0x46];
                let _ = out.write_all(code.as_slice());
                let _ = out.write_u16(x);
                let _ = out.write_u16(y);
                let _ = out.write_u16(w);
                let _ = out.write_u16(h);
                let _ = out.write_u16(reserved);
                let _ = out.write_u16(mx);
                let _ = out.write_u16(my);
                proof {
                    assert(out.sink() =~= old(out).sink() + encode_packet(self@));
                }
                Ok(())
            },
            Packet::MouseMoveAbs { x, y } => {
                let _ = out.write_u32(8);
                let code: [u8; 4] = [0x44, 0x4d, 0x4d, 0x56];
                let _ = out.write_all(code.as_slice());
                let _ = out.write_u16(x);
                let _ = out.write_u16(y);
                proof {
                    assert(out.sink() =~= old(out).sink() + encode_packet(self@));
                }
                Ok(())
            },
            _ => Ok(()),
        }
    }
}

/// Framing round-trip: an emitted packet's wire image declares its own
/// payload length, and decoding that payload gives the packet back and
/// leaves the clipboard transfer untouched.
pub proof fn lemma_wire_roundtrip(m: PacketModel, st: ClipboardStage)
    requires
        wire_encodable(m),
    ensures
        encode_packet(m).len() >= 8,
        be32_at(encode_packet(m), 0) == encode_packet(m).len() - 4,
        decode_payload(encode_packet(m).subrange(4, encode_packet(m).len() as int), st) == (
        st,
        Ok::<PacketModel, PacketError>(m),
        ),
{
    let w = encode_packet(m);
    let pl = w.subrange(4, w.len() as int);
    match m {
        PacketModel::DeviceInfo { x, y, w: sw, h, reserved, mx, my } => {
            assert(pl =~= seq![
                0x44u8,
                0x49,
                0x4e,
                0x46,
                msb16(x),
                lsb16(x),
                msb16(y),
                lsb16(y),
                msb16(sw),
                lsb16(sw),
                msb16(h),
                lsb16(h),
                msb16(reserved),
                lsb16(reserved),
                msb16(mx),
                lsb16(mx),
                msb16(my),
                lsb16(my),
            ]);
            assert(be16_at(pl, 4) == x);
            assert(be16_at(pl, 6) == y);
            assert(be16_at(pl, 8) == sw);
            assert(be16_at(pl, 10) == h);
            assert(be16_at(pl, 12) == reserved);
            assert(be16_at(pl, 14) == mx);
            assert(be16_at(pl, 16) == my);
        },
        PacketModel::MouseMoveAbs { x, y } => {
            assert(pl =~= seq![
                0x44u8,
                0x4d,
                0x4d,
                0x56,
                msb16(x),
                lsb16(x),
                msb16(y),
                lsb16(y),
            ]);
            assert(be16_at(pl, 4) == x);
            assert(be16_at(pl, 6) == y);
        },
        _ => {
            assert(pl =~= seq![w[4], w[5], w[6], w[7]]);
        },
    }
}

/// Trailing-bytes tolerance: widening an emitted packet's declared length
/// by appending extra payload bytes decodes to the same packet.
pub proof fn lemma_trailing_bytes_tolerated(m: PacketModel, extra: Seq<u8>, st: ClipboardStage)
    requires
        wire_encodable(m),
    ensures
        decode_payload(
            encode_packet(m).subrange(4, encode_packet(m).len() as int) + extra,
            st,
        ) == decode_payload(encode_packet(m).subrange(4, encode_packet(m).len() as int), st),
{
    let w = encode_packet(m);
    let pl = w.subrange(4, w.len() as int);
    let ex = pl + extra;
    assert(ex.len() >= pl.len());
    assert forall|i: int| 0 <= i < pl.len() implies ex[i] == pl[i] by {}
    match m {
        PacketModel::DeviceInfo { x, y, w: sw, h, reserved, mx, my } => {
            assert(pl.len() == 18);
            assert(be16_at(ex, 4) == be16_at(pl, 4));
            assert(be16_at(ex, 6) == be16_at(pl, 6));
            assert(be16_at(ex, 8) == be16_at(pl, 8));
            assert(be16_at(ex, 10) == be16_at(pl, 10));
            assert(be16_at(ex, 12) == be16_at(pl, 12));
            assert(be16_at(ex, 14) == be16_at(pl, 14));
            assert(be16_at(ex, 16) == be16_at(pl, 16));
        },
        PacketModel::MouseMoveAbs { x, y } => {
            assert(pl.len() == 8);
            assert(be16_at(ex, 4) == be16_at(pl, 4));
            assert(be16_at(ex, 6) == be16_at(pl, 6));
        },
        _ => {
            assert(pl.len() == 4);
        },
    }
}

/// Only the chunk that arrives in stage `Mark2(0)` — the first data chunk
/// after a fresh mark 1 — can surface clipboard bytes; every such packet
/// therefore witnesses a transfer that was exactly one mark past `Mark1`.
pub proof fn lemma_clipboard_payload_needs_first_chunk(p: Seq<u8>, st: ClipboardStage)
    ensures
        (decode_payload(p, st).1 matches Ok(PacketModel::SetClipboard { data: Some(_), .. }))
            ==> st == ClipboardStage::Mark1 && decode_payload(p, st).0 == ClipboardStage::Mark2(0),
{
    if decode_payload(p, st).1 matches Ok(PacketModel::SetClipboard { data: Some(_), .. }) {
        assert(p.len() >= 10);
        let st2 = next_clipboard_stage(st, p[9]);
        assert(st2 == ClipboardStage::Mark2(0));
        match st {
            ClipboardStage::Mark2(i) => {
                assert(st2 != ClipboardStage::Mark2(0));
            },
            _ => {},
        }
    }
}

} // verus!
