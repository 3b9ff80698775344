use vstd::prelude::*;
use vstd::string::StringSliceAdditionalSpecFns;

use crate::error::PacketError;
use crate::packet::{Packet, PacketModel};
use crate::packet_io::{be16_at, be16_bytes, be32_bytes, PacketWriter};
use crate::usb_actuator::{
    scale_coordinate, spec_act_enter, spec_act_key_down, spec_act_key_up, spec_act_leave,
    spec_act_mouse_down, spec_act_mouse_up, spec_act_move, spec_act_set_cursor, spec_act_wheel,
    spec_jiggle, ActModel, UsbActuator,
};

verus! {

/// The seven bytes of the protocol greeting.
pub open spec fn barrier_magic() -> Seq<u8> {
    seq![0x42u8, 0x61, 0x72, 0x72, 0x69, 0x65, 0x72]
}

/// What the server's greeting frame means: the literal protocol name
/// followed by its major and minor version, anything else a format
/// fault.  Trailing bytes are tolerated.
pub open spec fn decode_hello(p: Seq<u8>) -> Result<(u16, u16), PacketError> {
    if p.len() < 11 {
        Err(PacketError::FormatError)
    } else if p.subrange(0, 7) != barrier_magic() {
        Err(PacketError::FormatError)
    } else {
        Ok(((be16_at(p, 7) as u16), (be16_at(p, 9) as u16)))
    }
}

/// Parses the server's greeting frame into its protocol version.
pub fn parse_hello(payload: &Vec<u8>) -> (r: Result<(u16, u16), PacketError>)
    ensures
        r == decode_hello(payload@),
{
    if payload.len() < 11 {
        return Err(PacketError::FormatError);
    }
    let magic: [u8; 7] = [0x42, 0x61, 0x72, 0x72, 0x69, 0x65, 0x72];
    let mut i: usize = 0;
    while i < 7
        invariant
            i <= 7,
            payload@.len() >= 11,
            magic@ == barrier_magic(),
            forall|j: int| 0 <= j < i ==> payload@[j] == barrier_magic()[j],
        decreases 7 - i,
    {
        if payload[i] != magic[i] {
            proof {
                assert(payload@.subrange(0, 7)[i as int] != barrier_magic()[i as int]);
            }
            return Err(PacketError::FormatError);
        }
        i += 1;
    }
    proof {
        assert(payload@.subrange(0, 7) =~= barrier_magic());
    }
    let major = crate::packet_io::read_be16(payload, 7);
    let minor = crate::packet_io::read_be16(payload, 9);
    Ok((major, minor))
}

/// The client's reply to the greeting: one frame of the protocol name,
/// the client version (one, six), and the length-prefixed screen name.
pub open spec fn hello_reply_bytes(name: Seq<u8>) -> Seq<u8> {
    be32_bytes(15 + name.len() as int) + barrier_magic() + be16_bytes(1) + be16_bytes(6) + be32_bytes(
        name.len() as int,
    ) + name
}

/// Writes the handshake reply for the screen called `device_name`.
pub fn write_hello_reply<S: PacketWriter>(out: &mut S, device_name: &str) -> (r: Result<
    (),
    PacketError,
>)
    requires
        device_name.spec_bytes().len() < 0x10000000,
    ensures
        r is Ok,
        final(out).sink() == old(out).sink() + hello_reply_bytes(device_name.spec_bytes()),
{
    let name_bytes = device_name.as_bytes();
    let total: u32 = 15 + name_bytes.len() as u32;
    let _ = out.write_u32(total);
    let magic: [u8; 7] = [0x42, 0x61, 0x72, 0x72, 0x69, 0x65, 0x72];
    let _ = out.write_all(magic.as_slice());
    let _ = out.write_u16(1);
    let _ = out.write_u16(6);
    let _ = out.write_str(device_name);
    proof {
        assert(out.sink() =~= old(out).sink() + hello_reply_bytes(device_name.spec_bytes()));
    }
    Ok(())
}

/// What the session does with one decoded packet.
pub struct DispatchOutcome {
    /// A packet to send back, if the server asked for one.
    pub reply: Option<Packet>,
    /// Whether the server ended the session.
    pub disconnect: bool,
}

/// The reply as a model, for stating what `dispatch_packet` sends.
pub open spec fn reply_model(r: Option<Packet>) -> Option<PacketModel> {
    match r {
        Some(p) => Some(p@),
        None => None,
    }
}

/// The session's dispatch rule: for each packet, how the actuator
/// state moves, what is sent back, and whether the session ends.
pub open spec fn spec_dispatch(a: ActModel, m: PacketModel, keep_awake: bool) -> (
    ActModel,
    Option<PacketModel>,
    bool,
) {
    match m {
        PacketModel::QueryInfo => (
            a,
            Some(
                PacketModel::DeviceInfo {
                    x: 0,
                    y: 0,
                    w: a.width,
                    h: a.height,
                    reserved: 0,
                    mx: 0,
                    my: 0,
                },
            ),
            false,
        ),
        PacketModel::KeepAlive => (
            if keep_awake {
                spec_jiggle(a)
            } else {
                a
            },
            Some(PacketModel::KeepAlive),
            false,
        ),
        PacketModel::MouseMoveAbs { x, y } => (
            spec_act_set_cursor(
                a,
                crate::usb_actuator::scale_abs_coord(x, a.width),
                crate::usb_actuator::scale_abs_coord(y, a.height),
            ),
            None,
            false,
        ),
        PacketModel::MouseMove { x, y } => (spec_act_move(a, x, y), None, false),
        PacketModel::KeyDown { id, mask, button } => (spec_act_key_down(a, id, button), None, false),
        PacketModel::KeyUp { id, mask, button } => (spec_act_key_up(a, button), None, false),
        PacketModel::KeyRepeat { .. } => (a, None, false),
        PacketModel::MouseDown { id } => (spec_act_mouse_down(a, id), None, false),
        PacketModel::MouseUp { id } => (spec_act_mouse_up(a, id), None, false),
        PacketModel::MouseWheel { x_delta, y_delta } => (
            spec_act_wheel(a, x_delta, y_delta),
            None,
            false,
        ),
        PacketModel::CursorEnter { x, y, seq_num, mask } => (
            spec_act_enter(a, x, y, mask),
            None,
            false,
        ),
        PacketModel::CursorLeave => (spec_act_leave(a), None, false),
        PacketModel::GrabClipboard { .. } => (a, None, false),
        PacketModel::SetClipboard { data, .. } => (
            match data {
                Some(d) => ActModel { clipboard: Some(d), ..a },
                None => a,
            },
            None,
            false,
        ),
        PacketModel::DeviceInfo { .. } => (a, None, false),
        PacketModel::InfoAck => (a, None, false),
        PacketModel::ClientNoOp => (a, None, false),
        PacketModel::ResetOptions => (a, None, false),
        PacketModel::ServerBusy => (a, None, true),
        PacketModel::GoodBye => (a, None, true),
        PacketModel::BadProtocol => (a, None, true),
        PacketModel::UnknownDevice => (a, None, true),
        PacketModel::IncompatibleVersion { .. } => (a, None, true),
        PacketModel::Unknown { .. } => (a, None, false),
    }
}

/// Applies one decoded packet to the actuator, exactly as the dispatch
/// rule says: input events queue their reports, an information query
/// or a keep-alive earns its reply, fatal server messages end the
/// session, informational ones do nothing.
pub fn dispatch_packet(actor: &mut UsbActuator, packet: Packet, keep_awake: bool) -> (r:
    DispatchOutcome)
    requires
        old(actor).wf(),
    ensures
        final(actor).wf(),
        ({
            let (a2, reply, disc) = spec_dispatch(old(actor)@, packet@, keep_awake);
            &&& final(actor)@ == a2
            &&& reply_model(r.reply) == reply
            &&& r.disconnect == disc
        }),
{
    match packet {
        Packet::QueryInfo => {
            let (w, h) = match actor.get_screen_size() {
                Ok(s) => s,
                Err(_) => {
                    proof {
                        assert(false);
                    }
                    (0, 0)
                },
            };
            DispatchOutcome {
                reply: Some(
                    Packet::DeviceInfo { x: 0, y: 0, w, h, reserved: 0, mx: 0, my: 0 },
                ),
                disconnect: false,
            }
        },
        Packet::KeepAlive => {
            if keep_awake {
                let _ = actor.jiggle();
            }
            DispatchOutcome { reply: Some(Packet::KeepAlive), disconnect: false }
        },
        Packet::MouseMoveAbs { x, y } => {
            proof {
                actor.lemma_wf_dims();
            }
            let (w, h) = match actor.get_screen_size() {
                Ok(s) => s,
                Err(_) => {
                    proof {
                        assert(false);
                    }
                    (1, 1)
                },
            };
            let sx = scale_coordinate(x, w);
            let sy = scale_coordinate(y, h);
            let _ = actor.set_cursor_position(sx, sy);
            DispatchOutcome { reply: None, disconnect: false }
        },
        Packet::MouseMove { x, y } => {
            let _ = actor.move_cursor(x, y);
            DispatchOutcome { reply: None, disconnect: false }
        },
        Packet::KeyDown { id, mask, button } => {
            let _ = actor.key_down(id, mask, button);
            DispatchOutcome { reply: None, disconnect: false }
        },
        Packet::KeyUp { id, mask, button } => {
            let _ = actor.key_up(id, mask, button);
            DispatchOutcome { reply: None, disconnect: false }
        },
        Packet::KeyRepeat { id, mask, button, count } => {
            let _ = actor.key_repeat(id, mask, button, count);
            DispatchOutcome { reply: None, disconnect: false }
        },
        Packet::MouseDown { id } => {
            let _ = actor.mouse_down(id);
            DispatchOutcome { reply: None, disconnect: false }
        },
        Packet::MouseUp { id } => {
            let _ = actor.mouse_up(id);
            DispatchOutcome { reply: None, disconnect: false }
        },
        Packet::MouseWheel { x_delta, y_delta } => {
            let _ = actor.mouse_wheel(x_delta, y_delta);
            DispatchOutcome { reply: None, disconnect: false }
        },
        Packet::CursorEnter { x, y, seq_num, mask } => {
            let _ = seq_num;
            let _ = actor.enter(x, y, mask);
            DispatchOutcome { reply: None, disconnect: false }
        },
        Packet::CursorLeave => {
            let _ = actor.leave();
            DispatchOutcome { reply: None, disconnect: false }
        },
        Packet::GrabClipboard { id, seq_num } => {
            let _ = (id, seq_num);
            DispatchOutcome { reply: None, disconnect: false }
        },
        Packet::SetClipboard { id, seq_num, data } => {
            let _ = (id, seq_num);
            match data {
                Some(d) => {
                    let _ = actor.set_clipboard(d);
                },
                None => {},
            }
            DispatchOutcome { reply: None, disconnect: false }
        },
        Packet::DeviceInfo { .. } => DispatchOutcome { reply: None, disconnect: false },
        Packet::InfoAck => DispatchOutcome { reply: None, disconnect: false },
        Packet::ClientNoOp => DispatchOutcome { reply: None, disconnect: false },
        Packet::ResetOptions => DispatchOutcome { reply: None, disconnect: false },
        Packet::ServerBusy => DispatchOutcome { reply: None, disconnect: true },
        Packet::GoodBye => DispatchOutcome { reply: None, disconnect: true },
        Packet::BadProtocol => DispatchOutcome { reply: None, disconnect: true },
        Packet::UnknownDevice => DispatchOutcome { reply: None, disconnect: true },
        Packet::IncompatibleVersion { major, minor } => {
            let _ = (major, minor);
            DispatchOutcome { reply: None, disconnect: true }
        },
        Packet::Unknown(code) => {
            let _ = code;
            DispatchOutcome { reply: None, disconnect: false }
        },
    }
}

} // verus!
