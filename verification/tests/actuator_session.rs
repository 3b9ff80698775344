use esparrier::byte_stream::ByteStream;
use esparrier::clipboard::ClipboardStage;
use esparrier::hid_report_writer::HidReport;
use esparrier::packet::Packet;
use esparrier::packet_io::{PacketReader, PacketWriter};
use esparrier::packet_stream::PacketStream;
use esparrier::session::{dispatch_packet, parse_hello, write_hello_reply};
use esparrier::usb_actuator::{scale_coordinate, UsbActuator};

fn frame(code: &[u8; 4], body: &[u8]) -> Vec<u8> {
    let len = (4 + body.len()) as u32;
    let mut v = Vec::new();
    v.extend_from_slice(&len.to_be_bytes());
    v.extend_from_slice(code);
    v.extend_from_slice(body);
    v
}

fn drain(actor: &mut UsbActuator) -> Vec<HidReport> {
    let mut v = Vec::new();
    while let Some(r) = actor.pop_report() {
        v.push(r);
    }
    v
}

#[test]
fn scaling_uses_the_ceiling_formula() {
    assert_eq!(scale_coordinate(960, 1920), 0x4000);
    assert_eq!(scale_coordinate(540, 1080), 0x4000);
    assert_eq!(scale_coordinate(0, 1920), 0);
    assert_eq!(scale_coordinate(1920, 1920), 0x7fff);
    assert_eq!(scale_coordinate(1, 65535), 1);
    assert_eq!(scale_coordinate(65535, 65535), 0x7fff);
    assert_eq!(scale_coordinate(1, 1), 0x7fff);
    // Off-screen coordinates are clamped into the logical range.
    assert_eq!(scale_coordinate(3000, 1920), 0x7fff);
}

#[test]
fn absolute_move_emits_the_scaled_report() {
    let mut actor = UsbActuator::new(1920, 1080, false);
    let out = dispatch_packet(&mut actor, Packet::MouseMoveAbs { x: 960, y: 540 }, false);
    assert!(out.reply.is_none());
    assert!(!out.disconnect);
    assert_eq!(
        drain(&mut actor),
        vec![HidReport::Mouse([2, 0, 0x00, 0x40, 0x00, 0x40, 0, 0])]
    );
    assert_eq!(actor.get_cursor_position().unwrap(), (0x4000, 0x4000));
}

#[test]
fn relative_move_uses_the_cached_position() {
    let mut actor = UsbActuator::new(1920, 1080, false);
    actor.set_cursor_position(100, 200).unwrap();
    actor.move_cursor(-30, 50).unwrap();
    assert_eq!(actor.get_cursor_position().unwrap(), (70, 250));
    let reports = drain(&mut actor);
    assert_eq!(reports.len(), 2);
    assert_eq!(reports[1], HidReport::Mouse([2, 0, 70, 0, 250, 0, 0, 0]));
}

#[test]
fn query_info_earns_a_device_info_reply() {
    let mut actor = UsbActuator::new(1920, 1080, false);
    let out = dispatch_packet(&mut actor, Packet::QueryInfo, false);
    assert_eq!(
        out.reply,
        Some(Packet::DeviceInfo { x: 0, y: 0, w: 1920, h: 1080, reserved: 0, mx: 0, my: 0 })
    );
    assert!(!out.disconnect);
    assert!(drain(&mut actor).is_empty());
}

#[test]
fn keep_alive_is_echoed_and_may_jiggle() {
    let mut actor = UsbActuator::new(1920, 1080, false);
    let quiet = dispatch_packet(&mut actor, Packet::KeepAlive, false);
    assert_eq!(quiet.reply, Some(Packet::KeepAlive));
    assert!(drain(&mut actor).is_empty());

    let awake = dispatch_packet(&mut actor, Packet::KeepAlive, true);
    assert_eq!(awake.reply, Some(Packet::KeepAlive));
    // The jiggle nudges one pixel aside and back.
    assert_eq!(
        drain(&mut actor),
        vec![
            HidReport::Mouse([2, 0, 1, 0, 0, 0, 0, 0]),
            HidReport::Mouse([2, 0, 0, 0, 0, 0, 0, 0]),
        ]
    );
}

#[test]
fn jiggle_holds_still_while_keys_are_down() {
    let mut actor = UsbActuator::new(1920, 1080, false);
    actor.key_down(0x61, 0, 30).unwrap();
    drain(&mut actor);
    actor.jiggle().unwrap();
    assert!(drain(&mut actor).is_empty());
}

#[test]
fn enter_scales_and_presses_held_modifiers() {
    // CINN x=100 y=200 mask=0x0002: cursor lands scaled, then a
    // left-shift press is synthesised.
    let mut actor = UsbActuator::new(1920, 1080, false);
    let out = dispatch_packet(
        &mut actor,
        Packet::CursorEnter { x: 100, y: 200, seq_num: 7, mask: 0x0002 },
        false,
    );
    assert!(!out.disconnect);
    let sx = scale_coordinate(100, 1920);
    let sy = scale_coordinate(200, 1080);
    let reports = drain(&mut actor);
    assert_eq!(reports.len(), 2);
    assert_eq!(
        reports[0],
        HidReport::Mouse([
            2,
            0,
            (sx & 0xff) as u8,
            (sx >> 8) as u8,
            (sy & 0xff) as u8,
            (sy >> 8) as u8,
            0,
            0
        ])
    );
    assert_eq!(reports[1], HidReport::Keyboard([1, 0x02, 0, 0, 0, 0, 0, 0, 0]));
}

#[test]
fn leave_neutralises_all_three_devices() {
    let mut actor = UsbActuator::new(1920, 1080, false);
    actor.key_down(0x61, 0, 30).unwrap();
    actor.mouse_down(1).unwrap();
    drain(&mut actor);
    let out = dispatch_packet(&mut actor, Packet::CursorLeave, false);
    assert!(!out.disconnect);
    assert_eq!(
        drain(&mut actor),
        vec![
            HidReport::Keyboard([1, 0, 0, 0, 0, 0, 0, 0, 0]),
            HidReport::Mouse([2, 0, 0, 0, 0, 0, 0, 0]),
            HidReport::Consumer([3, 0, 0]),
        ]
    );
}

#[test]
fn reports_stay_in_event_order() {
    // One report per event, observed in exactly the call order.
    let mut actor = UsbActuator::new(1920, 1080, false);
    actor.key_down(0x61, 0, 30).unwrap();
    actor.mouse_down(1).unwrap();
    actor.mouse_wheel(0, 120).unwrap();
    actor.key_up(0x61, 0, 30).unwrap();
    actor.mouse_up(1).unwrap();
    let reports = drain(&mut actor);
    assert_eq!(
        reports,
        vec![
            HidReport::Keyboard([1, 0, 0, 0x04, 0, 0, 0, 0, 0]),
            HidReport::Mouse([2, 1, 0, 0, 0, 0, 0, 0]),
            HidReport::Mouse([2, 1, 0, 0, 0, 0, 1, 0]),
            HidReport::Keyboard([1, 0, 0, 0, 0, 0, 0, 0, 0]),
            HidReport::Mouse([2, 0, 0, 0, 0, 0, 0, 0]),
        ]
    );
    assert!(actor.pop_report().is_none());
}

#[test]
fn key_repeat_is_a_no_op() {
    let mut actor = UsbActuator::new(1920, 1080, false);
    let out = dispatch_packet(
        &mut actor,
        Packet::KeyRepeat { id: 0x61, mask: 0, button: 30, count: 3 },
        false,
    );
    assert!(out.reply.is_none());
    assert!(!out.disconnect);
    assert!(drain(&mut actor).is_empty());
}

#[test]
fn fatal_packets_end_the_session() {
    for p in [
        Packet::ServerBusy,
        Packet::GoodBye,
        Packet::BadProtocol,
        Packet::UnknownDevice,
        Packet::IncompatibleVersion { major: 2, minor: 0 },
    ] {
        let mut actor = UsbActuator::new(1920, 1080, false);
        let out = dispatch_packet(&mut actor, p, false);
        assert!(out.disconnect);
        assert!(out.reply.is_none());
    }
}

#[test]
fn informational_packets_are_ignored() {
    for p in [
        Packet::DeviceInfo { x: 0, y: 0, w: 1, h: 1, reserved: 0, mx: 0, my: 0 },
        Packet::InfoAck,
        Packet::ClientNoOp,
        Packet::ResetOptions,
        Packet::GrabClipboard { id: 0, seq_num: 1 },
        Packet::Unknown(*b"ZZZZ"),
    ] {
        let mut actor = UsbActuator::new(1920, 1080, false);
        let out = dispatch_packet(&mut actor, p, false);
        assert!(!out.disconnect);
        assert!(out.reply.is_none());
        assert!(drain(&mut actor).is_empty());
    }
}

#[test]
fn a_whole_session_round() {
    // The server greets; the client answers with its version and name.
    let mut bs = ByteStream::new();
    bs.feed(b"\x00\x00\x00\x0bBarrier\x00\x01\x00\x06");
    let size = bs.read_u32().unwrap() as usize;
    let greeting = bs.read_bytes_exact(size).unwrap();
    assert_eq!(parse_hello(&greeting), Ok((1, 6)));
    write_hello_reply(&mut bs, "scrn").unwrap();

    let mut stream = PacketStream::new(bs);
    let reply = stream.take_output();
    assert_eq!(&reply[..4], &[0, 0, 0, 19]);
    assert_eq!(&reply[4..11], b"Barrier");

    // The server asks for the screen, moves the cursor, types a key,
    // and says goodbye.
    stream.feed(&frame(b"QINF", &[]));
    stream.feed(&frame(b"DMMV", &[0x03, 0xc0, 0x02, 0x1c]));
    stream.feed(&frame(b"DKDN", &[0x00, 0x61, 0, 0, 0, 30]));
    stream.feed(&frame(b"DKUP", &[0x00, 0x61, 0, 0, 0, 30]));
    stream.feed(&frame(b"CBYE", &[]));

    let mut actor = UsbActuator::new(1920, 1080, false);
    let mut stage = ClipboardStage::Idle;
    let mut reports = Vec::new();
    loop {
        let packet = stream.read(&mut stage).unwrap();
        let outcome = dispatch_packet(&mut actor, packet, false);
        if let Some(p) = outcome.reply {
            stream.write(p).unwrap();
        }
        reports.extend(drain(&mut actor));
        if outcome.disconnect {
            break;
        }
    }
    // The one reply was the device information, byte-exact.
    assert_eq!(
        stream.take_output(),
        vec![
            0x00, 0x00, 0x00, 0x12, b'D', b'I', b'N', b'F', 0x00, 0x00, 0x00, 0x00, 0x07, 0x80,
            0x04, 0x38, 0x00, 0x00, 0x00, 0x00, 0x00, 0x00,
        ]
    );
    // The input events came out as HID reports, in order.
    assert_eq!(
        reports,
        vec![
            HidReport::Mouse([2, 0, 0x00, 0x40, 0x00, 0x40, 0, 0]),
            HidReport::Keyboard([1, 0, 0, 0x04, 0, 0, 0, 0, 0]),
            HidReport::Keyboard([1, 0, 0, 0, 0, 0, 0, 0, 0]),
        ]
    );
}

#[test]
fn clipboard_packet_fills_the_slot() {
    let mut actor = UsbActuator::new(1920, 1080, false);
    let mut data: heapless::Vec<u8, 1024> = heapless::Vec::new();
    data.extend_from_slice(b"hi").unwrap();
    let out = dispatch_packet(
        &mut actor,
        Packet::SetClipboard { id: 0, seq_num: 1, data: Some(data) },
        false,
    );
    assert!(!out.disconnect);
    assert_eq!(actor.take_clipboard().unwrap().as_slice(), b"hi");
    assert!(actor.take_clipboard().is_none());
}
