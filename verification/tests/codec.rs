use esparrier::byte_stream::ByteStream;
use esparrier::clipboard::ClipboardStage;
use esparrier::error::PacketError;
use esparrier::packet::Packet;
use esparrier::packet_io::{PacketReader, PacketWriter};
use esparrier::packet_stream::PacketStream;
use esparrier::session::{parse_hello, write_hello_reply};

fn frame(code: &[u8; 4], body: &[u8]) -> Vec<u8> {
    let len = (4 + body.len()) as u32;
    let mut v = Vec::new();
    v.extend_from_slice(&len.to_be_bytes());
    v.extend_from_slice(code);
    v.extend_from_slice(body);
    v
}

fn read_one(bytes: &[u8]) -> (Result<Packet, PacketError>, usize) {
    let mut stream = PacketStream::new(ByteStream::new());
    stream.feed(bytes);
    let mut stage = ClipboardStage::Idle;
    let r = stream.read(&mut stage);
    (r, stream.consumed())
}

#[test]
fn reader_primitives_read_big_endian() {
    let mut s = ByteStream::new();
    s.feed(&[0x12, 0x34, 0xff, 0x85, 0xfe, 0xdc, 0x01, 0x02, 0x03, 0x04]);
    assert_eq!(s.read_u16().unwrap(), 0x1234);
    assert_eq!(s.read_u8().unwrap(), 0xff);
    assert_eq!(s.read_i8().unwrap(), -123);
    assert_eq!(s.read_i16().unwrap(), -0x0124);
    assert_eq!(s.read_u32().unwrap(), 0x01020304);
    assert_eq!(s.read_u8(), Err(PacketError::InsufficientDataError));
}

#[test]
fn writer_primitives_write_big_endian() {
    let mut s = ByteStream::new();
    s.write_u16(0x0780).unwrap();
    s.write_u32(0xdeadbeef).unwrap();
    s.write_str("ab").unwrap();
    assert_eq!(
        s.take_output(),
        vec![0x07, 0x80, 0xde, 0xad, 0xbe, 0xef, 0, 0, 0, 2, b'a', b'b']
    );
}

#[test]
fn roundtrip_client_packets() {
    let emitted = [
        Packet::QueryInfo,
        Packet::InfoAck,
        Packet::KeepAlive,
        Packet::ClientNoOp,
        Packet::UnknownDevice,
        Packet::DeviceInfo { x: 1, y: 2, w: 1920, h: 1080, reserved: 0, mx: 3, my: 4 },
        Packet::MouseMoveAbs { x: 960, y: 540 },
    ];
    for p in emitted {
        let mut out = ByteStream::new();
        let copy = match &p {
            Packet::QueryInfo => Packet::QueryInfo,
            Packet::InfoAck => Packet::InfoAck,
            Packet::KeepAlive => Packet::KeepAlive,
            Packet::ClientNoOp => Packet::ClientNoOp,
            Packet::UnknownDevice => Packet::UnknownDevice,
            Packet::DeviceInfo { x, y, w, h, reserved, mx, my } => Packet::DeviceInfo {
                x: *x,
                y: *y,
                w: *w,
                h: *h,
                reserved: *reserved,
                mx: *mx,
                my: *my,
            },
            Packet::MouseMoveAbs { x, y } => Packet::MouseMoveAbs { x: *x, y: *y },
            _ => unreachable!(),
        };
        copy.write_wire(&mut out).unwrap();
        let wire = out.take_output();
        let (r, consumed) = read_one(&wire);
        assert_eq!(r.unwrap(), p);
        // Decoding consumed exactly the declared length plus the prefix.
        assert_eq!(consumed, wire.len());
    }
}

#[test]
fn trailing_bytes_are_tolerated() {
    // A DMMV with two junk bytes appended and the length adjusted up.
    let mut body = vec![0x03, 0xc0, 0x02, 0x1c];
    body.extend_from_slice(&[0xaa, 0xbb]);
    let wire = frame(b"DMMV", &body);
    let (r, consumed) = read_one(&wire);
    assert_eq!(r.unwrap(), Packet::MouseMoveAbs { x: 960, y: 540 });
    assert_eq!(consumed, wire.len());

    // The next frame is still aligned.
    let mut stream = PacketStream::new(ByteStream::new());
    stream.feed(&wire);
    stream.feed(&frame(b"CALV", &[]));
    let mut stage = ClipboardStage::Idle;
    assert_eq!(
        stream.read(&mut stage).unwrap(),
        Packet::MouseMoveAbs { x: 960, y: 540 }
    );
    assert_eq!(stream.read(&mut stage).unwrap(), Packet::KeepAlive);
}

#[test]
fn short_packet_is_rejected_and_consumed() {
    // Length prefix of 3, three payload bytes, then a healthy frame.
    let mut bytes = vec![0, 0, 0, 3, 0xde, 0xad, 0xbe];
    bytes.extend_from_slice(&frame(b"CALV", &[]));
    let mut stream = PacketStream::new(ByteStream::new());
    stream.feed(&bytes);
    let mut stage = ClipboardStage::Idle;
    assert_eq!(stream.read(&mut stage), Err(PacketError::PacketTooSmall));
    // Exactly the 4-byte prefix plus the 3 declared bytes are consumed.
    assert_eq!(stream.consumed(), 7);
    assert_eq!(stream.read(&mut stage).unwrap(), Packet::KeepAlive);
}

#[test]
fn incomplete_frame_asks_for_more() {
    let wire = frame(b"DMMV", &[0x03, 0xc0, 0x02, 0x1c]);
    let mut stream = PacketStream::new(ByteStream::new());
    stream.feed(&wire[..5]);
    let mut stage = ClipboardStage::Idle;
    assert_eq!(
        stream.read(&mut stage),
        Err(PacketError::InsufficientDataError)
    );
    assert_eq!(stream.consumed(), 0);
    stream.feed(&wire[5..]);
    assert_eq!(
        stream.read(&mut stage).unwrap(),
        Packet::MouseMoveAbs { x: 960, y: 540 }
    );
}

#[test]
fn truncated_body_is_a_format_error() {
    // DMMV declares only two payload bytes where four are needed.
    let wire = frame(b"DMMV", &[0x03, 0xc0]);
    let (r, consumed) = read_one(&wire);
    assert_eq!(r, Err(PacketError::FormatError));
    assert_eq!(consumed, wire.len());
}

#[test]
fn decode_covers_the_catalogue() {
    let cases: Vec<(Vec<u8>, Packet)> = vec![
        (frame(b"QINF", &[]), Packet::QueryInfo),
        (frame(b"CIAK", &[]), Packet::InfoAck),
        (frame(b"CALV", &[]), Packet::KeepAlive),
        (frame(b"CNOP", &[]), Packet::ClientNoOp),
        (frame(b"EUNK", &[]), Packet::UnknownDevice),
        (frame(b"EBSY", &[]), Packet::ServerBusy),
        (frame(b"EBAD", &[]), Packet::BadProtocol),
        (frame(b"CBYE", &[]), Packet::GoodBye),
        (frame(b"CROP", &[]), Packet::ResetOptions),
        (frame(b"COUT", &[]), Packet::CursorLeave),
        (
            frame(b"EICV", &[0, 1, 0, 6]),
            Packet::IncompatibleVersion { major: 1, minor: 6 },
        ),
        (
            frame(b"CCLP", &[2, 0, 0, 0, 9]),
            Packet::GrabClipboard { id: 2, seq_num: 9 },
        ),
        (
            frame(b"CINN", &[0, 100, 0, 200, 0, 0, 0, 7, 0, 2]),
            Packet::CursorEnter { x: 100, y: 200, seq_num: 7, mask: 2 },
        ),
        (
            frame(b"DMRM", &[0xff, 0xfe, 0x00, 0x05]),
            Packet::MouseMove { x: -2, y: 5 },
        ),
        (frame(b"DMDN", &[1]), Packet::MouseDown { id: 1 }),
        (frame(b"DMUP", &[3]), Packet::MouseUp { id: 3 }),
        (
            frame(b"DMWM", &[0x00, 0x78, 0xff, 0x88]),
            Packet::MouseWheel { x_delta: 120, y_delta: -120 },
        ),
        (
            frame(b"DKDN", &[0x00, 0x61, 0, 0, 0, 30]),
            Packet::KeyDown { id: 0x61, mask: 0, button: 30 },
        ),
        (
            frame(b"DKUP", &[0x00, 0x61, 0, 0, 0, 30]),
            Packet::KeyUp { id: 0x61, mask: 0, button: 30 },
        ),
        // DKRP wire order is key, mask, count, button.
        (
            frame(b"DKRP", &[0x00, 0x61, 0, 0, 0, 2, 0, 30]),
            Packet::KeyRepeat { id: 0x61, mask: 0, button: 30, count: 2 },
        ),
        // DSOP: one option pair, consumed and ignored.
        (
            frame(b"DSOP", &[0, 0, 0, 2, b'H', b'B', b'R', b'T', 0, 0, 0, 1]),
            Packet::ClientNoOp,
        ),
        (frame(b"ZZZZ", &[]), Packet::Unknown(*b"ZZZZ")),
    ];
    for (wire, expected) in cases {
        let (r, consumed) = read_one(&wire);
        assert_eq!(r.unwrap(), expected);
        assert_eq!(consumed, wire.len());
    }
}

#[test]
fn handshake_hello_parses() {
    // The payload of the server's greeting frame.
    let payload = b"Barrier\x00\x01\x00\x06".to_vec();
    assert_eq!(parse_hello(&payload), Ok((1, 6)));
    let bad = b"Borrier\x00\x01\x00\x06".to_vec();
    assert_eq!(bad.len(), 11);
    assert_eq!(parse_hello(&bad), Err(PacketError::FormatError));
    assert_eq!(parse_hello(&b"Barrier".to_vec()), Err(PacketError::FormatError));
}

#[test]
fn handshake_reply_bytes() {
    let mut out = ByteStream::new();
    write_hello_reply(&mut out, "scrn").unwrap();
    let mut expected = vec![0, 0, 0, 19];
    expected.extend_from_slice(b"Barrier");
    expected.extend_from_slice(&[0, 1, 0, 6, 0, 0, 0, 4]);
    expected.extend_from_slice(b"scrn");
    assert_eq!(out.take_output(), expected);
}

#[test]
fn device_info_reply_bytes() {
    // With w=1920, h=1080 the DINF answer is byte-exact.
    let mut stream = PacketStream::new(ByteStream::new());
    stream
        .write(Packet::DeviceInfo { x: 0, y: 0, w: 1920, h: 1080, reserved: 0, mx: 0, my: 0 })
        .unwrap();
    let expected: Vec<u8> = vec![
        0x00, 0x00, 0x00, 0x12, b'D', b'I', b'N', b'F', 0x00, 0x00, 0x00, 0x00, 0x07, 0x80, 0x04,
        0x38, 0x00, 0x00, 0x00, 0x00, 0x00, 0x00,
    ];
    assert_eq!(stream.take_output(), expected);
}
