use esparrier::control::{
    ota_chunk_params_ok, ControlCommand, ControlCommandResponse, ControlError,
};
use esparrier::ota::{crc32_accumulate, crc32_update, OtaError, OtaManager, OtaState};
use esparrier::running_state::{IpAddress, IpCidr, RunningState};

fn crc32(data: &[u8]) -> u32 {
    !crc32_accumulate(0xFFFFFFFF, data)
}

#[test]
fn crc32_matches_the_reference_value() {
    // The classic check value of the IEEE 802.3 polynomial.
    assert_eq!(crc32(b"123456789"), 0xCBF43926);
    assert_eq!(crc32(b""), 0);
}

#[test]
fn crc32_update_is_the_byte_step() {
    let mut c: u32 = 0xFFFFFFFF;
    for &b in b"123456789" {
        c = crc32_update(c, b);
    }
    assert_eq!(!c, 0xCBF43926);
}

#[test]
fn ota_happy_path() {
    let image = b"123456789";
    let mut ota = OtaManager::new();
    assert_eq!(ota.state(), OtaState::Idle);
    assert!(!ota.is_in_progress());
    assert_eq!(ota.progress(), None);

    ota.begin(image.len() as u32, crc32(image), 0x10000, 0x100000)
        .unwrap();
    assert!(ota.is_in_progress());
    assert_eq!(ota.progress(), Some((0, 9)));

    assert_eq!(ota.write_chunk(&image[..4]).unwrap(), false);
    assert_eq!(ota.progress(), Some((4, 9)));
    assert_eq!(ota.write_chunk(&image[4..]).unwrap(), true);
    assert_eq!(ota.progress(), Some((9, 9)));

    ota.flush(true).unwrap();
    assert_eq!(ota.state(), OtaState::Complete);
}

#[test]
fn ota_crc_mismatch_aborts() {
    let mut ota = OtaManager::new();
    ota.begin(5, 0xdeadbeef, 0, 0x100000).unwrap();
    assert_eq!(ota.write_chunk(b"12345").unwrap(), true);
    assert_eq!(ota.flush(true), Err(OtaError::CrcMismatch));
    assert_eq!(ota.state(), OtaState::Idle);
    assert_eq!(ota.progress(), None);
}

#[test]
fn ota_flush_without_verification_accepts_anything() {
    let mut ota = OtaManager::new();
    ota.begin(5, 0xdeadbeef, 0, 0x100000).unwrap();
    ota.write_chunk(b"12345").unwrap();
    assert_eq!(ota.flush(false), Ok(()));
    assert_eq!(ota.state(), OtaState::Complete);
}

#[test]
fn ota_rejections() {
    let mut ota = OtaManager::new();
    // Nothing started yet.
    assert_eq!(ota.write_chunk(b"x"), Err(OtaError::NotStarted));
    assert_eq!(ota.flush(true), Err(OtaError::NotStarted));
    // Unusable sizes leave the machine idle.
    assert_eq!(ota.begin(0, 0, 0, 0x100000), Err(OtaError::InvalidSize));
    assert_eq!(
        ota.begin(0x100001, 0, 0, 0x100000),
        Err(OtaError::InvalidSize)
    );
    assert_eq!(ota.state(), OtaState::Idle);
    // An image too large for its partition marks the failure.
    assert_eq!(ota.begin(0x1000, 0, 0, 0x800), Err(OtaError::InvalidSize));
    assert_eq!(ota.state(), OtaState::Error(OtaError::InvalidSize));
    // A second begin while receiving is refused.
    ota.begin(16, 0, 0, 0x100000).unwrap();
    assert_eq!(ota.begin(16, 0, 0, 0x100000), Err(OtaError::AlreadyInProgress));
    // Abort returns to idle.
    ota.abort();
    assert_eq!(ota.state(), OtaState::Idle);
}

#[test]
fn ota_chunk_bounds() {
    assert!(ota_chunk_params_ok(1, 1));
    assert!(ota_chunk_params_ok(64, 4096));
    assert!(!ota_chunk_params_ok(0, 64));
    assert!(!ota_chunk_params_ok(65, 64));
    assert!(!ota_chunk_params_ok(1, 0));
    assert!(!ota_chunk_params_ok(1, 4097));
}

#[test]
fn control_commands_parse() {
    assert_eq!(
        ControlCommand::from_bytes(b"s"),
        Some(ControlCommand::GetState)
    );
    assert_eq!(
        ControlCommand::from_bytes(b"r"),
        Some(ControlCommand::ReadConfig)
    );
    assert_eq!(
        ControlCommand::from_bytes(&[b'w', 7]),
        Some(ControlCommand::WriteConfig(7))
    );
    assert_eq!(
        ControlCommand::from_bytes(b"c"),
        Some(ControlCommand::CommitConfig)
    );
    assert_eq!(
        ControlCommand::from_bytes(&[b'k', 1]),
        Some(ControlCommand::KeepAwake(true))
    );
    assert_eq!(
        ControlCommand::from_bytes(&[b'k', 0]),
        Some(ControlCommand::KeepAwake(false))
    );
    assert_eq!(ControlCommand::from_bytes(b"b"), Some(ControlCommand::Reboot));
    assert_eq!(
        ControlCommand::from_bytes(&[b'O', 0x00, 0x10, 0, 0, 0xef, 0xbe, 0xad, 0xde]),
        Some(ControlCommand::OtaStart { size: 0x1000, crc: 0xdeadbeef })
    );
    assert_eq!(
        ControlCommand::from_bytes(&[b'D', 4, 0x00, 0x01]),
        Some(ControlCommand::OtaData { packets: 4, length: 0x100 })
    );
    assert_eq!(ControlCommand::from_bytes(b"A"), Some(ControlCommand::OtaAbort));
    assert_eq!(ControlCommand::from_bytes(b"P"), Some(ControlCommand::OtaStatus));
    // Unknown, empty and truncated packets mean nothing.
    assert_eq!(ControlCommand::from_bytes(b"z"), None);
    assert_eq!(ControlCommand::from_bytes(&[]), None);
    assert_eq!(ControlCommand::from_bytes(b"w"), None);
    assert_eq!(ControlCommand::from_bytes(b"k"), None);
    assert_eq!(ControlCommand::from_bytes(&[b'O', 1, 2, 3]), None);
    assert_eq!(ControlCommand::from_bytes(&[b'D', 1]), None);
}

#[test]
fn control_responses_encode() {
    assert_eq!(ControlCommandResponse::Accepted.to_bytes(), vec![b'o']);
    assert_eq!(ControlCommandResponse::Config(3).to_bytes(), vec![b'r', 3]);
    assert_eq!(ControlCommandResponse::OtaComplete.to_bytes(), vec![b'C']);
    assert_eq!(
        ControlCommandResponse::Error(ControlError::Timeout).to_bytes(),
        vec![b'e', b't']
    );
    assert_eq!(
        ControlCommandResponse::Error(ControlError::InvalidConfig).to_bytes(),
        vec![b'e', b'i']
    );
    assert_eq!(
        ControlCommandResponse::Error(ControlError::UnknownCommand).to_bytes(),
        vec![b'e', b'u']
    );
    assert_eq!(
        ControlCommandResponse::Error(ControlError::Endpoint).to_bytes(),
        vec![b'e', b'e']
    );
    assert_eq!(
        ControlCommandResponse::Error(ControlError::Ota(OtaError::CrcMismatch)).to_bytes(),
        vec![b'e', b'O', b'c']
    );
    assert_eq!(
        ControlCommandResponse::OtaProgress { received: 0x100, total: 0x1000 }.to_bytes(),
        vec![b'P', 0x00, 0x01, 0, 0, 0x00, 0x10, 0, 0]
    );
}

#[test]
fn running_state_serialises() {
    let fresh = RunningState::new();
    let bytes = fresh.to_bytes();
    assert_eq!(bytes.len(), 13);
    assert_eq!(&bytes[4..9], &[0, 0, 0, 0, 0]);
    assert_eq!(bytes[9], 0);
    assert_eq!(bytes[10], 0);
    assert_eq!(bytes[11], 0);

    let up = fresh.set_ip_address(Some(IpCidr {
        address: IpAddress { a: 192, b: 168, c: 1, d: 10 },
        prefix_len: 24,
    }));
    let mut with_flags = up;
    with_flags.server_connected = true;
    with_flags.keep_awake = true;
    let b2 = with_flags.to_bytes();
    assert_eq!(&b2[4..9], &[192, 168, 1, 10, 24]);
    assert_eq!(b2[9], 1);
    assert_eq!(b2[10], 0);
    assert_eq!(b2[11], 1);

    let state_reply = ControlCommandResponse::State(with_flags).to_bytes();
    assert_eq!(state_reply[0], b's');
    assert_eq!(&state_reply[1..], b2.as_slice());
}
