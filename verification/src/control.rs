use vstd::prelude::*;

use crate::ota::OtaError;
use crate::running_state::{running_state_bytes, RunningState};

verus! {

/// Value of the little-endian 16-bit field at offset `i` of `s`.
pub open spec fn le16_at(s: Seq<u8>, i: int) -> int {
    (s[i] as int) + (s[i + 1] as int) * 0x100
}

/// Value of the little-endian 32-bit field at offset `i` of `s`.
pub open spec fn le32_at(s: Seq<u8>, i: int) -> int {
    (s[i] as int) + (s[i + 1] as int) * 0x100 + (s[i + 2] as int) * 0x10000 + (s[i + 3] as int)
        * 0x1000000
}

/// The four little-endian bytes of a 32-bit value.
pub open spec fn le32_bytes(v: u32) -> Seq<u8> {
    seq![
        (v % 0x100) as u8,
        (v / 0x100 % 0x100) as u8,
        (v / 0x10000 % 0x100) as u8,
        (v / 0x1000000) as u8,
    ]
}

/// One command arriving on the vendor control endpoint.
#[derive(Debug, Clone, Copy, PartialEq, Eq, Structural)]
pub enum ControlCommand {
    /// Query the running state.
    GetState,
    /// Read the stored configuration back.
    ReadConfig,
    /// Receive a new configuration of this many blocks.
    WriteConfig(u8),
    /// Persist the received configuration and restart.
    CommitConfig,
    /// Switch the cursor jiggler on or off.
    KeepAwake(bool),
    /// Restart the device.
    Reboot,
    /// Start a firmware update: image size and checksum.
    OtaStart { size: u32, crc: u32 },
    /// One update chunk: how many endpoint packets carry it and how
    /// many bytes of them are image data.
    OtaData { packets: u8, length: u16 },
    /// Abandon the update.
    OtaAbort,
    /// Query update progress.
    OtaStatus,
}

/// What a raw endpoint packet means: the first byte selects the
/// command, fixed little-endian fields follow; a short or unknown
/// packet means nothing.
pub open spec fn parse_control_command(b: Seq<u8>) -> Option<ControlCommand> {
    if b.len() == 0 {
        None
    } else if b[0] == 0x73 {  // 's'
        Some(ControlCommand::GetState)
    } else if b[0] == 0x72 {  // 'r'
        Some(ControlCommand::ReadConfig)
    } else if b[0] == 0x77 {  // 'w'
        if b.len() >= 2 {
            Some(ControlCommand::WriteConfig(b[1]))
        } else {
            None
        }
    } else if b[0] == 0x63 {  // 'c'
        Some(ControlCommand::CommitConfig)
    } else if b[0] == 0x6b {  // 'k'
        if b.len() >= 2 {
            Some(ControlCommand::KeepAwake(b[1] != 0))
        } else {
            None
        }
    } else if b[0] == 0x62 {  // 'b'
        Some(ControlCommand::Reboot)
    } else if b[0] == 0x4f {  // 'O'
        if b.len() >= 9 {
            Some(
                ControlCommand::OtaStart {
                    size: le32_at(b, 1) as u32,
                    crc: le32_at(b, 5) as u32,
                },
            )
        } else {
            None
        }
    } else if b[0] == 0x44 {  // 'D'
        if b.len() >= 4 {
            Some(ControlCommand::OtaData { packets: b[1], length: le16_at(b, 2) as u16 })
        } else {
            None
        }
    } else if b[0] == 0x41 {  // 'A'
        Some(ControlCommand::OtaAbort)
    } else if b[0] == 0x50 {  // 'P'
        Some(ControlCommand::OtaStatus)
    } else {
        None
    }
}

impl ControlCommand {
    /// Decodes one endpoint packet into a command.
    pub fn from_bytes(bytes: &[u8]) -> (r: Option<ControlCommand>)
        ensures
            r == parse_control_command(bytes@),
    {
        if bytes.len() == 0 {
            return None;
        }
        let b0 = bytes[0];
        if b0 == 0x73 {
            Some(ControlCommand::GetState)
        } else if b0 == 0x72 {
            Some(ControlCommand::ReadConfig)
        } else if b0 == 0x77 {
            if bytes.len() >= 2 {
                Some(ControlCommand::WriteConfig(bytes[1]))
            } else {
                None
            }
        } else if b0 == 0x63 {
            Some(ControlCommand::CommitConfig)
        } else if b0 == 0x6b {
            if bytes.len() >= 2 {
                Some(ControlCommand::KeepAwake(bytes[1] != 0))
            } else {
                None
            }
        } else if b0 == 0x62 {
            Some(ControlCommand::Reboot)
        } else if b0 == 0x4f {
            if bytes.len() >= 9 {
                let size: u32 = (bytes[1] as u32) + (bytes[2] as u32) * 0x100 + (bytes[3] as u32)
                    * 0x10000 + (bytes[4] as u32) * 0x1000000;
                let crc: u32 = (bytes[5] as u32) + (bytes[6] as u32) * 0x100 + (bytes[7] as u32)
                    * 0x10000 + (bytes[8] as u32) * 0x1000000;
                Some(ControlCommand::OtaStart { size, crc })
            } else {
                None
            }
        } else if b0 == 0x44 {
            if bytes.len() >= 4 {
                let length: u16 = (bytes[2] as u16) + (bytes[3] as u16) * 0x100;
                Some(ControlCommand::OtaData { packets: bytes[1], length })
            } else {
                None
            }
        } else if b0 == 0x41 {
            Some(ControlCommand::OtaAbort)
        } else if b0 == 0x50 {
            Some(ControlCommand::OtaStatus)
        } else {
            None
        }
    }
}

/// Faults reported on the control endpoint.
#[derive(Debug, Clone, Copy, PartialEq, Eq, Structural)]
pub enum ControlError {
    /// The endpoint itself failed.
    Endpoint,
    /// The peer stopped answering in time.
    Timeout,
    /// The received configuration did not validate.
    InvalidConfig,
    /// The first byte selected no command.
    UnknownCommand,
    /// A firmware-update fault.
    Ota(OtaError),
}

/// One reply on the vendor control endpoint.
#[derive(Debug, Clone, Copy, PartialEq, Eq, Structural)]
pub enum ControlCommandResponse {
    /// The running state, serialised.
    State(RunningState),
    /// The configuration follows in this many blocks.
    Config(u8),
    /// The command was carried out.
    Accepted,
    /// The command failed.
    Error(ControlError),
    /// Update progress: received and announced byte counts.
    OtaProgress { received: u32, total: u32 },
    /// The update is verified and complete.
    OtaComplete,
}

/// The mnemonic byte of a firmware-update fault.
pub open spec fn ota_error_byte(e: OtaError) -> u8 {
    match e {
        OtaError::AlreadyInProgress => 0x61u8,  // 'a'
        OtaError::NotStarted => 0x6eu8,  // 'n'
        OtaError::InitFailed => 0x69u8,  // 'i'
        OtaError::WriteFailed => 0x77u8,  // 'w'
        OtaError::CrcMismatch => 0x63u8,  // 'c'
        OtaError::FlushFailed => 0x66u8,  // 'f'
        OtaError::InvalidSize => 0x73u8,  // 's'
        OtaError::PartitionNotFound => 0x70u8,  // 'p'
    }
}

/// The wire form of a reply: a tag byte and the fixed fields of the
/// variant.
pub open spec fn response_bytes(r: ControlCommandResponse) -> Seq<u8> {
    match r {
        ControlCommandResponse::State(s) => seq![0x73u8] + running_state_bytes(s),
        ControlCommandResponse::Config(v) => seq![0x72u8, v],
        ControlCommandResponse::Accepted => seq![0x6fu8],
        ControlCommandResponse::Error(e) => match e {
            ControlError::Endpoint => seq![0x65u8, 0x65],
            ControlError::Timeout => seq![0x65u8, 0x74],
            ControlError::InvalidConfig => seq![0x65u8, 0x69],
            ControlError::UnknownCommand => seq![0x65u8, 0x75],
            ControlError::Ota(oe) => seq![0x65u8, 0x4f, ota_error_byte(oe)],
        },
        ControlCommandResponse::OtaProgress { received, total } => seq![0x50u8] + le32_bytes(
            received,
        ) + le32_bytes(total),
        ControlCommandResponse::OtaComplete => seq![0x43u8],
    }
}

impl ControlCommandResponse {
    /// Encodes the reply for the endpoint.
    pub fn to_bytes(&self) -> (r: Vec<u8>)
        ensures
            r@ == response_bytes(*self),
    {
        let mut v: Vec<u8> = Vec::new();
        match self {
            ControlCommandResponse::State(s) => {
                v.push(0x73);
                let mut body = s.to_bytes();
                let mut i: usize = 0;
                let n = body.len();
                while i < n
                    invariant
                        i <= n,
                        n == body@.len(),
                        v@ == seq![0x73u8] + body@.subrange(0, i as int),
                    decreases n - i,
                {
                    v.push(body[i]);
                    i += 1;
                    assert(v@ =~= seq![0x73u8] + body@.subrange(0, i as int));
                }
                proof {
                    assert(body@.subrange(0, n as int) =~= body@);
                }
            },
            ControlCommandResponse::Config(value) => {
                v.push(0x72);
                v.push(*value);
            },
            ControlCommandResponse::Accepted => {
                v.push(0x6f);
            },
            ControlCommandResponse::Error(e) => {
                v.push(0x65);
                match e {
                    ControlError::Endpoint => v.push(0x65),
                    ControlError::Timeout => v.push(0x74),
                    ControlError::InvalidConfig => v.push(0x69),
                    ControlError::UnknownCommand => v.push(0x75),
                    ControlError::Ota(oe) => {
                        v.push(0x4f);
                        match oe {
                            OtaError::AlreadyInProgress => v.push(0x61),
                            OtaError::NotStarted => v.push(0x6e),
                            OtaError::InitFailed => v.push(0x69),
                            OtaError::WriteFailed => v.push(0x77),
                            OtaError::CrcMismatch => v.push(0x63),
                            OtaError::FlushFailed => v.push(0x66),
                            OtaError::InvalidSize => v.push(0x73),
                            OtaError::PartitionNotFound => v.push(0x70),
                        }
                    },
                }
            },
            ControlCommandResponse::OtaProgress { received, total } => {
                v.push(0x50);
                v.push((*received % 0x100) as u8);
                v.push((*received / 0x100 % 0x100) as u8);
                v.push((*received / 0x10000 % 0x100) as u8);
                v.push((*received / 0x1000000) as u8);
                v.push((*total % 0x100) as u8);
                v.push((*total / 0x100 % 0x100) as u8);
                v.push((*total / 0x10000 % 0x100) as u8);
                v.push((*total / 0x1000000) as u8);
            },
            ControlCommandResponse::OtaComplete => {
                v.push(0x43);
            },
        }
        proof {
            assert(v@ =~= response_bytes(*self));
        }
        v
    }
}

/// Whether one update chunk's framing is usable: at least one and at
/// most sixty-four endpoint packets, and a data length of at least one
/// byte that fits the four-kilobyte chunk buffer.
pub fn ota_chunk_params_ok(packets: u8, length: u16) -> (r: bool)
    ensures
        r == (1 <= packets <= 64 && 1 <= length <= 4096),
{
    1 <= packets && packets <= 64 && 1 <= length && length <= 4096
}

} // verus!
