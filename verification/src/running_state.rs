use vstd::prelude::*;

use crate::constants::{FEATURE_FLAGS, MODEL_ID, VERSION_MAJOR, VERSION_MINOR, VERSION_PATCH};

verus! {

/// An IPv4 address as four plain octets.
#[derive(Debug, Clone, Copy, PartialEq, Eq, Structural)]
pub struct IpAddress {
    pub a: u8,
    pub b: u8,
    pub c: u8,
    pub d: u8,
}

/// An IPv4 address with its network prefix length.
#[derive(Debug, Clone, Copy, PartialEq, Eq, Structural)]
pub struct IpCidr {
    pub address: IpAddress,
    pub prefix_len: u8,
}

/// What the device currently is: firmware identity, link address, and
/// the three liveness flags the status channel reports.
#[derive(Debug, Clone, Copy, PartialEq, Eq, Structural)]
pub struct RunningState {
    pub version_major: u8,
    pub version_minor: u8,
    pub version_patch: u8,
    pub feature_flags: u8,
    pub ip_address: Option<IpCidr>,
    pub server_connected: bool,
    pub active: bool,
    pub keep_awake: bool,
    pub model_id: u8,
}

/// A truth value as a status byte.
pub open spec fn bool_byte(b: bool) -> u8 {
    if b {
        1u8
    } else {
        0u8
    }
}

/// The thirteen status bytes: version triple, feature flags, the
/// address and prefix (zeroes when the link is down), the three
/// liveness flags, and the model identifier.
pub open spec fn running_state_bytes(s: RunningState) -> Seq<u8> {
    let ip = match s.ip_address {
        Some(c) => seq![c.address.a, c.address.b, c.address.c, c.address.d, c.prefix_len],
        None => seq![0u8, 0, 0, 0, 0],
    };
    seq![s.version_major, s.version_minor, s.version_patch, s.feature_flags] + ip + seq![
        bool_byte(s.server_connected),
        bool_byte(s.active),
        bool_byte(s.keep_awake),
        s.model_id,
    ]
}

impl RunningState {
    /// A fresh state: firmware identity filled in, link down, all
    /// liveness flags off.
    pub fn new() -> (r: RunningState)
        ensures
            r == (RunningState {
                version_major: VERSION_MAJOR,
                version_minor: VERSION_MINOR,
                version_patch: VERSION_PATCH,
                feature_flags: FEATURE_FLAGS,
                ip_address: None::<IpCidr>,
                server_connected: false,
                active: false,
                keep_awake: false,
                model_id: MODEL_ID,
            }),
    {
        RunningState {
            version_major: VERSION_MAJOR,
            version_minor: VERSION_MINOR,
            version_patch: VERSION_PATCH,
            feature_flags: FEATURE_FLAGS,
            ip_address: None,
            server_connected: false,
            active: false,
            keep_awake: false,
            model_id: MODEL_ID,
        }
    }

    /// The same state with another link address.
    pub fn set_ip_address(&self, ip_address: Option<IpCidr>) -> (r: RunningState)
        ensures
            r == (RunningState { ip_address, ..*self }),
    {
        RunningState { ip_address, ..*self }
    }

    /// Serialises the state for the status channel.
    pub fn to_bytes(&self) -> (r: Vec<u8>)
        ensures
            r@ == running_state_bytes(*self),
            r@.len() == 13,
    {
        let mut v: Vec<u8> = Vec::new();
        v.push(self.version_major);
        v.push(self.version_minor);
        v.push(self.version_patch);
        v.push(self.feature_flags);
        match self.ip_address {
            Some(c) => {
                v.push(c.address.a);
                v.push(c.address.b);
                v.push(c.address.c);
                v.push(c.address.d);
                v.push(c.prefix_len);
            },
            None => {
                v.push(0);
                v.push(0);
                v.push(0);
                v.push(0);
                v.push(0);
            },
        }
        v.push(if self.server_connected {
            1
        } else {
            0
        });
        v.push(if self.active {
            1
        } else {
            0
        });
        v.push(if self.keep_awake {
            1
        } else {
            0
        });
        v.push(self.model_id);
        proof {
            assert(v@ =~= running_state_bytes(*self));
        }
        v
    }
}

} // verus!
