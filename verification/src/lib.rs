//! A verified core for a Barrier/Synergy KVM client endpoint.
//!
//! The crate models the wire protocol (length-prefixed packet framing,
//! big-endian codec, handshake), the multi-phase clipboard transfer state
//! machine, the translation of server input events into USB HID reports,
//! the session dispatch rules, and the firmware-update and control-channel
//! state machines.  Network, USB and flash I/O live outside the library;
//! callers feed plain bytes in and take plain bytes and reports out.

pub mod byte_stream;
pub mod clipboard;
pub mod config;
pub mod constants;
pub mod control;
pub mod error;
pub mod hid_report_writer;
pub mod ota;
pub mod packet;
pub mod packet_io;
pub mod packet_stream;
pub mod running_state;
pub mod session;
pub mod synergy_hid;
pub mod usb_actuator;
