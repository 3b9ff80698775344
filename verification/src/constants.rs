use vstd::prelude::*;

verus! {

/// Firmware version reported on the control channel.
pub const VERSION_MAJOR: u8 = 0;
pub const VERSION_MINOR: u8 = 1;
pub const VERSION_PATCH: u8 = 0;

/// No optional indicator or clipboard hardware features are compiled in.
pub const FEATURE_FLAGS: u8 = 0;

/// Generic device model identifier.
pub const MODEL_ID: u8 = 255;

/// Upper bound on a clipboard text payload held by the client.
pub const MAX_CLIPBOARD_SIZE: usize = 1024;

/// Default screen geometry exposed to the server.
pub const SCREEN_WIDTH: u16 = 1920;
pub const SCREEN_HEIGHT: u16 = 1080;

/// Default cadence of cursor jiggling and of HID polling.
pub const JIGGLE_INTERVAL: u16 = 60;
pub const POLLING_RATE: u16 = 200;

/// Default wheel orientation.
pub const REVERSED_WHEEL: bool = false;

/// Default indicator brightness.
pub const BRIGHTNESS: u8 = 30;

/// Default USB identity.
pub const USB_VID: u16 = 0x0d0a;
pub const USB_PID: u16 = 0xc0de;

/// The highest value the server may use as a key-press button slot.
pub const MAX_BUTTON: u16 = 512;

/// Upper bound of the absolute-mouse logical coordinate range.
pub const ABS_MAX: u16 = 0x7fff;

/// Size of one configuration flash sector.
pub const MAX_CONFIG_SIZE: usize = 4096;

} // verus!
