use vstd::prelude::*;

verus! {

/// USB vendor ID the device enumerates with.
pub const VENDOR_ID: u16 = 0x17ef;

/// USB product ID the device enumerates with.
pub const PRODUCT_ID: u16 = 0x6019;

/// Device release number (bcdDevice).
pub const DEVICE_RELEASE: u16 = 0x6300;

/// Current drawn from the bus, in milliamperes.
pub const MAX_POWER_MA: usize = 100;

/// Device class 0: the class is given per interface.
pub const DEVICE_CLASS: u8 = 0;

/// Polling interval of the HID interrupt endpoints, in milliseconds.
pub const POLL_INTERVAL_MS: u8 = 60;

/// Pause of the main loop between two movement steps, in milliseconds.
pub const STEP_PERIOD_MS: u32 = 500;

} // verus!
