use vstd::prelude::*;

verus! {

/// Largest input report the peripheral ever delivers, in bytes.
pub const MAX_REPORT_SIZE: usize = 78;

/// USB vendor identifier of the controller's manufacturer.
pub const DUALSENSE_VENDOR_ID: u16 = 0x054C;

/// USB product identifier of the controller.
pub const DUALSENSE_PRODUCT_ID: u16 = 0x0CE6;

/// USB product identifier of the Edge revision of the controller.
pub const DUALSENSE_EDGE_PRODUCT_ID: u16 = 0x0df2;

/// Touchpad coordinate range: X values run from 0 to `TOUCHPAD_WIDTH - 1`.
pub const TOUCHPAD_WIDTH: u16 = 1920;

/// Touchpad coordinate range: Y values run from 0 to `TOUCHPAD_HEIGHT - 1`.
pub const TOUCHPAD_HEIGHT: u16 = 1080;

/// Accelerometer counts per g of acceleration.
pub const ACCELERATION_RESOLUTION_PER_G: u16 = 8192;

/// Full accelerometer range in counts.
pub const ACCELERATION_RANGE: u16 = 4 * ACCELERATION_RESOLUTION_PER_G;

} // verus!
