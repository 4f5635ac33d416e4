pub mod constants;
pub mod hid;
pub mod locator;
