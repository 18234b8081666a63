//! Input sampling and HID report encoding for a guitar-shaped gamepad.
//!
//! [`sampler::refresh`] writes one reading of the eleven switch lines and the
//! whammy sample into a [`report::GamepadReport`], whose fields are packed with
//! the single-bit writer of [`bits`].
pub mod bits;
pub mod report;
pub mod sampler;

pub use bits::{get_bit_u8, set_bit_u8};
pub use report::GamepadReport;
pub use sampler::{refresh, InputSnapshot};
