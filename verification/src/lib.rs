//! Verified core of a USB optical-mouse firmware.
//!
//! The crate models the three subsystems that make up the device's signal
//! path: the sensor protocol driver (register framing and motion sampling
//! over a half-duplex serial bus), the HID transport (descriptor exposure
//! and control-request handling for a boot-protocol mouse), and the
//! periodic-task scheduling decisions that tie the two together.
//! Hardware access itself (SPI transfers, USB endpoint writes, cycle
//! delays) stays outside; the logic here is stated over plain values and
//! an explicit loop-back model of the bus, and every function is verified
//! against its contract.

pub mod hid;
pub mod pmw3360;
pub mod task;
pub mod timing;
