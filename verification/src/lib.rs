//! Firmware updater core for a USB-attached input device.
//!
//! The crate models the device/firmware catalog, the serial-port
//! identification heuristic, the DFU (bootloader) activation state machine
//! built on port-set diffing, and the construction of the external flashing
//! tool's command line. All host interaction (port enumeration, opening a
//! port, sleeping, spawning the flasher) is performed by the caller, which
//! drives the verified state machine with events and carries out the actions
//! it returns.

pub mod device;
pub mod error;
pub mod flash;
pub mod patcher;
pub mod ports;
