use vstd::prelude::*;

verus! {

/// Every way a patch operation can fail. Variants that stem from host I/O
/// carry the host's error message; the caller produces it at the boundary.
#[derive(Debug)]
pub enum UpdaterError {
    /// Spawning or waiting on the external flashing tool failed.
    IoError(String),
    /// The device catalog could not be decoded.
    DeserializationError(String),
    /// The device catalog could not be encoded.
    SerializationError(String),
    /// Enumerating serial ports, or opening one, failed.
    SerialPortError(String),
    /// No attached serial port matched the device identification heuristic.
    B0xxNotFound,
    /// After triggering DFU mode, no new serial port appeared.
    DfuTtyNotFound,
    /// The external flashing tool is not installed where expected.
    ToolMissing,
    /// The external flashing tool exited with a non-zero status.
    ProcessFailure(i32),
    /// An event arrived that the current session state cannot accept.
    UnknownError,
}

} // verus!
