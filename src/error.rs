use vstd::prelude::*;

verus! {

/// What can go wrong when talking to the cooler.
#[derive(Debug, Clone, Copy, PartialEq, Eq, Structural)]
pub enum CoolerError {
    /// No device with the cooler's vendor and product identifiers is present.
    DeviceNotFound,
    /// The host refused to open the device.
    OpenFailed,
    /// Whether a kernel driver holds the interface could not be found out.
    DriverQueryFailed,
    /// The kernel driver could not be detached from the interface.
    DetachFailed,
    /// The interface could not be claimed.
    ClaimFailed,
    /// The device could not be reset.
    ResetFailed,
    /// A read or write on an endpoint failed.
    TransferFailed,
    /// A fan or pump duty lies outside its documented range.
    InvalidParameter,
    /// A telemetry report is too short to decode.
    MalformedReport,
}

} // verus!
