//! Error taxonomy: per-device failures, and the top-level error that a
//! whole invocation surfaces.
use vstd::prelude::*;
use vstd::string::StringExecFns;

verus! {

/// A failure raised by the device source or by one device operation.
/// Always scoped to a single device: one device's error never halts the
/// processing of its siblings.
#[derive(Clone, Copy, PartialEq, Eq, Structural, Debug)]
pub enum DeviceError {
    /// The source could not enumerate this slot.
    EnumerationFailed,
    /// The device's name could not be read.
    NameLookupFailed,
    /// The device's current level could not be read.
    ReadFailed,
    /// The new level could not be written.
    WriteFailed,
}

/// The words a device failure prints as.
pub open spec fn spec_describe(error: DeviceError) -> Seq<char> {
    match error {
        DeviceError::EnumerationFailed => "device enumeration failed"@,
        DeviceError::NameLookupFailed => "device name lookup failed"@,
        DeviceError::ReadFailed => "brightness read failed"@,
        DeviceError::WriteFailed => "brightness write failed"@,
    }
}

impl DeviceError {
    /// A human-readable cause for this failure.
    pub fn describe(&self) -> (r: String)
        ensures
            r@ == spec_describe(*self),
    {
        match self {
            DeviceError::EnumerationFailed => "device enumeration failed".to_owned(),
            DeviceError::NameLookupFailed => "device name lookup failed".to_owned(),
            DeviceError::ReadFailed => "brightness read failed".to_owned(),
            DeviceError::WriteFailed => "brightness write failed".to_owned(),
        }
    }
}

/// The error a whole invocation can end with.
#[derive(Debug)]
pub enum Error {
    /// A device failure that escalated to the process boundary, such as a
    /// total enumeration failure.
    BrightnessError(DeviceError),
    /// A device failure wrapped with the reporting step it interrupted;
    /// used only for display, never to abort sibling devices.
    PrintError { explanation: String, source: DeviceError },
}

/// The words a top-level error prints as.
pub open spec fn spec_message(error: Error) -> Seq<char> {
    match error {
        Error::BrightnessError(e) => "Brightness error: "@ + spec_describe(e),
        Error::PrintError { explanation, source } => explanation@ + ". Reason: "@ + spec_describe(
            source,
        ),
    }
}

impl Error {
    /// A human-readable rendering of this error.
    pub fn message(&self) -> (r: String)
        ensures
            r@ == spec_message(*self),
    {
        match self {
            Error::BrightnessError(e) => {
                let mut s = "Brightness error: ".to_owned();
                s.append(e.describe().as_str());
                s
            },
            Error::PrintError { explanation, source } => {
                let mut s = explanation.clone();
                s.append(". Reason: ");
                s.append(source.describe().as_str());
                s
            },
        }
    }
}

impl vstd::std_specs::convert::FromSpecImpl<DeviceError> for Error {
    open spec fn obeys_from_spec() -> bool {
        true
    }

    open spec fn from_spec(e: DeviceError) -> Self {
        Error::BrightnessError(e)
    }
}

impl From<DeviceError> for Error {
    fn from(e: DeviceError) -> Self {
        Error::BrightnessError(e)
    }
}

} // verus!
