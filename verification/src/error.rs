//! Error taxonomy of the runtime core.

use vstd::prelude::*;
use vstd::std_specs::convert::FromSpecImpl;
use vstd::string::StringExecFns;
use core::str::Utf8Error;

verus! {

/// Any failure of the runtime core, by the subsystem it comes from.
#[derive(Clone, Debug, PartialEq, Eq)]
pub enum OsError {
    Generic(String),
    Pin(PinError),
    Wifi(WifiError),
    FlashStorage(FlashError),
    Parse(String),
}

/// A failure of the store that keeps the settings.
#[derive(Clone, Debug, PartialEq, Eq)]
pub enum FlashError {
    IoFault,
    IoTimeout,
    Generic(String),
    OutOfBounds(String),
    Uninitialised,
    Corrupted,
    ChecksumMismatch,
    NotFound,
}

/// A failure to hand out a pin. It concerns the one claim and no other pin.
#[derive(Clone, Debug, PartialEq, Eq)]
pub enum PinError {
    /// The index is outside the chipset's pins.
    InvalidPin(u8),
    /// The pin has been claimed before.
    PinInUse(u8),
    /// The pin was granted, but could not be set up.
    Generic { pin: u8, error: String },
}

/// A failure of the network connection.
#[derive(Clone, Debug, PartialEq, Eq)]
pub enum WifiError {
    Unknown(String),
    NotInitialised,
    Disconnected,
    NoIpAllocation,
}

/// `core::str::Utf8Error`, taken as it comes: nothing of what it holds is
/// known here.
#[verifier::external_type_specification]
#[verifier::external_body]
pub struct ExUtf8Error(Utf8Error);

/// `serde_json::Error`, taken as it comes: nothing of what it holds is known
/// here.
#[verifier::external_type_specification]
#[verifier::external_body]
pub struct ExJsonError(serde_json::Error);

/// The rendering of a `core::str::Utf8Error` by its `Debug` implementation,
/// as `format!` gives it with `{:?}`. Nothing is claimed of the text.
#[verifier::external_body]
fn utf8_error_text(e: &Utf8Error) -> (text: String) {
    format!("{:?}", e)
}

/// The rendering of a `serde_json::Error` by its `Debug` implementation, as
/// `format!` gives it with `{:?}`. Nothing is claimed of the text.
#[verifier::external_body]
fn json_error_text(e: &serde_json::Error) -> (text: String) {
    format!("{:?}", e)
}

/// `label` followed by `detail`.
fn labelled(label: &str, detail: &str) -> (text: String)
    ensures
        text@ == label@ + detail@,
{
    String::from_str(label).concat(detail)
}

impl OsError {
    /// The error for a failure that the platform's driver layer reported:
    /// `detail` is the driver's own rendering of it.
    pub fn from_driver(detail: &str) -> (e: OsError)
        ensures
            e matches OsError::Generic(text) && text@ == "ESP error: "@ + detail@,
    {
        OsError::Generic(labelled("ESP error: ", detail))
    }
}

impl PinError {
    /// The error for a slot table whose lock a panicking holder left poisoned:
    /// `detail` is the rendering of the lock's own error.
    pub fn lock_poisoned(pin: u8, detail: &str) -> (e: PinError)
        ensures
            e matches PinError::Generic { pin: p, error } && p == pin && error@
                == "Pin mutex poisoned: "@ + detail@,
    {
        PinError::Generic { pin, error: labelled("Pin mutex poisoned: ", detail) }
    }

    /// The error for an input whose pull mode the driver would not set:
    /// `detail` is the driver's own rendering of the failure.
    pub fn pull_failed(pin: u8, detail: &str) -> (e: PinError)
        ensures
            e matches PinError::Generic { pin: p, error } && p == pin && error@
                == "Failed to set pin pull mode: "@ + detail@,
    {
        PinError::Generic { pin, error: labelled("Failed to set pin pull mode: ", detail) }
    }

    /// The error for an output whose level the driver would not set:
    /// `detail` is the driver's own rendering of the failure.
    pub fn level_failed(pin: u8, detail: &str) -> (e: PinError)
        ensures
            e matches PinError::Generic { pin: p, error } && p == pin && error@
                == "Failed to set pin level: "@ + detail@,
    {
        PinError::Generic { pin, error: labelled("Failed to set pin level: ", detail) }
    }
}

impl FlashError {
    /// The error for a failure that the platform's driver layer reported:
    /// `detail` is the driver's own rendering of it.
    pub fn from_driver(detail: &str) -> (e: FlashError)
        ensures
            e matches FlashError::Generic(text) && text@ == "ESP error: "@ + detail@,
    {
        FlashError::Generic(labelled("ESP error: ", detail))
    }
}

impl From<Utf8Error> for OsError {
    fn from(e: Utf8Error) -> (r: OsError)
        ensures
            r matches OsError::Parse(text) && "Invalid UTF-8 encoding: "@.is_prefix_of(text@),
    {
        let detail = utf8_error_text(&e);
        OsError::Parse(labelled("Invalid UTF-8 encoding: ", detail.as_str()))
    }
}

impl FromSpecImpl<Utf8Error> for OsError {
    open spec fn obeys_from_spec() -> bool {
        false
    }

    open spec fn from_spec(e: Utf8Error) -> OsError {
        arbitrary()
    }
}

impl From<serde_json::Error> for OsError {
    fn from(e: serde_json::Error) -> (r: OsError)
        ensures
            r matches OsError::Parse(text) && "JSON parse error: "@.is_prefix_of(text@),
    {
        let detail = json_error_text(&e);
        OsError::Parse(labelled("JSON parse error: ", detail.as_str()))
    }
}

impl FromSpecImpl<serde_json::Error> for OsError {
    open spec fn obeys_from_spec() -> bool {
        false
    }

    open spec fn from_spec(e: serde_json::Error) -> OsError {
        arbitrary()
    }
}

impl From<FlashError> for OsError {
    fn from(e: FlashError) -> (r: OsError) {
        OsError::FlashStorage(e)
    }
}

impl FromSpecImpl<FlashError> for OsError {
    open spec fn obeys_from_spec() -> bool {
        true
    }

    open spec fn from_spec(e: FlashError) -> OsError {
        OsError::FlashStorage(e)
    }
}

impl From<PinError> for OsError {
    fn from(e: PinError) -> (r: OsError) {
        OsError::Pin(e)
    }
}

impl FromSpecImpl<PinError> for OsError {
    open spec fn obeys_from_spec() -> bool {
        true
    }

    open spec fn from_spec(e: PinError) -> OsError {
        OsError::Pin(e)
    }
}

impl From<WifiError> for OsError {
    fn from(e: WifiError) -> (r: OsError) {
        OsError::Wifi(e)
    }
}

impl FromSpecImpl<WifiError> for OsError {
    open spec fn obeys_from_spec() -> bool {
        true
    }

    open spec fn from_spec(e: WifiError) -> OsError {
        OsError::Wifi(e)
    }
}

} // verus!
