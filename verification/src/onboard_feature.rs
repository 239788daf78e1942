//! The `OnboardProfiles` feature (ID `0x8100`) as a device speaks it, and the
//! read of its state.
//!
//! A call is a function index and three parameter bytes; the answer is a
//! payload. The transport that carries the call stays outside this module:
//! here are the requests the feature sends and what it makes of the answers,
//! so both are checked without a device.
//!
//! The read is deliberately read-only. Onboard memory holds the configuration
//! the user saved on the device itself, and a wrong write leaves it in a state
//! only the vendor's own software can repair.

use vstd::prelude::*;
use vstd::string::StringExecFns;

use crate::onboard_profiles::{
    mode_of_wire, mode_wire, parse_info, parse_info_spec, DeviceMode, OnboardProfilesInfo,
};

verus! {

/// The HID++ feature id of `OnboardProfiles`.
pub const ONBOARD_PROFILES_ID: u16 = 0x8100;

/// Function 0, `getOnboardProfilesInfo`.
pub const GET_INFO: u8 = 0;

/// Function 1, `setOnboardMode`.
pub const SET_DEVICE_MODE: u8 = 1;

/// Function 2, `getOnboardMode`.
pub const GET_DEVICE_MODE: u8 = 2;

/// Function 3, `setCurrentProfile`.
pub const SET_CURRENT_PROFILE: u8 = 3;

/// Function 4, `getCurrentProfile`.
pub const GET_CURRENT_PROFILE: u8 = 4;

/// The error code a HID++ 2.0 feature answers a rejected call with.
#[derive(Clone, Copy, Debug, PartialEq, Eq, Structural)]
pub enum ErrorType {
    /// Code 0.
    NoError,
    /// Code 1.
    Unknown,
    /// Code 2.
    InvalidArgument,
    /// Code 3.
    OutOfRange,
    /// Code 4.
    HardwareError,
    /// Code 5.
    LogitechInternal,
    /// Code 6.
    InvalidFeatureIndex,
    /// Code 7.
    InvalidFunctionId,
    /// Code 8.
    Busy,
    /// Code 9.
    Unsupported,
}

/// A failed HID++ 2.0 call.
#[derive(Clone, Copy, Debug, PartialEq, Eq, Structural)]
pub enum Hidpp20Error {
    /// The feature answered with an error code.
    Feature(ErrorType),
    /// The answer arrived but could not be decoded.
    UnsupportedResponse,
    /// The transport failed before an answer arrived.
    Channel,
}

/// Why a read or write against a device failed.
#[derive(Clone, Debug, PartialEq, Eq)]
pub enum WriteError {
    /// The device does not offer the feature, or rejects it for good.
    FeatureUnsupported {
        /// The feature, by its HID++ id.
        feature_hex: u16,
    },
    /// No device answered at the index.
    DeviceUnreachable {
        /// The device index on its channel.
        index: u8,
    },
    /// Any other protocol failure, as text.
    Hidpp(String),
}

/// The debug text of an error code.
pub open spec fn error_type_text(kind: ErrorType) -> Seq<char> {
    match kind {
        ErrorType::NoError => "NoError"@,
        ErrorType::Unknown => "Unknown"@,
        ErrorType::InvalidArgument => "InvalidArgument"@,
        ErrorType::OutOfRange => "OutOfRange"@,
        ErrorType::HardwareError => "HardwareError"@,
        ErrorType::LogitechInternal => "LogitechInternal"@,
        ErrorType::InvalidFeatureIndex => "InvalidFeatureIndex"@,
        ErrorType::InvalidFunctionId => "InvalidFunctionId"@,
        ErrorType::Busy => "Busy"@,
        ErrorType::Unsupported => "Unsupported"@,
    }
}

/// The debug text of an error: the variant, and for a feature error its code
/// in brackets.
pub open spec fn error_text(error: Hidpp20Error) -> Seq<char> {
    match error {
        Hidpp20Error::Feature(kind) => "Feature("@ + error_type_text(kind) + ")"@,
        Hidpp20Error::UnsupportedResponse => "UnsupportedResponse"@,
        Hidpp20Error::Channel => "Channel"@,
    }
}

impl ErrorType {
    /// The variant's name.
    pub fn text(self) -> (text: &'static str)
        ensures
            text@ == error_type_text(self),
    {
        match self {
            ErrorType::NoError => "NoError",
            ErrorType::Unknown => "Unknown",
            ErrorType::InvalidArgument => "InvalidArgument",
            ErrorType::OutOfRange => "OutOfRange",
            ErrorType::HardwareError => "HardwareError",
            ErrorType::LogitechInternal => "LogitechInternal",
            ErrorType::InvalidFeatureIndex => "InvalidFeatureIndex",
            ErrorType::InvalidFunctionId => "InvalidFunctionId",
            ErrorType::Busy => "Busy",
            ErrorType::Unsupported => "Unsupported",
        }
    }
}

impl Hidpp20Error {
    /// The error as debug text, such as `Feature(Busy)`.
    pub fn text(&self) -> (text: String)
        ensures
            text@ == error_text(*self),
    {
        match self {
            Hidpp20Error::Feature(kind) => {
                "Feature(".to_owned().concat(kind.text()).concat(")")
            },
            Hidpp20Error::UnsupportedResponse => "UnsupportedResponse".to_owned(),
            Hidpp20Error::Channel => "Channel".to_owned(),
        }
    }
}

/// Whether a `0x8100` read failure means the device has no onboard profiles:
/// the feature rejected the function, or the answer did not decode.
pub open spec fn means_unsupported(error: Hidpp20Error) -> bool {
    match error {
        Hidpp20Error::Feature(ErrorType::Unsupported) => true,
        Hidpp20Error::Feature(ErrorType::InvalidFunctionId) => true,
        Hidpp20Error::UnsupportedResponse => true,
        _ => false,
    }
}

/// Whether `classified` is what a `0x8100` read failing with `error`
/// reports: `FeatureUnsupported` for this feature when the failure means the
/// device has no onboard profiles, and otherwise the error's debug text.
pub open spec fn classifies(error: Hidpp20Error, classified: WriteError) -> bool {
    if means_unsupported(error) {
        classified == (WriteError::FeatureUnsupported { feature_hex: ONBOARD_PROFILES_ID })
    } else {
        match classified {
            WriteError::Hidpp(text) => text@ == error_text(error),
            _ => false,
        }
    }
}

/// Classifies a HID++ error from a `0x8100` read.
///
/// A device that announces the feature but rejects one of its read functions
/// will keep rejecting it, so that maps to the permanent `FeatureUnsupported`
/// — the same shape a device without the feature at all produces. Everything
/// else is forwarded as text.
pub fn classify_onboard_error(error: &Hidpp20Error) -> (classified: WriteError)
    ensures
        classifies(*error, classified),
{
    match error {
        Hidpp20Error::Feature(ErrorType::Unsupported)
        | Hidpp20Error::Feature(ErrorType::InvalidFunctionId)
        | Hidpp20Error::UnsupportedResponse => WriteError::FeatureUnsupported {
            feature_hex: ONBOARD_PROFILES_ID,
        },
        other => WriteError::Hidpp(other.text()),
    }
}

/// A read's result with its error classified.
pub fn classify_read<T>(result: Result<T, Hidpp20Error>) -> (classified: Result<T, WriteError>)
    ensures
        result matches Ok(v) ==> classified == Ok::<T, WriteError>(v),
        result matches Err(e) ==> (classified matches Err(w) && classifies(e, w)),
{
    match result {
        Ok(v) => Ok(v),
        Err(e) => Err(classify_onboard_error(&e)),
    }
}

/// One call to the feature: the function and its three parameter bytes.
#[derive(Clone, Copy, Debug)]
pub struct FeatureCall {
    /// The function index.
    pub function: u8,
    /// The parameter bytes.
    pub params: [u8; 3],
}

/// The `OnboardProfiles` feature: what it sends and what it makes of the
/// answers.
#[derive(Clone, Copy, Debug, PartialEq, Eq, Structural)]
pub struct OnboardProfilesFeature {
    /// The feature's index in the device's feature table.
    pub index: u8,
}

/// The call that reads nothing but a function's answer.
pub open spec fn plain_call(function: u8) -> FeatureCall {
    FeatureCall { function, params: [0u8, 0u8, 0u8] }
}

impl OnboardProfilesFeature {
    /// The feature reached through `index`.
    pub fn new(index: u8) -> (feature: OnboardProfilesFeature)
        ensures
            feature.index == index,
    {
        OnboardProfilesFeature { index }
    }

    /// The feature's HID++ id.
    pub fn id() -> (id: u16)
        ensures
            id == ONBOARD_PROFILES_ID,
    {
        ONBOARD_PROFILES_ID
    }

    /// The call that reads the onboard memory layout.
    pub fn get_info_call(&self) -> (call: FeatureCall)
        ensures
            call == plain_call(GET_INFO),
    {
        FeatureCall { function: GET_INFO, params: [0, 0, 0] }
    }

    /// The memory layout an answer to `get_info_call` describes, or
    /// `UnsupportedResponse` when the payload is too short to decode.
    pub fn get_info(&self, payload: &[u8]) -> (info: Result<OnboardProfilesInfo, Hidpp20Error>)
        ensures
            parse_info_spec(payload@) matches Ok(i) ==> info == Ok::<
                OnboardProfilesInfo,
                Hidpp20Error,
            >(i),
            parse_info_spec(payload@) is Err ==> info == Err::<
                OnboardProfilesInfo,
                Hidpp20Error,
            >(Hidpp20Error::UnsupportedResponse),
    {
        match parse_info(payload) {
            Ok(info) => Ok(info),
            Err(_) => Err(Hidpp20Error::UnsupportedResponse),
        }
    }

    /// The call that reads whether the device drives itself.
    pub fn get_device_mode_call(&self) -> (call: FeatureCall)
        ensures
            call == plain_call(GET_DEVICE_MODE),
    {
        FeatureCall { function: GET_DEVICE_MODE, params: [0, 0, 0] }
    }

    /// The mode an answer to `get_device_mode_call` reports: its first byte,
    /// or `None` for a mode value this code does not know, which is worth
    /// surfacing rather than guessing at.
    pub fn get_device_mode(&self, payload: &[u8]) -> (mode: Option<DeviceMode>)
        requires
            payload@.len() >= 1,
        ensures
            mode == mode_of_wire(payload@[0]),
    {
        DeviceMode::from_wire(payload[0])
    }

    /// The call that switches the device between running its own profile
    /// and letting the host drive it.
    pub fn set_device_mode_call(&self, mode: DeviceMode) -> (call: FeatureCall)
        ensures
            call == (FeatureCall { function: SET_DEVICE_MODE, params: [mode_wire(mode), 0u8, 0u8] }),
    {
        FeatureCall { function: SET_DEVICE_MODE, params: [mode.to_wire(), 0, 0] }
    }

    /// The call that reads which onboard profile is active.
    pub fn get_current_profile_call(&self) -> (call: FeatureCall)
        ensures
            call == plain_call(GET_CURRENT_PROFILE),
    {
        FeatureCall { function: GET_CURRENT_PROFILE, params: [0, 0, 0] }
    }

    /// The active profile an answer to `get_current_profile_call` reports: its
    /// second byte.
    pub fn get_current_profile(&self, payload: &[u8]) -> (profile: u8)
        requires
            payload@.len() >= 2,
        ensures
            profile == payload@[1],
    {
        payload[1]
    }

    /// The call that activates an onboard profile. Profile ids are one-based
    /// on the wire; devices reject an out-of-range id.
    pub fn set_current_profile_call(&self, profile: u8) -> (call: FeatureCall)
        ensures
            call == (FeatureCall { function: SET_CURRENT_PROFILE, params: [0u8, profile, 0u8] }),
    {
        FeatureCall { function: SET_CURRENT_PROFILE, params: [0, profile, 0] }
    }
}

/// Everything `0x8100` will say about a device without being written to.
#[derive(Clone, Copy, Debug, PartialEq, Eq, Structural)]
pub struct OnboardState {
    /// The device's onboard memory layout.
    pub info: OnboardProfilesInfo,
    /// Whether the device runs its own profile or defers to the host; `None`
    /// for a mode value this build does not know.
    pub mode: Option<DeviceMode>,
    /// The onboard profile currently active. One-based on the wire.
    pub current_profile: u8,
}

/// The state three answers describe, read in order: the layout, the mode,
/// the active profile. The first failed read decides the error; a later
/// answer is never consulted once an earlier one failed.
pub open spec fn onboard_state_of(
    info: Result<OnboardProfilesInfo, Hidpp20Error>,
    mode: Result<Option<DeviceMode>, Hidpp20Error>,
    current: Result<u8, Hidpp20Error>,
) -> Result<OnboardState, Hidpp20Error> {
    match info {
        Err(e) => Err(e),
        Ok(i) => match mode {
            Err(e) => Err(e),
            Ok(m) => match current {
                Err(e) => Err(e),
                Ok(c) => Ok(OnboardState { info: i, mode: m, current_profile: c }),
            },
        },
    }
}

/// Combines the three reads of `get_onboard_state`, classifying the first
/// failure.
pub fn onboard_state(
    info: Result<OnboardProfilesInfo, Hidpp20Error>,
    mode: Result<Option<DeviceMode>, Hidpp20Error>,
    current: Result<u8, Hidpp20Error>,
) -> (state: Result<OnboardState, WriteError>)
    ensures
        onboard_state_of(info, mode, current) matches Ok(s) ==> state == Ok::<
            OnboardState,
            WriteError,
        >(s),
        onboard_state_of(info, mode, current) matches Err(e) ==> (state matches Err(w)
            && classifies(e, w)),
{
    let info = match classify_read(info) {
        Ok(i) => i,
        Err(w) => return Err(w),
    };
    let mode = match classify_read(mode) {
        Ok(m) => m,
        Err(w) => return Err(w),
    };
    let current_profile = match classify_read(current) {
        Ok(c) => c,
        Err(w) => return Err(w),
    };
    Ok(OnboardState { info, mode, current_profile })
}

} // verus!
