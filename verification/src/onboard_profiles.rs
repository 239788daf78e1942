//! Decoding for HID++ feature `0x8100`, Onboard Profiles.
//!
//! A gaming mouse keeps its button map, DPI presets, report rate and lighting
//! in a bank of profiles in its own memory. Only the decoding lives here, as
//! functions over byte slices, so it is independent of any transport.

use vstd::prelude::*;

verus! {

/// What a device reports about its onboard memory layout.
///
/// Returned by function 0, `getOnboardProfilesInfo`.
#[derive(Clone, Copy, Debug, PartialEq, Eq, Structural)]
pub struct OnboardProfilesInfo {
    /// Which memory model the device uses. `0x01` is the only one seen.
    pub memory_model_id: u8,
    /// Version of the profile record layout.
    pub profile_format_id: u8,
    /// Version of the macro record layout.
    pub macro_format_id: u8,
    /// How many profiles the device holds.
    pub profile_count: u8,
    /// How many profiles ship configured out of the box.
    pub profile_count_oob: u8,
    /// How many physical buttons the device reports.
    pub button_count: u8,
    /// How many memory sectors exist.
    pub sector_count: u8,
    /// Size of one sector in bytes.
    pub sector_size: u16,
    /// Mechanical layout flags, meaningful for keyboards.
    pub mechanical_layout: u8,
    /// Device-kind flags.
    pub various_info: u8,
}

/// Whether the device drives itself or lets the host drive it.
#[derive(Clone, Copy, Debug, PartialEq, Eq, Structural)]
pub enum DeviceMode {
    /// The device applies its own stored profile.
    Onboard,
    /// The host drives the device.
    Host,
}

/// The wire value of a mode.
pub open spec fn mode_wire(mode: DeviceMode) -> u8 {
    match mode {
        DeviceMode::Onboard => 0x01,
        DeviceMode::Host => 0x02,
    }
}

/// The mode a wire value names, if any.
pub open spec fn mode_of_wire(value: u8) -> Option<DeviceMode> {
    if value == 0x01 {
        Some(DeviceMode::Onboard)
    } else if value == 0x02 {
        Some(DeviceMode::Host)
    } else {
        None
    }
}

impl DeviceMode {
    /// Decodes the wire value, or `None` if the device reported something this
    /// code does not know.
    pub fn from_wire(value: u8) -> (mode: Option<DeviceMode>)
        ensures
            mode == mode_of_wire(value),
    {
        match value {
            0x01 => Some(DeviceMode::Onboard),
            0x02 => Some(DeviceMode::Host),
            _ => None,
        }
    }

    /// The wire value for this mode.
    pub fn to_wire(self) -> (value: u8)
        ensures
            value == mode_wire(self),
    {
        match self {
            DeviceMode::Onboard => 0x01,
            DeviceMode::Host => 0x02,
        }
    }
}

/// Encoding a mode and decoding the result gives the mode back, and a value
/// that decodes to a mode is exactly that mode's encoding.
pub proof fn lemma_device_mode_round_trip(mode: DeviceMode, value: u8)
    ensures
        mode_of_wire(mode_wire(mode)) == Some(mode),
        mode_of_wire(value) == Some(mode) ==> mode_wire(mode) == value,
{
}

/// A response that could not be decoded.
#[derive(Clone, Copy, Debug, PartialEq, Eq, Structural)]
pub enum ParseError {
    /// The response was shorter than the field it had to contain.
    ShortPayload {
        /// Bytes the layout requires.
        expected: usize,
        /// Bytes that arrived.
        got: usize,
    },
}

/// Bytes `getOnboardProfilesInfo` must return: ten fields in eleven bytes,
/// `sector_size` being the one that takes two.
pub const INFO_LEN: usize = 11;

/// The record the first eleven bytes of `payload` describe. HID++ is big
/// endian, so `sector_size` is byte 7 followed by byte 8.
pub open spec fn info_of(payload: Seq<u8>) -> OnboardProfilesInfo
    recommends
        payload.len() >= 11,
{
    OnboardProfilesInfo {
        memory_model_id: payload[0],
        profile_format_id: payload[1],
        macro_format_id: payload[2],
        profile_count: payload[3],
        profile_count_oob: payload[4],
        button_count: payload[5],
        sector_count: payload[6],
        sector_size: (payload[7] as int * 256 + payload[8] as int) as u16,
        mechanical_layout: payload[9],
        various_info: payload[10],
    }
}

/// What decoding `payload` yields: the record when at least eleven bytes
/// arrived, whatever follows them, and otherwise the short-payload error.
pub open spec fn parse_info_spec(payload: Seq<u8>) -> Result<OnboardProfilesInfo, ParseError> {
    if payload.len() < 11 {
        Err(ParseError::ShortPayload { expected: 11, got: payload.len() as usize })
    } else {
        Ok(info_of(payload))
    }
}

/// Decodes a `getOnboardProfilesInfo` response.
///
/// Trailing bytes are ignored: responses arrive in a fixed-size report, so
/// padding after the last field is normal.
pub fn parse_info(payload: &[u8]) -> (res: Result<OnboardProfilesInfo, ParseError>)
    ensures
        res == parse_info_spec(payload@),
{
    if payload.len() < INFO_LEN {
        return Err(ParseError::ShortPayload { expected: INFO_LEN, got: payload.len() });
    }
    let high = payload[7] as u16;
    let low = payload[8] as u16;
    Ok(OnboardProfilesInfo {
        memory_model_id: payload[0],
        profile_format_id: payload[1],
        macro_format_id: payload[2],
        profile_count: payload[3],
        profile_count_oob: payload[4],
        button_count: payload[5],
        sector_count: payload[6],
        sector_size: high * 256 + low,
        mechanical_layout: payload[9],
        various_info: payload[10],
    })
}

/// Padding after the eleventh byte never changes what a response decodes to.
pub proof fn lemma_parse_info_ignores_trailing_bytes(payload: Seq<u8>, padding: Seq<u8>)
    requires
        payload.len() >= 11,
    ensures
        parse_info_spec(payload + padding) == parse_info_spec(payload),
{
    let whole = payload + padding;
    assert(forall|i: int| 0 <= i < 11 ==> whole[i] == payload[i]);
}

/// The sector size is the one multi-byte field and is big endian: byte 7 is
/// the high byte.
pub proof fn lemma_sector_size_is_big_endian(payload: Seq<u8>)
    requires
        payload.len() >= 11,
    ensures
        parse_info_spec(payload) matches Ok(info) && info.sector_size == payload[7] * 256
            + payload[8],
{
}

} // verus!
