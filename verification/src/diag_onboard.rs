//! The decisions behind `openlogi diag onboard`, which reads HID++ `0x8100`
//! onboard-profile state and holds it against the model table.
//!
//! A disagreement between device and table means the table is wrong — the
//! device is the authority — and finding that here is much cheaper than
//! finding it in the GUI.

use vstd::prelude::*;

use crate::models::catalog::{
    first_hidpp_match, first_usb_match, is_catalog_entry, model_for_hidpp_id, model_for_usb_id,
    DeviceModel,
};
use crate::onboard_feature::{WriteError, ONBOARD_PROFILES_ID};
use crate::onboard_profiles::DeviceMode;

verus! {

/// The arguments of `diag onboard`.
#[derive(Clone, Debug, PartialEq, Eq)]
pub struct OnboardArgs {
    /// Run against the device whose name contains this string
    /// (case-insensitive) instead of auto-selecting. Useful when several
    /// devices are paired.
    pub device: Option<String>,
}

/// The text for a mode, by mode.
pub open spec fn mode_text(mode: Option<DeviceMode>) -> Seq<char> {
    match mode {
        Some(DeviceMode::Onboard) => "Onboard (the device runs its own stored profile)"@,
        Some(DeviceMode::Host) => "Host (software drives the device)"@,
        None => "unknown — the device reported a mode value this build does not know"@,
    }
}

/// Spells out a device mode for a human, including the case where the device
/// answered with a value this build does not know.
pub fn describe_mode(mode: Option<DeviceMode>) -> (text: &'static str)
    ensures
        text@ == mode_text(mode),
{
    match mode {
        Some(DeviceMode::Onboard) => "Onboard (the device runs its own stored profile)",
        Some(DeviceMode::Host) => "Host (software drives the device)",
        None => "unknown — the device reported a mode value this build does not know",
    }
}

/// The table entry a product id selects: by HID++ model id first, then by
/// USB product id.
pub open spec fn entry_for_id(id: u16) -> Option<int> {
    match first_hidpp_match(id) {
        Some(i) => Some(i),
        None => first_usb_match(id),
    }
}

/// Whether `i` is the first of `ids` that the table knows.
pub open spec fn first_known_id(ids: Seq<u16>, i: int) -> bool {
    &&& 0 <= i < ids.len()
    &&& entry_for_id(ids[i]) is Some
    &&& forall|j: int| 0 <= j < i ==> entry_for_id(#[trigger] ids[j]) is None
}

/// The model one product id selects.
fn model_for_id(id: u16) -> (found: Option<DeviceModel>)
    ensures
        found is Some <==> entry_for_id(id) is Some,
        found matches Some(m) ==> is_catalog_entry(m, entry_for_id(id).unwrap()),
{
    match model_for_hidpp_id(id) {
        Some(m) => Some(m),
        None => model_for_usb_id(id),
    }
}

/// Finds the first of `product_ids` the model table recognises.
///
/// A device reports several: its wireless WPID through the receiver and the
/// per-transport PIDs. Either kind may be the one the table was written
/// against, so both lookups are tried for each.
pub fn resolve_model(product_ids: &[u16]) -> (found: Option<DeviceModel>)
    ensures
        found is None <==> forall|j: int|
            0 <= j < product_ids@.len() ==> entry_for_id(#[trigger] product_ids@[j]) is None,
        found matches Some(m) ==> exists|i: int|
            first_known_id(product_ids@, i) && is_catalog_entry(
                m,
                entry_for_id(product_ids@[i]).unwrap(),
            ),
{
    let mut i: usize = 0;
    while i < product_ids.len()
        invariant
            0 <= i <= product_ids@.len(),
            forall|j: int| 0 <= j < i ==> entry_for_id(#[trigger] product_ids@[j]) is None,
        decreases product_ids@.len() - i,
    {
        if let Some(m) = model_for_id(product_ids[i]) {
            assert(first_known_id(product_ids@, i as int));
            return Some(m);
        }
        i = i + 1;
    }
    None
}

/// Whether a failed read is the ordinary answer of a device without onboard
/// profiles — every non-gaming Logitech device — rather than a failure.
pub fn is_expected_absence(error: &WriteError) -> (absent: bool)
    ensures
        absent <==> *error == (WriteError::FeatureUnsupported { feature_hex: ONBOARD_PROFILES_ID }),
{
    match error {
        WriteError::FeatureUnsupported { feature_hex } => *feature_hex == ONBOARD_PROFILES_ID,
        _ => false,
    }
}

/// Whether a reported button count is really a failed read: a short response
/// arrives zero-padded, so a wrong feature or function index reads as a
/// mouse with no buttons, which no physical device is.
pub fn is_failed_read(button_count: u8) -> (failed: bool)
    ensures
        failed <==> button_count == 0,
{
    button_count == 0
}

/// How what a device said compares with what the model table claims.
#[derive(Clone, Copy, Debug, PartialEq, Eq, Structural)]
pub struct CrossCheck {
    /// Buttons the table lists.
    pub table_buttons: usize,
    /// Whether the device reports as many buttons.
    pub buttons_match: bool,
    /// Onboard profiles the table lists.
    pub table_profiles: u8,
    /// Whether the device reports as many profiles.
    pub profiles_match: bool,
}

/// Compares a device's button and profile counts with its table entry.
pub fn cross_check(model: &DeviceModel, button_count: u8, profile_count: u8) -> (check: CrossCheck)
    ensures
        check.table_buttons == model.slots@.len(),
        check.buttons_match <==> button_count as int == model.slots@.len(),
        check.table_profiles == model.onboard_profile_count,
        check.profiles_match <==> profile_count == model.onboard_profile_count,
{
    let table_buttons = model.slots.len();
    CrossCheck {
        table_buttons,
        buttons_match: button_count as usize == table_buttons,
        table_profiles: model.onboard_profile_count,
        profiles_match: profile_count == model.onboard_profile_count,
    }
}

} // verus!
