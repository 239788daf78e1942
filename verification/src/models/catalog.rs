//! The device model table.
//!
//! Supporting another gaming mouse is adding an entry here — not writing code.
//! Every entry must be verifiable: the evdev codes come from pressing the
//! physical buttons and reading the event node. Only the G703 is present,
//! because it is the only device this project has verified against hardware.

use vstd::prelude::*;

use crate::models::codes::{BTN_EXTRA, BTN_LEFT, BTN_MIDDLE, BTN_RIGHT, BTN_SIDE, BTN_TASK};
use crate::models::slot::{ButtonSlot, SlotId};

verus! {

/// A gaming device this build knows how to drive.
#[derive(Debug, PartialEq, Eq)]
pub struct DeviceModel {
    /// Stable identifier, also the directory name under `design/devices/`.
    pub id: &'static str,
    /// The name to show a user.
    pub display_name: &'static str,
    /// The HID++ model id, which is the WPID the receiver reports.
    pub hidpp_model_id: u16,
    /// The USB product id the device enumerates as over the cable.
    pub usb_product_id: u16,
    /// Every physical button, in slot order.
    pub slots: Vec<ButtonSlot>,
    /// Minimum and maximum sensor DPI, inclusive.
    pub dpi_range: (u32, u32),
    /// How many profiles the device's onboard memory holds.
    pub onboard_profile_count: u8,
}

/// Whether `s` is the slot `id`, emitting `code`, described by `label`.
pub open spec fn is_slot(s: ButtonSlot, id: SlotId, code: u16, label: &str) -> bool {
    s.id == id && s.evdev_code == code && s.label@ == label@
}

/// The Logitech G703 LIGHTSPEED HERO, as verified against the physical
/// device: six buttons, a DPI range of 100–25600, five onboard profiles.
pub open spec fn is_g703_hero(m: DeviceModel) -> bool {
    &&& m.id@ == "g703_hero"@
    &&& m.display_name@ == "G703 LIGHTSPEED HERO"@
    &&& m.hidpp_model_id == 0x4086
    &&& m.usb_product_id == 0xc090
    &&& m.slots@.len() == 6
    &&& is_slot(m.slots@[0], SlotId::G1, BTN_LEFT, "Left click")
    &&& is_slot(m.slots@[1], SlotId::G2, BTN_RIGHT, "Right click")
    &&& is_slot(m.slots@[2], SlotId::G3, BTN_MIDDLE, "Wheel click")
    &&& is_slot(m.slots@[3], SlotId::G4, BTN_SIDE, "Rear side button")
    &&& is_slot(m.slots@[4], SlotId::G5, BTN_EXTRA, "Front side button")
    &&& is_slot(m.slots@[5], SlotId::G6, BTN_TASK, "Behind the wheel")
    &&& m.dpi_range == (100u32, 25600u32)
    &&& m.onboard_profile_count == 5
}

/// How many models this build carries.
pub open spec fn catalog_len() -> nat {
    1
}

/// Whether `m` is entry `i` of the table.
pub open spec fn is_catalog_entry(m: DeviceModel, i: int) -> bool {
    i == 0 && is_g703_hero(m)
}

/// The HID++ model id of entry `i`.
pub open spec fn catalog_hidpp_id(i: int) -> u16 {
    0x4086
}

/// The USB product id of entry `i`.
pub open spec fn catalog_usb_id(i: int) -> u16 {
    0xc090
}

/// The first entry whose HID++ model id is `id`.
pub open spec fn first_hidpp_match(id: u16) -> Option<int> {
    if exists|i: int| 0 <= i < catalog_len() && catalog_hidpp_id(i) == id {
        Some(
            choose|i: int|
                0 <= i < catalog_len() && catalog_hidpp_id(i) == id && forall|j: int|
                    0 <= j < i ==> catalog_hidpp_id(j) != id,
        )
    } else {
        None
    }
}

/// The first entry whose USB product id is `id`.
pub open spec fn first_usb_match(id: u16) -> Option<int> {
    if exists|i: int| 0 <= i < catalog_len() && catalog_usb_id(i) == id {
        Some(
            choose|i: int|
                0 <= i < catalog_len() && catalog_usb_id(i) == id && forall|j: int|
                    0 <= j < i ==> catalog_usb_id(j) != id,
        )
    } else {
        None
    }
}

/// Logitech G703 LIGHTSPEED HERO.
///
/// Verified against the physical device: six buttons, whose evdev codes were
/// captured by pressing each one and reading `/dev/input/event*`; a DPI range
/// of 100–25600 reported over HID++ `0x2201`; and five onboard profile slots.
pub fn g703_hero() -> (m: DeviceModel)
    ensures
        is_g703_hero(m),
{
    let mut slots: Vec<ButtonSlot> = Vec::new();
    slots.push(ButtonSlot { id: SlotId::G1, evdev_code: BTN_LEFT, label: "Left click" });
    slots.push(ButtonSlot { id: SlotId::G2, evdev_code: BTN_RIGHT, label: "Right click" });
    slots.push(ButtonSlot { id: SlotId::G3, evdev_code: BTN_MIDDLE, label: "Wheel click" });
    slots.push(ButtonSlot { id: SlotId::G4, evdev_code: BTN_SIDE, label: "Rear side button" });
    slots.push(ButtonSlot { id: SlotId::G5, evdev_code: BTN_EXTRA, label: "Front side button" });
    slots.push(ButtonSlot { id: SlotId::G6, evdev_code: BTN_TASK, label: "Behind the wheel" });
    DeviceModel {
        id: "g703_hero",
        display_name: "G703 LIGHTSPEED HERO",
        hidpp_model_id: 0x4086,
        usb_product_id: 0xc090,
        slots,
        dpi_range: (100, 25600),
        onboard_profile_count: 5,
    }
}

/// Every model in this build, in table order.
pub fn models() -> (table: Vec<DeviceModel>)
    ensures
        table@.len() == catalog_len(),
        forall|i: int| 0 <= i < table@.len() ==> is_catalog_entry(#[trigger] table@[i], i),
        forall|i: int|
            0 <= i < table@.len() ==> (#[trigger] table@[i]).hidpp_model_id == catalog_hidpp_id(i)
                && table@[i].usb_product_id == catalog_usb_id(i),
{
    let mut table: Vec<DeviceModel> = Vec::new();
    table.push(g703_hero());
    table
}

/// Finds the model matching a HID++ model id (the receiver's WPID).
pub fn model_for_hidpp_id(model_id: u16) -> (found: Option<DeviceModel>)
    ensures
        found is Some <==> first_hidpp_match(model_id) is Some,
        found matches Some(m) ==> is_catalog_entry(m, first_hidpp_match(model_id).unwrap()),
{
    let mut table = models();
    let mut i: usize = 0;
    while i < table.len()
        invariant
            table@.len() == catalog_len(),
            forall|k: int| 0 <= k < table@.len() ==> is_catalog_entry(#[trigger] table@[k], k),
            forall|k: int|
                0 <= k < table@.len() ==> (#[trigger] table@[k]).hidpp_model_id
                    == catalog_hidpp_id(k),
            0 <= i <= table@.len(),
            forall|k: int| 0 <= k < i ==> catalog_hidpp_id(k) != model_id,
        decreases table@.len() - i,
    {
        if table[i].hidpp_model_id == model_id {
            assert(first_hidpp_match(model_id) == Some(i as int));
            return Some(table.remove(i));
        }
        i = i + 1;
    }
    None
}

/// Finds the model matching a USB product id (the wired enumeration).
pub fn model_for_usb_id(product_id: u16) -> (found: Option<DeviceModel>)
    ensures
        found is Some <==> first_usb_match(product_id) is Some,
        found matches Some(m) ==> is_catalog_entry(m, first_usb_match(product_id).unwrap()),
{
    let mut table = models();
    let mut i: usize = 0;
    while i < table.len()
        invariant
            table@.len() == catalog_len(),
            forall|k: int| 0 <= k < table@.len() ==> is_catalog_entry(#[trigger] table@[k], k),
            forall|k: int|
                0 <= k < table@.len() ==> (#[trigger] table@[k]).usb_product_id == catalog_usb_id(
                    k,
                ),
            0 <= i <= table@.len(),
            forall|k: int| 0 <= k < i ==> catalog_usb_id(k) != product_id,
        decreases table@.len() - i,
    {
        if table[i].usb_product_id == product_id {
            assert(first_usb_match(product_id) == Some(i as int));
            return Some(table.remove(i));
        }
        i = i + 1;
    }
    None
}

} // verus!
