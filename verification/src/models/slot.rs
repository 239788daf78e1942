//! Button slots: the identity of a physical button on a device model.
//!
//! A slot is named the way Logitech's own software names it — `G1`, `G2`, and
//! so on. What the slot *is* on a given model, and what evdev code it emits,
//! comes from the model table; nothing here is device-specific.

use vstd::prelude::*;

verus! {

/// A button position on a gaming device, in Logitech's `G`-numbered naming.
///
/// The numbering is per model: `G4` is the rear side button on a G703 and
/// something else entirely on a G502.
#[derive(Clone, Copy, Debug, PartialEq, Eq, Structural, PartialOrd, Ord, Hash)]
pub enum SlotId {
    /// Slot 1 — the primary button on every model seen so far.
    G1,
    /// Slot 2 — the secondary button on every model seen so far.
    G2,
    /// Slot 3.
    G3,
    /// Slot 4.
    G4,
    /// Slot 5.
    G5,
    /// Slot 6.
    G6,
    /// Slot 7.
    G7,
    /// Slot 8.
    G8,
    /// Slot 9.
    G9,
    /// Slot 10.
    G10,
    /// Slot 11.
    G11,
}

/// One physical button of a device model.
#[derive(Clone, Copy, Debug, PartialEq, Eq)]
pub struct ButtonSlot {
    /// Which slot this is, in the device's own numbering.
    pub id: SlotId,
    /// The Linux input event code the button emits.
    pub evdev_code: u16,
    /// Where the button physically is, in words, for the UI.
    pub label: &'static str,
}

} // verus!
