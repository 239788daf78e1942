//! The `BTN_*` codes from `linux/input-event-codes.h` that mice emit.
//!
//! Spelled out here rather than pulled from a crate: the table is short, it
//! never changes, and the model catalog reads better naming them than writing
//! bare integers.

use vstd::prelude::*;

verus! {

/// `BTN_LEFT`.
pub const BTN_LEFT: u16 = 272;

/// `BTN_RIGHT`.
pub const BTN_RIGHT: u16 = 273;

/// `BTN_MIDDLE`.
pub const BTN_MIDDLE: u16 = 274;

/// `BTN_SIDE`. The system reads this as "back", so pressing it navigates
/// backwards in most applications.
pub const BTN_SIDE: u16 = 275;

/// `BTN_EXTRA`.
pub const BTN_EXTRA: u16 = 276;

/// `BTN_FORWARD`.
pub const BTN_FORWARD: u16 = 277;

/// `BTN_BACK`.
pub const BTN_BACK: u16 = 278;

/// `BTN_TASK`.
pub const BTN_TASK: u16 = 279;

} // verus!
