//! The OpenHub hardware model table.
//!
//! OpenLogi discovers a mouse's remappable buttons over HID++ feature
//! `0x1b04`. Gaming mice do not implement that feature — their buttons live
//! behind `0x8100` onboard profiles — so this static table says what buttons a
//! model has and what each one emits. It is pure data.

pub mod catalog;
pub mod codes;
pub mod slot;
