//! The identity of one accepted press.
//!
//! The button runtime hands out a token for every press it accepts; whatever
//! a press owns — a held chord, a macro run — is keyed by that token, and the
//! press's terminal event is the one place all of it is released.

use vstd::prelude::*;

use crate::button::ButtonId;
use crate::maps::MapKey;

verus! {

/// The physical control a press came from.
#[derive(Clone, Copy, Debug, PartialEq, Eq, Structural, Hash)]
pub enum PressControl {
    /// A mouse button.
    Button(ButtonId),
    /// A keyboard key, by its `KEY_*` code.
    Key(u16),
}

impl View for PressControl {
    type V = PressControl;

    open spec fn view(&self) -> PressControl {
        *self
    }
}

/// One accepted press: a serial number unique among live presses, and the
/// control that was pressed.
#[derive(Clone, Copy, Debug, PartialEq, Eq, Structural, Hash)]
pub struct PressToken {
    /// Unique among the presses the runtime has accepted.
    pub serial: u64,
    /// The control that was pressed.
    pub control: PressControl,
}

impl View for PressToken {
    type V = PressToken;

    open spec fn view(&self) -> PressToken {
        *self
    }
}

impl MapKey for PressToken {
    fn same(&self, other: &Self) -> (same: bool) {
        *self == *other
    }
}

impl PressToken {
    /// The token for press number `serial` of mouse button `button`.
    pub fn button(serial: u64, button: ButtonId) -> (token: PressToken)
        ensures
            token.serial == serial,
            token.control == PressControl::Button(button),
    {
        PressToken { serial, control: PressControl::Button(button) }
    }

    /// The token for press number `serial` of key `keycode`.
    pub fn key(serial: u64, keycode: u16) -> (token: PressToken)
        ensures
            token.serial == serial,
            token.control == PressControl::Key(keycode),
    {
        PressToken { serial, control: PressControl::Key(keycode) }
    }
}

} // verus!
