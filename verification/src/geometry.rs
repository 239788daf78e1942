//! Which visual control a device drawing's marker stands for.
//!
//! Two kinds of asset name their buttons: a device drawing numbers them
//! (`buttonN`), and Logitech's asset metadata names them by slot
//! (`SLOT_NAME_BACK_BUTTON`). Both are mapped here onto the controls the
//! mouse view draws; the coordinate arithmetic that places them is the view's.

use vstd::prelude::*;

use crate::button::ButtonId;
use crate::text::equals;

verus! {

/// A control the mouse view can draw a hotspot and a label for.
#[derive(Clone, Copy, Debug, PartialEq, Eq, Structural)]
pub enum MouseControlId {
    /// A button that takes a binding.
    Button(ButtonId),
    /// The thumb wheel's rotation.
    ThumbwheelRotation,
}

/// Whether label cards occupy one or both sides of the device render.
#[derive(Clone, Copy, Debug, PartialEq, Eq, Structural)]
pub enum LabelDistribution {
    /// Every card on the left.
    LeftOnly,
    /// The left flank's cards left, the rest right.
    BothSides,
}

/// Which physical control each `buttonN` of a device drawing is.
///
/// The drawings number their buttons the way the device enumerates its
/// controls: left click, right click, wheel click, then the rear and front
/// thumb buttons. The sixth is the DPI button under the wheel on a G703; the
/// seventh onward have no button to carry them and are not surfaced.
pub open spec fn button_order(index: int) -> Option<ButtonId> {
    if index == 0 {
        Some(ButtonId::LeftClick)
    } else if index == 1 {
        Some(ButtonId::RightClick)
    } else if index == 2 {
        Some(ButtonId::MiddleClick)
    } else if index == 3 {
        Some(ButtonId::Back)
    } else if index == 4 {
        Some(ButtonId::Forward)
    } else if index == 5 {
        Some(ButtonId::DpiToggle)
    } else {
        None
    }
}

/// The control a drawing's `buttonN` stands for.
pub open spec fn control_of_index(index: u32) -> Option<MouseControlId> {
    match button_order(index as int) {
        Some(button) => Some(MouseControlId::Button(button)),
        None => None,
    }
}

/// Whether `control` is what the drawing's `buttonN` with this `index` is in
/// enumeration order: each of the six controls answers to exactly its own
/// index, and an index past them to nothing.
pub open spec fn numbers_its_control(index: u32, control: Option<MouseControlId>) -> bool {
    &&& (control == Some(MouseControlId::Button(ButtonId::LeftClick))) == (index == 0)
    &&& (control == Some(MouseControlId::Button(ButtonId::RightClick))) == (index == 1)
    &&& (control == Some(MouseControlId::Button(ButtonId::MiddleClick))) == (index == 2)
    &&& (control == Some(MouseControlId::Button(ButtonId::Back))) == (index == 3)
    &&& (control == Some(MouseControlId::Button(ButtonId::Forward))) == (index == 4)
    &&& (control == Some(MouseControlId::Button(ButtonId::DpiToggle))) == (index == 5)
    &&& (control is None) == (index >= 6)
}

/// A drawing's buttons are numbered in the order the device enumerates its
/// controls: left click, right click, wheel click, the rear thumb button
/// (`Back`), the front one (`Forward`), the DPI button, and nothing beyond.
pub proof fn lemma_buttons_are_numbered_in_enumeration_order(index: u32)
    ensures
        numbers_its_control(index, control_of_index(index)),
{
}

/// The control a drawing's `buttonN` stands for, or `None` when the index is
/// past what the button order can name.
pub fn control_for(index: u32) -> (control: Option<MouseControlId>)
    ensures
        control == control_of_index(index),
        numbers_its_control(index, control),
{
    let order: [ButtonId; 6] = [
        ButtonId::LeftClick,
        ButtonId::RightClick,
        ButtonId::MiddleClick,
        ButtonId::Back,
        ButtonId::Forward,
        ButtonId::DpiToggle,
    ];
    if index < 6 {
        let i = index as usize;
        Some(MouseControlId::Button(order[i]))
    } else {
        None
    }
}

/// The control a Logitech slot name stands for. Intentionally conservative:
/// unknown names fall through, so widening the control set later does not
/// break old assets.
pub open spec fn slot_control(name: Seq<char>) -> Option<MouseControlId> {
    if name == "SLOT_NAME_LEFT_BUTTON"@ {
        Some(MouseControlId::Button(ButtonId::LeftClick))
    } else if name == "SLOT_NAME_RIGHT_BUTTON"@ {
        Some(MouseControlId::Button(ButtonId::RightClick))
    } else if name == "SLOT_NAME_MIDDLE_BUTTON"@ {
        Some(MouseControlId::Button(ButtonId::MiddleClick))
    } else if name == "SLOT_NAME_LEFT_SCROLL_BUTTON"@ || name == "SLOT_NAME_SCROLL_LEFT"@ {
        Some(MouseControlId::Button(ButtonId::WheelTiltLeft))
    } else if name == "SLOT_NAME_RIGHT_SCROLL_BUTTON"@ || name == "SLOT_NAME_SCROLL_RIGHT"@ {
        Some(MouseControlId::Button(ButtonId::WheelTiltRight))
    } else if name == "SLOT_NAME_BACK_BUTTON"@ {
        Some(MouseControlId::Button(ButtonId::Back))
    } else if name == "SLOT_NAME_FORWARD_BUTTON"@ {
        Some(MouseControlId::Button(ButtonId::Forward))
    } else if name == "SLOT_NAME_MODESHIFT_BUTTON"@ || name == "SLOT_NAME_DPI_BUTTON"@ {
        Some(MouseControlId::Button(ButtonId::DpiToggle))
    } else if name == "SLOT_NAME_THUMBWHEEL"@ {
        Some(MouseControlId::ThumbwheelRotation)
    } else if name == "SLOT_NAME_GESTURE_BUTTON"@ {
        Some(MouseControlId::Button(ButtonId::GestureButton))
    } else if name == "ASSIGNMENT_NAME_SHOW_RADIAL_MENU"@ {
        Some(MouseControlId::Button(ButtonId::HapticPanel))
    } else {
        None
    }
}

/// Whether `control` is the control a Logitech slot name spells: each
/// control answers to exactly its own slot names, and no other name maps to
/// anything.
pub open spec fn names_its_control(name: Seq<char>, control: Option<MouseControlId>) -> bool {
    &&& (control == Some(MouseControlId::Button(ButtonId::LeftClick))) == (name
        == "SLOT_NAME_LEFT_BUTTON"@)
    &&& (control == Some(MouseControlId::Button(ButtonId::RightClick))) == (name
        == "SLOT_NAME_RIGHT_BUTTON"@)
    &&& (control == Some(MouseControlId::Button(ButtonId::MiddleClick))) == (name
        == "SLOT_NAME_MIDDLE_BUTTON"@)
    &&& (control == Some(MouseControlId::Button(ButtonId::WheelTiltLeft))) == (name
        == "SLOT_NAME_LEFT_SCROLL_BUTTON"@ || name == "SLOT_NAME_SCROLL_LEFT"@)
    &&& (control == Some(MouseControlId::Button(ButtonId::WheelTiltRight))) == (name
        == "SLOT_NAME_RIGHT_SCROLL_BUTTON"@ || name == "SLOT_NAME_SCROLL_RIGHT"@)
    &&& (control == Some(MouseControlId::Button(ButtonId::Back))) == (name
        == "SLOT_NAME_BACK_BUTTON"@)
    &&& (control == Some(MouseControlId::Button(ButtonId::Forward))) == (name
        == "SLOT_NAME_FORWARD_BUTTON"@)
    &&& (control == Some(MouseControlId::Button(ButtonId::DpiToggle))) == (name
        == "SLOT_NAME_MODESHIFT_BUTTON"@ || name == "SLOT_NAME_DPI_BUTTON"@)
    &&& (control == Some(MouseControlId::ThumbwheelRotation)) == (name == "SLOT_NAME_THUMBWHEEL"@)
    &&& (control == Some(MouseControlId::Button(ButtonId::GestureButton))) == (name
        == "SLOT_NAME_GESTURE_BUTTON"@)
    &&& (control == Some(MouseControlId::Button(ButtonId::HapticPanel))) == (name
        == "ASSIGNMENT_NAME_SHOW_RADIAL_MENU"@)
    &&& control is Some ==> match control {
        Some(MouseControlId::Button(b)) => b == ButtonId::LeftClick || b == ButtonId::RightClick
            || b == ButtonId::MiddleClick || b == ButtonId::WheelTiltLeft || b
            == ButtonId::WheelTiltRight || b == ButtonId::Back || b == ButtonId::Forward || b
            == ButtonId::DpiToggle || b == ButtonId::GestureButton || b == ButtonId::HapticPanel,
        _ => true,
    }
}

/// The slot names are pairwise different strings.
proof fn lemma_slot_names_distinct()
    ensures
        "SLOT_NAME_LEFT_BUTTON"@ != "SLOT_NAME_RIGHT_BUTTON"@,
        "SLOT_NAME_LEFT_BUTTON"@ != "SLOT_NAME_MIDDLE_BUTTON"@,
        "SLOT_NAME_LEFT_BUTTON"@ != "SLOT_NAME_LEFT_SCROLL_BUTTON"@,
        "SLOT_NAME_LEFT_BUTTON"@ != "SLOT_NAME_SCROLL_LEFT"@,
        "SLOT_NAME_LEFT_BUTTON"@ != "SLOT_NAME_RIGHT_SCROLL_BUTTON"@,
        "SLOT_NAME_LEFT_BUTTON"@ != "SLOT_NAME_SCROLL_RIGHT"@,
        "SLOT_NAME_LEFT_BUTTON"@ != "SLOT_NAME_BACK_BUTTON"@,
        "SLOT_NAME_LEFT_BUTTON"@ != "SLOT_NAME_FORWARD_BUTTON"@,
        "SLOT_NAME_LEFT_BUTTON"@ != "SLOT_NAME_MODESHIFT_BUTTON"@,
        "SLOT_NAME_LEFT_BUTTON"@ != "SLOT_NAME_DPI_BUTTON"@,
        "SLOT_NAME_LEFT_BUTTON"@ != "SLOT_NAME_THUMBWHEEL"@,
        "SLOT_NAME_LEFT_BUTTON"@ != "SLOT_NAME_GESTURE_BUTTON"@,
        "SLOT_NAME_LEFT_BUTTON"@ != "ASSIGNMENT_NAME_SHOW_RADIAL_MENU"@,
        "SLOT_NAME_RIGHT_BUTTON"@ != "SLOT_NAME_MIDDLE_BUTTON"@,
        "SLOT_NAME_RIGHT_BUTTON"@ != "SLOT_NAME_LEFT_SCROLL_BUTTON"@,
        "SLOT_NAME_RIGHT_BUTTON"@ != "SLOT_NAME_SCROLL_LEFT"@,
        "SLOT_NAME_RIGHT_BUTTON"@ != "SLOT_NAME_RIGHT_SCROLL_BUTTON"@,
        "SLOT_NAME_RIGHT_BUTTON"@ != "SLOT_NAME_SCROLL_RIGHT"@,
        "SLOT_NAME_RIGHT_BUTTON"@ != "SLOT_NAME_BACK_BUTTON"@,
        "SLOT_NAME_RIGHT_BUTTON"@ != "SLOT_NAME_FORWARD_BUTTON"@,
        "SLOT_NAME_RIGHT_BUTTON"@ != "SLOT_NAME_MODESHIFT_BUTTON"@,
        "SLOT_NAME_RIGHT_BUTTON"@ != "SLOT_NAME_DPI_BUTTON"@,
        "SLOT_NAME_RIGHT_BUTTON"@ != "SLOT_NAME_THUMBWHEEL"@,
        "SLOT_NAME_RIGHT_BUTTON"@ != "SLOT_NAME_GESTURE_BUTTON"@,
        "SLOT_NAME_RIGHT_BUTTON"@ != "ASSIGNMENT_NAME_SHOW_RADIAL_MENU"@,
        "SLOT_NAME_MIDDLE_BUTTON"@ != "SLOT_NAME_LEFT_SCROLL_BUTTON"@,
        "SLOT_NAME_MIDDLE_BUTTON"@ != "SLOT_NAME_SCROLL_LEFT"@,
        "SLOT_NAME_MIDDLE_BUTTON"@ != "SLOT_NAME_RIGHT_SCROLL_BUTTON"@,
        "SLOT_NAME_MIDDLE_BUTTON"@ != "SLOT_NAME_SCROLL_RIGHT"@,
        "SLOT_NAME_MIDDLE_BUTTON"@ != "SLOT_NAME_BACK_BUTTON"@,
        "SLOT_NAME_MIDDLE_BUTTON"@ != "SLOT_NAME_FORWARD_BUTTON"@,
        "SLOT_NAME_MIDDLE_BUTTON"@ != "SLOT_NAME_MODESHIFT_BUTTON"@,
        "SLOT_NAME_MIDDLE_BUTTON"@ != "SLOT_NAME_DPI_BUTTON"@,
        "SLOT_NAME_MIDDLE_BUTTON"@ != "SLOT_NAME_THUMBWHEEL"@,
        "SLOT_NAME_MIDDLE_BUTTON"@ != "SLOT_NAME_GESTURE_BUTTON"@,
        "SLOT_NAME_MIDDLE_BUTTON"@ != "ASSIGNMENT_NAME_SHOW_RADIAL_MENU"@,
        "SLOT_NAME_LEFT_SCROLL_BUTTON"@ != "SLOT_NAME_SCROLL_LEFT"@,
        "SLOT_NAME_LEFT_SCROLL_BUTTON"@ != "SLOT_NAME_RIGHT_SCROLL_BUTTON"@,
        "SLOT_NAME_LEFT_SCROLL_BUTTON"@ != "SLOT_NAME_SCROLL_RIGHT"@,
        "SLOT_NAME_LEFT_SCROLL_BUTTON"@ != "SLOT_NAME_BACK_BUTTON"@,
        "SLOT_NAME_LEFT_SCROLL_BUTTON"@ != "SLOT_NAME_FORWARD_BUTTON"@,
        "SLOT_NAME_LEFT_SCROLL_BUTTON"@ != "SLOT_NAME_MODESHIFT_BUTTON"@,
        "SLOT_NAME_LEFT_SCROLL_BUTTON"@ != "SLOT_NAME_DPI_BUTTON"@,
        "SLOT_NAME_LEFT_SCROLL_BUTTON"@ != "SLOT_NAME_THUMBWHEEL"@,
        "SLOT_NAME_LEFT_SCROLL_BUTTON"@ != "SLOT_NAME_GESTURE_BUTTON"@,
        "SLOT_NAME_LEFT_SCROLL_BUTTON"@ != "ASSIGNMENT_NAME_SHOW_RADIAL_MENU"@,
        "SLOT_NAME_SCROLL_LEFT"@ != "SLOT_NAME_RIGHT_SCROLL_BUTTON"@,
        "SLOT_NAME_SCROLL_LEFT"@ != "SLOT_NAME_SCROLL_RIGHT"@,
        "SLOT_NAME_SCROLL_LEFT"@ != "SLOT_NAME_BACK_BUTTON"@,
        "SLOT_NAME_SCROLL_LEFT"@ != "SLOT_NAME_FORWARD_BUTTON"@,
        "SLOT_NAME_SCROLL_LEFT"@ != "SLOT_NAME_MODESHIFT_BUTTON"@,
        "SLOT_NAME_SCROLL_LEFT"@ != "SLOT_NAME_DPI_BUTTON"@,
        "SLOT_NAME_SCROLL_LEFT"@ != "SLOT_NAME_THUMBWHEEL"@,
        "SLOT_NAME_SCROLL_LEFT"@ != "SLOT_NAME_GESTURE_BUTTON"@,
        "SLOT_NAME_SCROLL_LEFT"@ != "ASSIGNMENT_NAME_SHOW_RADIAL_MENU"@,
        "SLOT_NAME_RIGHT_SCROLL_BUTTON"@ != "SLOT_NAME_SCROLL_RIGHT"@,
        "SLOT_NAME_RIGHT_SCROLL_BUTTON"@ != "SLOT_NAME_BACK_BUTTON"@,
        "SLOT_NAME_RIGHT_SCROLL_BUTTON"@ != "SLOT_NAME_FORWARD_BUTTON"@,
        "SLOT_NAME_RIGHT_SCROLL_BUTTON"@ != "SLOT_NAME_MODESHIFT_BUTTON"@,
        "SLOT_NAME_RIGHT_SCROLL_BUTTON"@ != "SLOT_NAME_DPI_BUTTON"@,
        "SLOT_NAME_RIGHT_SCROLL_BUTTON"@ != "SLOT_NAME_THUMBWHEEL"@,
        "SLOT_NAME_RIGHT_SCROLL_BUTTON"@ != "SLOT_NAME_GESTURE_BUTTON"@,
        "SLOT_NAME_RIGHT_SCROLL_BUTTON"@ != "ASSIGNMENT_NAME_SHOW_RADIAL_MENU"@,
        "SLOT_NAME_SCROLL_RIGHT"@ != "SLOT_NAME_BACK_BUTTON"@,
        "SLOT_NAME_SCROLL_RIGHT"@ != "SLOT_NAME_FORWARD_BUTTON"@,
        "SLOT_NAME_SCROLL_RIGHT"@ != "SLOT_NAME_MODESHIFT_BUTTON"@,
        "SLOT_NAME_SCROLL_RIGHT"@ != "SLOT_NAME_DPI_BUTTON"@,
        "SLOT_NAME_SCROLL_RIGHT"@ != "SLOT_NAME_THUMBWHEEL"@,
        "SLOT_NAME_SCROLL_RIGHT"@ != "SLOT_NAME_GESTURE_BUTTON"@,
        "SLOT_NAME_SCROLL_RIGHT"@ != "ASSIGNMENT_NAME_SHOW_RADIAL_MENU"@,
        "SLOT_NAME_BACK_BUTTON"@ != "SLOT_NAME_FORWARD_BUTTON"@,
        "SLOT_NAME_BACK_BUTTON"@ != "SLOT_NAME_MODESHIFT_BUTTON"@,
        "SLOT_NAME_BACK_BUTTON"@ != "SLOT_NAME_DPI_BUTTON"@,
        "SLOT_NAME_BACK_BUTTON"@ != "SLOT_NAME_THUMBWHEEL"@,
        "SLOT_NAME_BACK_BUTTON"@ != "SLOT_NAME_GESTURE_BUTTON"@,
        "SLOT_NAME_BACK_BUTTON"@ != "ASSIGNMENT_NAME_SHOW_RADIAL_MENU"@,
        "SLOT_NAME_FORWARD_BUTTON"@ != "SLOT_NAME_MODESHIFT_BUTTON"@,
        "SLOT_NAME_FORWARD_BUTTON"@ != "SLOT_NAME_DPI_BUTTON"@,
        "SLOT_NAME_FORWARD_BUTTON"@ != "SLOT_NAME_THUMBWHEEL"@,
        "SLOT_NAME_FORWARD_BUTTON"@ != "SLOT_NAME_GESTURE_BUTTON"@,
        "SLOT_NAME_FORWARD_BUTTON"@ != "ASSIGNMENT_NAME_SHOW_RADIAL_MENU"@,
        "SLOT_NAME_MODESHIFT_BUTTON"@ != "SLOT_NAME_DPI_BUTTON"@,
        "SLOT_NAME_MODESHIFT_BUTTON"@ != "SLOT_NAME_THUMBWHEEL"@,
        "SLOT_NAME_MODESHIFT_BUTTON"@ != "SLOT_NAME_GESTURE_BUTTON"@,
        "SLOT_NAME_MODESHIFT_BUTTON"@ != "ASSIGNMENT_NAME_SHOW_RADIAL_MENU"@,
        "SLOT_NAME_DPI_BUTTON"@ != "SLOT_NAME_THUMBWHEEL"@,
        "SLOT_NAME_DPI_BUTTON"@ != "SLOT_NAME_GESTURE_BUTTON"@,
        "SLOT_NAME_DPI_BUTTON"@ != "ASSIGNMENT_NAME_SHOW_RADIAL_MENU"@,
        "SLOT_NAME_THUMBWHEEL"@ != "SLOT_NAME_GESTURE_BUTTON"@,
        "SLOT_NAME_THUMBWHEEL"@ != "ASSIGNMENT_NAME_SHOW_RADIAL_MENU"@,
        "SLOT_NAME_GESTURE_BUTTON"@ != "ASSIGNMENT_NAME_SHOW_RADIAL_MENU"@,
{
    reveal_strlit("SLOT_NAME_LEFT_BUTTON");
    reveal_strlit("SLOT_NAME_RIGHT_BUTTON");
    reveal_strlit("SLOT_NAME_MIDDLE_BUTTON");
    reveal_strlit("SLOT_NAME_LEFT_SCROLL_BUTTON");
    reveal_strlit("SLOT_NAME_SCROLL_LEFT");
    reveal_strlit("SLOT_NAME_RIGHT_SCROLL_BUTTON");
    reveal_strlit("SLOT_NAME_SCROLL_RIGHT");
    reveal_strlit("SLOT_NAME_BACK_BUTTON");
    reveal_strlit("SLOT_NAME_FORWARD_BUTTON");
    reveal_strlit("SLOT_NAME_MODESHIFT_BUTTON");
    reveal_strlit("SLOT_NAME_DPI_BUTTON");
    reveal_strlit("SLOT_NAME_THUMBWHEEL");
    reveal_strlit("SLOT_NAME_GESTURE_BUTTON");
    reveal_strlit("ASSIGNMENT_NAME_SHOW_RADIAL_MENU");
    assert("SLOT_NAME_LEFT_BUTTON"@.len() != "SLOT_NAME_RIGHT_BUTTON"@.len());
    assert("SLOT_NAME_LEFT_BUTTON"@.len() != "SLOT_NAME_MIDDLE_BUTTON"@.len());
    assert("SLOT_NAME_LEFT_BUTTON"@.len() != "SLOT_NAME_LEFT_SCROLL_BUTTON"@.len());
    assert("SLOT_NAME_LEFT_BUTTON"@[10] != "SLOT_NAME_SCROLL_LEFT"@[10]);
    assert("SLOT_NAME_LEFT_BUTTON"@.len() != "SLOT_NAME_RIGHT_SCROLL_BUTTON"@.len());
    assert("SLOT_NAME_LEFT_BUTTON"@.len() != "SLOT_NAME_SCROLL_RIGHT"@.len());
    assert("SLOT_NAME_LEFT_BUTTON"@[10] != "SLOT_NAME_BACK_BUTTON"@[10]);
    assert("SLOT_NAME_LEFT_BUTTON"@.len() != "SLOT_NAME_FORWARD_BUTTON"@.len());
    assert("SLOT_NAME_LEFT_BUTTON"@.len() != "SLOT_NAME_MODESHIFT_BUTTON"@.len());
    assert("SLOT_NAME_LEFT_BUTTON"@.len() != "SLOT_NAME_DPI_BUTTON"@.len());
    assert("SLOT_NAME_LEFT_BUTTON"@.len() != "SLOT_NAME_THUMBWHEEL"@.len());
    assert("SLOT_NAME_LEFT_BUTTON"@.len() != "SLOT_NAME_GESTURE_BUTTON"@.len());
    assert("SLOT_NAME_LEFT_BUTTON"@.len() != "ASSIGNMENT_NAME_SHOW_RADIAL_MENU"@.len());
    assert("SLOT_NAME_RIGHT_BUTTON"@.len() != "SLOT_NAME_MIDDLE_BUTTON"@.len());
    assert("SLOT_NAME_RIGHT_BUTTON"@.len() != "SLOT_NAME_LEFT_SCROLL_BUTTON"@.len());
    assert("SLOT_NAME_RIGHT_BUTTON"@.len() != "SLOT_NAME_SCROLL_LEFT"@.len());
    assert("SLOT_NAME_RIGHT_BUTTON"@.len() != "SLOT_NAME_RIGHT_SCROLL_BUTTON"@.len());
    assert("SLOT_NAME_RIGHT_BUTTON"@[10] != "SLOT_NAME_SCROLL_RIGHT"@[10]);
    assert("SLOT_NAME_RIGHT_BUTTON"@.len() != "SLOT_NAME_BACK_BUTTON"@.len());
    assert("SLOT_NAME_RIGHT_BUTTON"@.len() != "SLOT_NAME_FORWARD_BUTTON"@.len());
    assert("SLOT_NAME_RIGHT_BUTTON"@.len() != "SLOT_NAME_MODESHIFT_BUTTON"@.len());
    assert("SLOT_NAME_RIGHT_BUTTON"@.len() != "SLOT_NAME_DPI_BUTTON"@.len());
    assert("SLOT_NAME_RIGHT_BUTTON"@.len() != "SLOT_NAME_THUMBWHEEL"@.len());
    assert("SLOT_NAME_RIGHT_BUTTON"@.len() != "SLOT_NAME_GESTURE_BUTTON"@.len());
    assert("SLOT_NAME_RIGHT_BUTTON"@.len() != "ASSIGNMENT_NAME_SHOW_RADIAL_MENU"@.len());
    assert("SLOT_NAME_MIDDLE_BUTTON"@.len() != "SLOT_NAME_LEFT_SCROLL_BUTTON"@.len());
    assert("SLOT_NAME_MIDDLE_BUTTON"@.len() != "SLOT_NAME_SCROLL_LEFT"@.len());
    assert("SLOT_NAME_MIDDLE_BUTTON"@.len() != "SLOT_NAME_RIGHT_SCROLL_BUTTON"@.len());
    assert("SLOT_NAME_MIDDLE_BUTTON"@.len() != "SLOT_NAME_SCROLL_RIGHT"@.len());
    assert("SLOT_NAME_MIDDLE_BUTTON"@.len() != "SLOT_NAME_BACK_BUTTON"@.len());
    assert("SLOT_NAME_MIDDLE_BUTTON"@.len() != "SLOT_NAME_FORWARD_BUTTON"@.len());
    assert("SLOT_NAME_MIDDLE_BUTTON"@.len() != "SLOT_NAME_MODESHIFT_BUTTON"@.len());
    assert("SLOT_NAME_MIDDLE_BUTTON"@.len() != "SLOT_NAME_DPI_BUTTON"@.len());
    assert("SLOT_NAME_MIDDLE_BUTTON"@.len() != "SLOT_NAME_THUMBWHEEL"@.len());
    assert("SLOT_NAME_MIDDLE_BUTTON"@.len() != "SLOT_NAME_GESTURE_BUTTON"@.len());
    assert("SLOT_NAME_MIDDLE_BUTTON"@.len() != "ASSIGNMENT_NAME_SHOW_RADIAL_MENU"@.len());
    assert("SLOT_NAME_LEFT_SCROLL_BUTTON"@.len() != "SLOT_NAME_SCROLL_LEFT"@.len());
    assert("SLOT_NAME_LEFT_SCROLL_BUTTON"@.len() != "SLOT_NAME_RIGHT_SCROLL_BUTTON"@.len());
    assert("SLOT_NAME_LEFT_SCROLL_BUTTON"@.len() != "SLOT_NAME_SCROLL_RIGHT"@.len());
    assert("SLOT_NAME_LEFT_SCROLL_BUTTON"@.len() != "SLOT_NAME_BACK_BUTTON"@.len());
    assert("SLOT_NAME_LEFT_SCROLL_BUTTON"@.len() != "SLOT_NAME_FORWARD_BUTTON"@.len());
    assert("SLOT_NAME_LEFT_SCROLL_BUTTON"@.len() != "SLOT_NAME_MODESHIFT_BUTTON"@.len());
    assert("SLOT_NAME_LEFT_SCROLL_BUTTON"@.len() != "SLOT_NAME_DPI_BUTTON"@.len());
    assert("SLOT_NAME_LEFT_SCROLL_BUTTON"@.len() != "SLOT_NAME_THUMBWHEEL"@.len());
    assert("SLOT_NAME_LEFT_SCROLL_BUTTON"@.len() != "SLOT_NAME_GESTURE_BUTTON"@.len());
    assert("SLOT_NAME_LEFT_SCROLL_BUTTON"@.len() != "ASSIGNMENT_NAME_SHOW_RADIAL_MENU"@.len());
    assert("SLOT_NAME_SCROLL_LEFT"@.len() != "SLOT_NAME_RIGHT_SCROLL_BUTTON"@.len());
    assert("SLOT_NAME_SCROLL_LEFT"@.len() != "SLOT_NAME_SCROLL_RIGHT"@.len());
    assert("SLOT_NAME_SCROLL_LEFT"@[10] != "SLOT_NAME_BACK_BUTTON"@[10]);
    assert("SLOT_NAME_SCROLL_LEFT"@.len() != "SLOT_NAME_FORWARD_BUTTON"@.len());
    assert("SLOT_NAME_SCROLL_LEFT"@.len() != "SLOT_NAME_MODESHIFT_BUTTON"@.len());
    assert("SLOT_NAME_SCROLL_LEFT"@.len() != "SLOT_NAME_DPI_BUTTON"@.len());
    assert("SLOT_NAME_SCROLL_LEFT"@.len() != "SLOT_NAME_THUMBWHEEL"@.len());
    assert("SLOT_NAME_SCROLL_LEFT"@.len() != "SLOT_NAME_GESTURE_BUTTON"@.len());
    assert("SLOT_NAME_SCROLL_LEFT"@.len() != "ASSIGNMENT_NAME_SHOW_RADIAL_MENU"@.len());
    assert("SLOT_NAME_RIGHT_SCROLL_BUTTON"@.len() != "SLOT_NAME_SCROLL_RIGHT"@.len());
    assert("SLOT_NAME_RIGHT_SCROLL_BUTTON"@.len() != "SLOT_NAME_BACK_BUTTON"@.len());
    assert("SLOT_NAME_RIGHT_SCROLL_BUTTON"@.len() != "SLOT_NAME_FORWARD_BUTTON"@.len());
    assert("SLOT_NAME_RIGHT_SCROLL_BUTTON"@.len() != "SLOT_NAME_MODESHIFT_BUTTON"@.len());
    assert("SLOT_NAME_RIGHT_SCROLL_BUTTON"@.len() != "SLOT_NAME_DPI_BUTTON"@.len());
    assert("SLOT_NAME_RIGHT_SCROLL_BUTTON"@.len() != "SLOT_NAME_THUMBWHEEL"@.len());
    assert("SLOT_NAME_RIGHT_SCROLL_BUTTON"@.len() != "SLOT_NAME_GESTURE_BUTTON"@.len());
    assert("SLOT_NAME_RIGHT_SCROLL_BUTTON"@.len() != "ASSIGNMENT_NAME_SHOW_RADIAL_MENU"@.len());
    assert("SLOT_NAME_SCROLL_RIGHT"@.len() != "SLOT_NAME_BACK_BUTTON"@.len());
    assert("SLOT_NAME_SCROLL_RIGHT"@.len() != "SLOT_NAME_FORWARD_BUTTON"@.len());
    assert("SLOT_NAME_SCROLL_RIGHT"@.len() != "SLOT_NAME_MODESHIFT_BUTTON"@.len());
    assert("SLOT_NAME_SCROLL_RIGHT"@.len() != "SLOT_NAME_DPI_BUTTON"@.len());
    assert("SLOT_NAME_SCROLL_RIGHT"@.len() != "SLOT_NAME_THUMBWHEEL"@.len());
    assert("SLOT_NAME_SCROLL_RIGHT"@.len() != "SLOT_NAME_GESTURE_BUTTON"@.len());
    assert("SLOT_NAME_SCROLL_RIGHT"@.len() != "ASSIGNMENT_NAME_SHOW_RADIAL_MENU"@.len());
    assert("SLOT_NAME_BACK_BUTTON"@.len() != "SLOT_NAME_FORWARD_BUTTON"@.len());
    assert("SLOT_NAME_BACK_BUTTON"@.len() != "SLOT_NAME_MODESHIFT_BUTTON"@.len());
    assert("SLOT_NAME_BACK_BUTTON"@.len() != "SLOT_NAME_DPI_BUTTON"@.len());
    assert("SLOT_NAME_BACK_BUTTON"@.len() != "SLOT_NAME_THUMBWHEEL"@.len());
    assert("SLOT_NAME_BACK_BUTTON"@.len() != "SLOT_NAME_GESTURE_BUTTON"@.len());
    assert("SLOT_NAME_BACK_BUTTON"@.len() != "ASSIGNMENT_NAME_SHOW_RADIAL_MENU"@.len());
    assert("SLOT_NAME_FORWARD_BUTTON"@.len() != "SLOT_NAME_MODESHIFT_BUTTON"@.len());
    assert("SLOT_NAME_FORWARD_BUTTON"@.len() != "SLOT_NAME_DPI_BUTTON"@.len());
    assert("SLOT_NAME_FORWARD_BUTTON"@.len() != "SLOT_NAME_THUMBWHEEL"@.len());
    assert("SLOT_NAME_FORWARD_BUTTON"@[10] != "SLOT_NAME_GESTURE_BUTTON"@[10]);
    assert("SLOT_NAME_FORWARD_BUTTON"@.len() != "ASSIGNMENT_NAME_SHOW_RADIAL_MENU"@.len());
    assert("SLOT_NAME_MODESHIFT_BUTTON"@.len() != "SLOT_NAME_DPI_BUTTON"@.len());
    assert("SLOT_NAME_MODESHIFT_BUTTON"@.len() != "SLOT_NAME_THUMBWHEEL"@.len());
    assert("SLOT_NAME_MODESHIFT_BUTTON"@.len() != "SLOT_NAME_GESTURE_BUTTON"@.len());
    assert("SLOT_NAME_MODESHIFT_BUTTON"@.len() != "ASSIGNMENT_NAME_SHOW_RADIAL_MENU"@.len());
    assert("SLOT_NAME_DPI_BUTTON"@[10] != "SLOT_NAME_THUMBWHEEL"@[10]);
    assert("SLOT_NAME_DPI_BUTTON"@.len() != "SLOT_NAME_GESTURE_BUTTON"@.len());
    assert("SLOT_NAME_DPI_BUTTON"@.len() != "ASSIGNMENT_NAME_SHOW_RADIAL_MENU"@.len());
    assert("SLOT_NAME_THUMBWHEEL"@.len() != "SLOT_NAME_GESTURE_BUTTON"@.len());
    assert("SLOT_NAME_THUMBWHEEL"@.len() != "ASSIGNMENT_NAME_SHOW_RADIAL_MENU"@.len());
    assert("SLOT_NAME_GESTURE_BUTTON"@.len() != "ASSIGNMENT_NAME_SHOW_RADIAL_MENU"@.len());
}

/// Every slot name maps to the control it names, and only to it: the back
/// thumb button's slot to `Back`, the forward one's to `Forward`, each tilt
/// spelling to its side, and any other name to nothing.
pub proof fn lemma_slot_names_name_their_controls(name: Seq<char>)
    ensures
        names_its_control(name, slot_control(name)),
{
    lemma_slot_names_distinct();
}

/// Logitech's stable slot vocabulary mapped onto the view's controls.
///
/// The main wheel's tilt has two spellings per side (the longer on the MX
/// Anywhere, the shorter on the MX Ergo); the MX Master 4's Haptic Sense Panel
/// is named after its default assignment, the radial Actions Ring menu.
pub fn map_slot_name(name: &str) -> (control: Option<MouseControlId>)
    ensures
        control == slot_control(name@),
        names_its_control(name@, control),
{
    proof {
        lemma_slot_names_name_their_controls(name@);
    }
    if equals(name, "SLOT_NAME_LEFT_BUTTON") {
        Some(MouseControlId::Button(ButtonId::LeftClick))
    } else if equals(name, "SLOT_NAME_RIGHT_BUTTON") {
        Some(MouseControlId::Button(ButtonId::RightClick))
    } else if equals(name, "SLOT_NAME_MIDDLE_BUTTON") {
        Some(MouseControlId::Button(ButtonId::MiddleClick))
    } else if equals(name, "SLOT_NAME_LEFT_SCROLL_BUTTON") || equals(name, "SLOT_NAME_SCROLL_LEFT") {
        Some(MouseControlId::Button(ButtonId::WheelTiltLeft))
    } else if equals(name, "SLOT_NAME_RIGHT_SCROLL_BUTTON") || equals(
        name,
        "SLOT_NAME_SCROLL_RIGHT",
    ) {
        Some(MouseControlId::Button(ButtonId::WheelTiltRight))
    } else if equals(name, "SLOT_NAME_BACK_BUTTON") {
        Some(MouseControlId::Button(ButtonId::Back))
    } else if equals(name, "SLOT_NAME_FORWARD_BUTTON") {
        Some(MouseControlId::Button(ButtonId::Forward))
    } else if equals(name, "SLOT_NAME_MODESHIFT_BUTTON") || equals(name, "SLOT_NAME_DPI_BUTTON") {
        Some(MouseControlId::Button(ButtonId::DpiToggle))
    } else if equals(name, "SLOT_NAME_THUMBWHEEL") {
        Some(MouseControlId::ThumbwheelRotation)
    } else if equals(name, "SLOT_NAME_GESTURE_BUTTON") {
        Some(MouseControlId::Button(ButtonId::GestureButton))
    } else if equals(name, "ASSIGNMENT_NAME_SHOW_RADIAL_MENU") {
        Some(MouseControlId::Button(ButtonId::HapticPanel))
    } else {
        None
    }
}

/// What the mouse view reads of a resolved asset to decide on label gutters:
/// the numbers of a device drawing's buttons when the asset is a drawing, and
/// the slot names of its markers otherwise.
#[derive(Clone, Debug, PartialEq, Eq)]
pub struct ResolvedAsset {
    /// The `N` of each `buttonN` in the device drawing, when there is one.
    pub art_buttons: Option<Vec<u32>>,
    /// The slot name of every marker in the asset's metadata.
    pub slot_names: Vec<String>,
}

/// Whether the asset exposes a marker for a control the view can label.
pub open spec fn has_button_labels(
    art_buttons: Option<Seq<u32>>,
    slot_names: Seq<Seq<char>>,
) -> bool {
    match art_buttons {
        Some(indices) => exists|i: int|
            0 <= i < indices.len() && control_of_index(#[trigger] indices[i]) is Some,
        None => exists|i: int| 0 <= i < slot_names.len() && slot_control(#[trigger] slot_names[i]) is Some,
    }
}

impl ResolvedAsset {
    /// The drawing's button numbers, when the asset is a drawing.
    pub open spec fn art_view(&self) -> Option<Seq<u32>> {
        match self.art_buttons {
            Some(v) => Some(v@),
            None => None,
        }
    }

    /// The markers' slot names.
    pub open spec fn slot_view(&self) -> Seq<Seq<char>> {
        Seq::new(self.slot_names@.len(), |i: int| self.slot_names@[i]@)
    }
}

/// Whether the asset exposes any remappable button markers. Mice do, so the
/// model reserves a side gutter for their leader-line labels; keyboards and
/// other label-less devices do not, so the model can hand them the full
/// width.
pub fn asset_has_button_labels(asset: &ResolvedAsset) -> (labelled: bool)
    ensures
        labelled == has_button_labels(asset.art_view(), asset.slot_view()),
{
    match &asset.art_buttons {
        Some(indices) => {
            assert(asset.art_view() == Some(indices@));
            let mut i: usize = 0;
            while i < indices.len()
                invariant
                    0 <= i <= indices@.len(),
                    asset.art_view() == Some(indices@),
                    forall|j: int| 0 <= j < i ==> control_of_index(#[trigger] indices@[j]) is None,
                decreases indices@.len() - i,
            {
                if control_for(indices[i]).is_some() {
                    assert(control_of_index(indices@[i as int]) is Some);
                    return true;
                }
                i = i + 1;
            }
            false
        },
        None => {
            assert(asset.art_view() is None);
            let names = &asset.slot_names;
            let ghost view = asset.slot_view();
            let mut i: usize = 0;
            while i < names.len()
                invariant
                    0 <= i <= names@.len(),
                    view == asset.slot_view(),
                    asset.art_view() is None,
                    *names == asset.slot_names,
                    forall|j: int| 0 <= j < i ==> slot_control(#[trigger] view[j]) is None,
                decreases names@.len() - i,
            {
                if map_slot_name(names[i].as_str()).is_some() {
                    assert(slot_control(view[i as int]) is Some);
                    return true;
                }
                i = i + 1;
            }
            false
        },
    }
}

/// Whether `k` is the first position in `order` whose label is `control`.
pub open spec fn first_at(order: Seq<usize>, ids: Seq<MouseControlId>, control: MouseControlId, k: int) -> bool {
    &&& 0 <= k < order.len()
    &&& ids[order[k] as int] == control
    &&& forall|j: int| 0 <= j < k ==> ids[(#[trigger] order[j]) as int] != control
}

/// Whether `control` labels some position of `order`.
pub open spec fn labelled(order: Seq<usize>, ids: Seq<MouseControlId>, control: MouseControlId) -> bool {
    exists|k: int| 0 <= k < order.len() && ids[(#[trigger] order[k]) as int] == control
}

/// The first position in `order` whose label is `control`.
fn position_of(order: &Vec<usize>, ids: &[MouseControlId], control: MouseControlId) -> (found: Option<usize>)
    requires
        forall|k: int| 0 <= k < order@.len() ==> (#[trigger] order@[k]) < ids@.len(),
    ensures
        found is None <==> !labelled(order@, ids@, control),
        found matches Some(k) ==> first_at(order@, ids@, control, k as int),
{
    let mut k: usize = 0;
    while k < order.len()
        invariant
            0 <= k <= order@.len(),
            forall|j: int| 0 <= j < order@.len() ==> (#[trigger] order@[j]) < ids@.len(),
            forall|j: int| 0 <= j < k ==> ids@[(#[trigger] order@[j]) as int] != control,
        decreases order@.len() - k,
    {
        if ids[order[k]] == control {
            return Some(k);
        }
        k = k + 1;
    }
    None
}

/// Keep the Back and Forward labels of one gutter adjacent: `order` lists
/// the gutter's labels top to bottom, by their index into `ids`. When both
/// navigation buttons are present and something sits between them, the lower
/// one moves up to sit right under the upper one; everything else keeps its
/// order. Returns the pair's two label indices, top one first, or `None` when
/// the gutter lacks one of them.
pub fn group_navigation(order: &mut Vec<usize>, ids: &[MouseControlId]) -> (pair: Option<(usize, usize)>)
    requires
        forall|k: int| 0 <= k < old(order)@.len() ==> (#[trigger] old(order)@[k]) < ids@.len(),
    ensures
        (pair is None) <==> !(labelled(old(order)@, ids@, MouseControlId::Button(ButtonId::Back))
            && labelled(old(order)@, ids@, MouseControlId::Button(ButtonId::Forward))),
        pair is None ==> final(order)@ == old(order)@,
        pair is Some ==> exists|b: int, f: int|
            first_at(old(order)@, ids@, MouseControlId::Button(ButtonId::Back), b) && first_at(
                old(order)@,
                ids@,
                MouseControlId::Button(ButtonId::Forward),
                f,
            ) && ({
                let first = if b < f { b } else { f };
                let second = if b < f { f } else { b };
                &&& final(order)@ == if second > first + 1 {
                    old(order)@.remove(second).insert(first + 1, old(order)@[second])
                } else {
                    old(order)@
                }
                &&& pair == Some((final(order)@[first] as usize, final(order)@[first + 1] as usize))
            }),
{
    let back = position_of(order, ids, MouseControlId::Button(ButtonId::Back));
    let forward = position_of(order, ids, MouseControlId::Button(ButtonId::Forward));
    match (back, forward) {
        (Some(b), Some(f)) => {
            proof {
                if b == f {
                    assert(ids@[order@[b as int] as int] == MouseControlId::Button(ButtonId::Back));
                    assert(ids@[order@[f as int] as int] == MouseControlId::Button(ButtonId::Forward));
                }
            }
            let first = if b < f { b } else { f };
            let second = if b < f { f } else { b };
            let ghost before = order@;
            if second > first + 1 {
                let moved = order.remove(second);
                order.insert(first + 1, moved);
                assert(order@ =~= before.remove(second as int).insert(first as int + 1, before[second as int]));
            }
            Some((order[first], order[first + 1]))
        },
        _ => None,
    }
}

} // verus!
