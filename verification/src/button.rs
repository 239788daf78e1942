//! Rebindable mouse/keyboard button identifiers.

use vstd::prelude::*;

use crate::action::Action;
use crate::maps::MapKey;

verus! {

/// One of the user-rebindable hotspots on a Logi mouse, or a divertable
/// keyboard control. New buttons are appended: serialized forms encode the
/// variant.
#[derive(Clone, Copy, Debug, PartialEq, Eq, Structural, Hash, PartialOrd, Ord)]
pub enum ButtonId {
    /// The primary button. The OS hook sees it and may remap it, but it keeps
    /// a floor no other button has — see [`ButtonId::may_suppress`].
    LeftClick,
    /// The secondary button.
    RightClick,
    /// The wheel click.
    MiddleClick,
    /// The thumb-side "back" button (mouse button 4).
    Back,
    /// The thumb-side "forward" button (mouse button 5).
    Forward,
    /// The "ModeShift" button under the wheel; `BTN_TASK` on a gaming mouse.
    DpiToggle,
    /// The horizontal thumb wheel's click.
    Thumbwheel,
    /// Rotating the thumb wheel "up" (positive rotation).
    ThumbwheelScrollUp,
    /// Rotating the thumb wheel "down" (negative rotation).
    ThumbwheelScrollDown,
    /// The HID++ gesture button on MX-line devices.
    GestureButton,
    /// Keyboard F-row "Search" control.
    KeySearch,
    /// Keyboard "Dictation" control.
    KeyDictation,
    /// Keyboard "Emoji" control.
    KeyEmoji,
    /// Keyboard "Screen Capture" control.
    KeyScreenCapture,
    /// Keyboard "Mute Microphone" control.
    KeyMicMute,
    /// Keyboard "Play/Pause" control.
    KeyPlayPause,
    /// Keyboard "Mute" control.
    KeyMute,
    /// Keyboard "Volume Down" control.
    KeyVolumeDown,
    /// Keyboard "Volume Up" control.
    KeyVolumeUp,
    /// The MX Master 4 Haptic Sense Panel.
    HapticPanel,
    /// Tilting the main wheel left.
    WheelTiltLeft,
    /// Tilting the main wheel right.
    WheelTiltRight,
}

impl View for ButtonId {
    type V = ButtonId;

    open spec fn view(&self) -> ButtonId {
        *self
    }
}

impl MapKey for ButtonId {
    fn same(&self, other: &Self) -> (same: bool) {
        *self == *other
    }
}

/// The buttons the OS hook decodes from the raw event stream.
pub open spec fn hook_sees(id: ButtonId) -> bool {
    id == ButtonId::LeftClick || id == ButtonId::RightClick || id == ButtonId::MiddleClick || id
        == ButtonId::Back || id == ButtonId::Forward || id == ButtonId::DpiToggle
}

/// Whether the hook may swallow `id` when `action` is bound to it: any button
/// it sees, except the primary click bound to nothing.
pub open spec fn suppressible(id: ButtonId, action: Action) -> bool {
    hook_sees(id) && !(id == ButtonId::LeftClick && action is DoNothing)
}

impl ButtonId {
    /// Whether the OS hook (macOS `CGEventTap` / Linux evdev) sees this button
    /// at all, and may therefore remap it: `BTN_LEFT`, `BTN_RIGHT`,
    /// `BTN_MIDDLE`, `BTN_SIDE`, `BTN_EXTRA` and `BTN_TASK` on Linux. The thumb
    /// wheel, the wheel tilts and the gesture controls arrive over HID++.
    pub fn is_os_hook_button(self) -> (seen: bool)
        ensures
            seen == hook_sees(self),
    {
        match self {
            ButtonId::LeftClick | ButtonId::RightClick | ButtonId::MiddleClick | ButtonId::Back
            | ButtonId::Forward | ButtonId::DpiToggle => true,
            _ => false,
        }
    }

    /// Whether this button may host an OS-hook hold-and-swipe gesture: the
    /// wheel click and the two thumb buttons. A subset of
    /// [`ButtonId::is_os_hook_button`]: the primary and secondary buttons are
    /// held for dragging and menus, so they cannot also be swipe sources.
    pub fn is_os_hook_gesture_button(self) -> (gesture: bool)
        ensures
            gesture == (self == ButtonId::MiddleClick || self == ButtonId::Back || self
                == ButtonId::Forward),
            gesture ==> hook_sees(self),
    {
        match self {
            ButtonId::MiddleClick | ButtonId::Back | ButtonId::Forward => true,
            _ => false,
        }
    }

    /// Whether the OS hook may swallow this button's physical event, given the
    /// action bound to it.
    ///
    /// Every button the hook sees is suppressible once it carries a binding.
    /// The primary click is the one exception, a safety floor: it is the
    /// user's only route to the GUI that would undo the profile, so bound to
    /// [`Action::DoNothing`] it keeps working.
    pub fn may_suppress(self, action: &Action) -> (may: bool)
        ensures
            may == suppressible(self, *action),
            self == ButtonId::LeftClick && *action is DoNothing ==> !may,
    {
        if !self.is_os_hook_button() {
            return false;
        }
        if let ButtonId::LeftClick = self {
            return !action.does_nothing();
        }
        true
    }

    /// Whether this button is a HID++ gesture source: the dedicated gesture
    /// button, or the MX Master 4 haptic panel.
    pub fn is_hidpp_gesture_source(self) -> (source: bool)
        ensures
            source == (self == ButtonId::GestureButton || self == ButtonId::HapticPanel),
    {
        match self {
            ButtonId::GestureButton | ButtonId::HapticPanel => true,
            _ => false,
        }
    }

    /// Human-readable label for popovers and tooltips.
    pub fn label(self) -> (text: &'static str)
        ensures
            text@ == button_label(self)@,
    {
        match self {
            ButtonId::LeftClick => "Left Click",
            ButtonId::RightClick => "Right Click",
            ButtonId::MiddleClick => "Middle Click",
            ButtonId::WheelTiltLeft => "Tilt Left",
            ButtonId::WheelTiltRight => "Tilt Right",
            ButtonId::Back => "Back",
            ButtonId::Forward => "Forward",
            ButtonId::DpiToggle => "DPI Toggle",
            ButtonId::Thumbwheel => "Thumb Wheel",
            ButtonId::ThumbwheelScrollUp => "Thumb Wheel Up",
            ButtonId::ThumbwheelScrollDown => "Thumb Wheel Down",
            ButtonId::GestureButton => "Gesture Button",
            ButtonId::KeySearch => "Search Key",
            ButtonId::KeyDictation => "Dictation Key",
            ButtonId::KeyEmoji => "Emoji Key",
            ButtonId::KeyScreenCapture => "Screen Capture Key",
            ButtonId::KeyMicMute => "Mic Mute Key",
            ButtonId::KeyPlayPause => "Play/Pause Key",
            ButtonId::KeyMute => "Mute Key",
            ButtonId::KeyVolumeDown => "Volume Down Key",
            ButtonId::KeyVolumeUp => "Volume Up Key",
            ButtonId::HapticPanel => "Haptic Panel",
        }
    }

    /// Every rebindable mouse button in physical front-to-side order — the
    /// iteration source for default-binding seeding and the popover trigger
    /// list.
    pub fn all() -> (buttons: [ButtonId; 13])
        ensures
            forall|i: int| 0 <= i < 13 ==> !is_keyboard_key(#[trigger] buttons[i]),
    {
        [
            ButtonId::LeftClick,
            ButtonId::RightClick,
            ButtonId::MiddleClick,
            ButtonId::WheelTiltLeft,
            ButtonId::WheelTiltRight,
            ButtonId::Back,
            ButtonId::Forward,
            ButtonId::DpiToggle,
            ButtonId::Thumbwheel,
            ButtonId::ThumbwheelScrollUp,
            ButtonId::ThumbwheelScrollDown,
            ButtonId::GestureButton,
            ButtonId::HapticPanel,
        ]
    }

    /// The divertable keyboard F-row controls, in F-row order. Kept out of
    /// [`ButtonId::all`]: keyboard keys stay native unless the user binds them.
    pub fn keyboard_keys() -> (keys: [ButtonId; 9])
        ensures
            forall|i: int| 0 <= i < 9 ==> is_keyboard_key(#[trigger] keys[i]),
    {
        [
            ButtonId::KeySearch,
            ButtonId::KeyDictation,
            ButtonId::KeyEmoji,
            ButtonId::KeyScreenCapture,
            ButtonId::KeyMicMute,
            ButtonId::KeyPlayPause,
            ButtonId::KeyMute,
            ButtonId::KeyVolumeDown,
            ButtonId::KeyVolumeUp,
        ]
    }
}

/// Whether `id` is one of the keyboard F-row controls.
pub open spec fn is_keyboard_key(id: ButtonId) -> bool {
    match id {
        ButtonId::KeySearch | ButtonId::KeyDictation | ButtonId::KeyEmoji
        | ButtonId::KeyScreenCapture | ButtonId::KeyMicMute | ButtonId::KeyPlayPause
        | ButtonId::KeyMute | ButtonId::KeyVolumeDown | ButtonId::KeyVolumeUp => true,
        _ => false,
    }
}

/// The label a button is shown under.
pub open spec fn button_label(id: ButtonId) -> &'static str {
    match id {
        ButtonId::LeftClick => "Left Click",
        ButtonId::RightClick => "Right Click",
        ButtonId::MiddleClick => "Middle Click",
        ButtonId::WheelTiltLeft => "Tilt Left",
        ButtonId::WheelTiltRight => "Tilt Right",
        ButtonId::Back => "Back",
        ButtonId::Forward => "Forward",
        ButtonId::DpiToggle => "DPI Toggle",
        ButtonId::Thumbwheel => "Thumb Wheel",
        ButtonId::ThumbwheelScrollUp => "Thumb Wheel Up",
        ButtonId::ThumbwheelScrollDown => "Thumb Wheel Down",
        ButtonId::GestureButton => "Gesture Button",
        ButtonId::KeySearch => "Search Key",
        ButtonId::KeyDictation => "Dictation Key",
        ButtonId::KeyEmoji => "Emoji Key",
        ButtonId::KeyScreenCapture => "Screen Capture Key",
        ButtonId::KeyMicMute => "Mic Mute Key",
        ButtonId::KeyPlayPause => "Play/Pause Key",
        ButtonId::KeyMute => "Mute Key",
        ButtonId::KeyVolumeDown => "Volume Down Key",
        ButtonId::KeyVolumeUp => "Volume Up Key",
        ButtonId::HapticPanel => "Haptic Panel",
    }
}

/// The hook's policy is consistent: a gesture button is one the hook sees, a
/// button it does not see is never swallowed, and the primary click bound to
/// nothing is never swallowed either.
pub proof fn lemma_suppression_floor(id: ButtonId, action: Action)
    ensures
        !hook_sees(id) ==> !suppressible(id, action),
        action is DoNothing ==> !suppressible(ButtonId::LeftClick, action),
        hook_sees(id) && id != ButtonId::LeftClick ==> suppressible(id, action),
{
}

} // verus!
