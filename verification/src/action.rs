//! What a button can be bound to.
//!
//! An [`Action`] is what one press fires; a [`Binding`] is how a button
//! carries it — as a single action, or as a short/long pair. A
//! [`KeyCombo`] is a chord of modifiers and one key, which a held shortcut
//! keeps pressed for as long as its button is.

use vstd::prelude::*;

use crate::button::ButtonId;
use crate::macro_model::MacroId;
use crate::maps::MapKey;

verus! {

/// The four modifier keys, as the config and the hook both describe them.
#[derive(Clone, Copy, Debug, PartialEq, Eq, Structural, Hash, PartialOrd, Ord, Default)]
pub struct KeyModifiers {
    /// Shift.
    pub shift: bool,
    /// Control.
    pub control: bool,
    /// Option (Alt).
    pub option: bool,
    /// Command (Super).
    pub command: bool,
}

/// A chord: modifiers plus one key, by its Linux input event code.
#[derive(Clone, Copy, Debug, PartialEq, Eq, Structural, Hash, PartialOrd, Ord)]
pub struct KeyCombo {
    /// Modifiers held around the key.
    pub modifiers: KeyModifiers,
    /// The key, as a `KEY_*` code.
    pub key: u16,
}

/// A keyboard trigger: a function key and the modifiers held with it.
#[derive(Clone, Copy, Debug, PartialEq, Eq, Structural, Hash, PartialOrd, Ord)]
pub struct KeyTrigger {
    /// The key, as a `KEY_*` code.
    pub keycode: u16,
    /// Modifiers held with it.
    pub modifiers: KeyModifiers,
}

impl View for KeyTrigger {
    type V = KeyTrigger;

    open spec fn view(&self) -> KeyTrigger {
        *self
    }
}

impl MapKey for KeyTrigger {
    fn same(&self, other: &Self) -> (same: bool) {
        *self == *other
    }
}

/// A direction of an OS-hook hold-and-swipe gesture, or the plain click.
#[derive(Clone, Copy, Debug, PartialEq, Eq, Structural, Hash, PartialOrd, Ord)]
pub enum GestureDirection {
    /// Swipe up.
    Up,
    /// Swipe down.
    Down,
    /// Swipe left.
    Left,
    /// Swipe right.
    Right,
    /// No swipe: the press and release of the button itself.
    Click,
}

impl View for GestureDirection {
    type V = GestureDirection;

    open spec fn view(&self) -> GestureDirection {
        *self
    }
}

impl MapKey for GestureDirection {
    fn same(&self, other: &Self) -> (same: bool) {
        *self == *other
    }
}

/// What one press of a button fires.
#[derive(Clone, Debug, PartialEq, Eq)]
pub enum Action {
    /// Nothing at all.
    DoNothing,
    /// Not an action: the OS hook consumes it as the G-Shift layer switch.
    GShift,
    /// Run a macro from the config's macro table.
    RunMacro(MacroId),
    /// Hold a chord down for as long as the button is.
    HoldShortcut(KeyCombo),
    /// Copy.
    Copy,
    /// Paste.
    Paste,
    /// A primary click.
    LeftClick,
    /// A secondary click.
    RightClick,
    /// A wheel click.
    MiddleClick,
    /// Mouse button 4.
    MouseBack,
    /// Mouse button 5.
    MouseForward,
    /// Browser history back.
    BrowserBack,
    /// Browser history forward.
    BrowserForward,
    /// Next tab.
    NextTab,
    /// Previous tab.
    PrevTab,
    /// Show all windows.
    MissionControl,
    /// Open the Actions Ring.
    ShowActionsRing,
    /// Step to the next DPI preset.
    CycleDpiPresets,
    /// Jump to one DPI preset.
    SetDpiPreset(u8),
    /// Flip the wheel between ratchet and free spin.
    ToggleSmartShift,
    /// Scroll horizontally to the left.
    HorizontalScrollLeft,
    /// Scroll horizontally to the right.
    HorizontalScrollRight,
}

/// Two actions fire the same thing: the same variant, the same macro by its
/// identifier's text, the same chord, the same preset.
pub open spec fn same_action(a: Action, b: Action) -> bool {
    match (a, b) {
        (Action::RunMacro(x), Action::RunMacro(y)) => x@ == y@,
        (Action::HoldShortcut(x), Action::HoldShortcut(y)) => x == y,
        (Action::SetDpiPreset(x), Action::SetDpiPreset(y)) => x == y,
        (Action::RunMacro(_), _) => false,
        (Action::HoldShortcut(_), _) => false,
        (Action::SetDpiPreset(_), _) => false,
        (_, Action::RunMacro(_)) => false,
        (_, Action::HoldShortcut(_)) => false,
        (_, Action::SetDpiPreset(_)) => false,
        _ => a == b,
    }
}

impl Action {
    /// A copy of this action.
    pub fn duplicate(&self) -> (copy: Action)
        ensures
            copy == *self,
    {
        match self {
            Action::RunMacro(id) => Action::RunMacro(id.duplicate()),
            Action::HoldShortcut(combo) => Action::HoldShortcut(*combo),
            Action::SetDpiPreset(i) => Action::SetDpiPreset(*i),
            Action::DoNothing => Action::DoNothing,
            Action::GShift => Action::GShift,
            Action::Copy => Action::Copy,
            Action::Paste => Action::Paste,
            Action::LeftClick => Action::LeftClick,
            Action::RightClick => Action::RightClick,
            Action::MiddleClick => Action::MiddleClick,
            Action::MouseBack => Action::MouseBack,
            Action::MouseForward => Action::MouseForward,
            Action::BrowserBack => Action::BrowserBack,
            Action::BrowserForward => Action::BrowserForward,
            Action::NextTab => Action::NextTab,
            Action::PrevTab => Action::PrevTab,
            Action::MissionControl => Action::MissionControl,
            Action::ShowActionsRing => Action::ShowActionsRing,
            Action::CycleDpiPresets => Action::CycleDpiPresets,
            Action::ToggleSmartShift => Action::ToggleSmartShift,
            Action::HorizontalScrollLeft => Action::HorizontalScrollLeft,
            Action::HorizontalScrollRight => Action::HorizontalScrollRight,
        }
    }

    /// Whether this is [`Action::DoNothing`].
    pub fn does_nothing(&self) -> (none: bool)
        ensures
            none == (*self is DoNothing),
    {
        match self {
            Action::DoNothing => true,
            _ => false,
        }
    }

    /// Whether this is the G-Shift trigger.
    pub fn is_gshift(&self) -> (gshift: bool)
        ensures
            gshift == (*self is GShift),
    {
        match self {
            Action::GShift => true,
            _ => false,
        }
    }

    /// Whether two actions fire the same thing.
    pub fn same(&self, other: &Action) -> (same: bool)
        ensures
            same == same_action(*self, *other),
    {
        match (self, other) {
            (Action::RunMacro(x), Action::RunMacro(y)) => x.same(y),
            (Action::HoldShortcut(x), Action::HoldShortcut(y)) => *x == *y,
            (Action::SetDpiPreset(x), Action::SetDpiPreset(y)) => *x == *y,
            (Action::RunMacro(_), _) => false,
            (Action::HoldShortcut(_), _) => false,
            (Action::SetDpiPreset(_), _) => false,
            (_, Action::RunMacro(_)) => false,
            (_, Action::HoldShortcut(_)) => false,
            (_, Action::SetDpiPreset(_)) => false,
            _ => self.variant() == other.variant(),
        }
    }

    /// The chord this action holds for the lifetime of its press, if it is a
    /// held shortcut.
    pub fn held_combo(&self) -> (combo: Option<KeyCombo>)
        ensures
            combo == held_combo_of(*self),
    {
        match self {
            Action::HoldShortcut(combo) => Some(*combo),
            _ => None,
        }
    }

    /// The position of this action's variant in declaration order.
    fn variant(&self) -> (n: u8)
        ensures
            n == variant_of(*self),
    {
        match self {
            Action::DoNothing => 0,
            Action::GShift => 1,
            Action::RunMacro(_) => 2,
            Action::HoldShortcut(_) => 3,
            Action::Copy => 4,
            Action::Paste => 5,
            Action::LeftClick => 6,
            Action::RightClick => 7,
            Action::MiddleClick => 8,
            Action::MouseBack => 9,
            Action::MouseForward => 10,
            Action::BrowserBack => 11,
            Action::BrowserForward => 12,
            Action::NextTab => 13,
            Action::PrevTab => 14,
            Action::MissionControl => 15,
            Action::ShowActionsRing => 16,
            Action::CycleDpiPresets => 17,
            Action::SetDpiPreset(_) => 18,
            Action::ToggleSmartShift => 19,
            Action::HorizontalScrollLeft => 20,
            Action::HorizontalScrollRight => 21,
        }
    }
}

/// The position of an action's variant in declaration order.
pub open spec fn variant_of(a: Action) -> u8 {
    match a {
        Action::DoNothing => 0,
        Action::GShift => 1,
        Action::RunMacro(_) => 2,
        Action::HoldShortcut(_) => 3,
        Action::Copy => 4,
        Action::Paste => 5,
        Action::LeftClick => 6,
        Action::RightClick => 7,
        Action::MiddleClick => 8,
        Action::MouseBack => 9,
        Action::MouseForward => 10,
        Action::BrowserBack => 11,
        Action::BrowserForward => 12,
        Action::NextTab => 13,
        Action::PrevTab => 14,
        Action::MissionControl => 15,
        Action::ShowActionsRing => 16,
        Action::CycleDpiPresets => 17,
        Action::SetDpiPreset(_) => 18,
        Action::ToggleSmartShift => 19,
        Action::HorizontalScrollLeft => 20,
        Action::HorizontalScrollRight => 21,
    }
}

/// The chord a held shortcut keeps down.
pub open spec fn held_combo_of(a: Action) -> Option<KeyCombo> {
    match a {
        Action::HoldShortcut(combo) => Some(combo),
        _ => None,
    }
}

/// A button's short/long pair: the short action fires on a click, the long
/// one once the button has been held past the threshold.
#[derive(Clone, Debug, PartialEq, Eq)]
pub struct LongPressBinding {
    /// What a click fires.
    pub short: Action,
    /// What a long press fires.
    pub long: Action,
}

impl LongPressBinding {
    /// A binding that fires `short` on a click and `long` on a long press.
    pub fn new(short: Action, long: Action) -> (binding: LongPressBinding)
        ensures
            binding.short == short,
            binding.long == long,
    {
        LongPressBinding { short, long }
    }
}

/// How a button carries its action.
#[derive(Clone, Debug, PartialEq, Eq)]
pub enum Binding {
    /// One action, fired on press.
    Single(Action),
    /// A short action and a long one.
    LongPress(LongPressBinding),
}

/// The action a plain click of a binding fires.
pub open spec fn click_action_of(b: Binding) -> Action {
    match b {
        Binding::Single(a) => a,
        Binding::LongPress(pair) => pair.short,
    }
}

impl Binding {
    /// The action a plain click fires.
    pub fn click_action(&self) -> (action: Action)
        ensures
            action == click_action_of(*self),
    {
        match self {
            Binding::Single(a) => a.duplicate(),
            Binding::LongPress(pair) => pair.short.duplicate(),
        }
    }

    /// A copy of this binding.
    pub fn duplicate(&self) -> (copy: Binding)
        ensures
            copy == *self,
    {
        match self {
            Binding::Single(a) => Binding::Single(a.duplicate()),
            Binding::LongPress(pair) => Binding::LongPress(
                LongPressBinding { short: pair.short.duplicate(), long: pair.long.duplicate() },
            ),
        }
    }
}

/// What a button does with no binding of its own: the native function of the
/// mouse buttons, the Actions Ring on the gesture controls, horizontal scroll
/// on the thumb wheel, DPI cycling on the mode-shift button, nothing elsewhere.
pub open spec fn default_action(id: ButtonId) -> Action {
    match id {
        ButtonId::LeftClick => Action::LeftClick,
        ButtonId::RightClick => Action::RightClick,
        ButtonId::MiddleClick => Action::MiddleClick,
        ButtonId::Back => Action::MouseBack,
        ButtonId::Forward => Action::MouseForward,
        ButtonId::DpiToggle => Action::CycleDpiPresets,
        ButtonId::ThumbwheelScrollUp => Action::HorizontalScrollLeft,
        ButtonId::ThumbwheelScrollDown => Action::HorizontalScrollRight,
        ButtonId::GestureButton => Action::ShowActionsRing,
        ButtonId::HapticPanel => Action::ShowActionsRing,
        _ => Action::DoNothing,
    }
}

/// What a button does with no binding of its own.
pub fn default_binding(id: ButtonId) -> (action: Action)
    ensures
        action == default_action(id),
{
    match id {
        ButtonId::LeftClick => Action::LeftClick,
        ButtonId::RightClick => Action::RightClick,
        ButtonId::MiddleClick => Action::MiddleClick,
        ButtonId::Back => Action::MouseBack,
        ButtonId::Forward => Action::MouseForward,
        ButtonId::DpiToggle => Action::CycleDpiPresets,
        ButtonId::ThumbwheelScrollUp => Action::HorizontalScrollLeft,
        ButtonId::ThumbwheelScrollDown => Action::HorizontalScrollRight,
        ButtonId::GestureButton => Action::ShowActionsRing,
        ButtonId::HapticPanel => Action::ShowActionsRing,
        _ => Action::DoNothing,
    }
}

} // verus!
