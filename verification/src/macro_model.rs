//! The macro data model: what a macro is, independent of how it runs.
//!
//! Step payloads are raw Linux input event codes (`KEY_*` and `BTN_*` from
//! `linux/input-event-codes.h`), the same numbers the model table uses for
//! button slots, so nothing has to translate between layers.

use vstd::prelude::*;

use crate::maps::MapKey;

verus! {

/// Stable identifier for a macro, unique within a configuration.
///
/// It is the key of the config's macro table and the payload a button binding
/// stores, so renaming a macro never invalidates a binding.
#[derive(Clone, Debug, PartialEq, Eq, PartialOrd, Ord, Hash)]
pub struct MacroId(pub String);

impl View for MacroId {
    type V = Seq<char>;

    open spec fn view(&self) -> Seq<char> {
        self.0@
    }
}

impl MapKey for MacroId {
    fn same(&self, other: &Self) -> (same: bool) {
        self.0 == other.0
    }
}

impl MacroId {
    /// A copy of this identifier.
    pub fn duplicate(&self) -> (copy: MacroId)
        ensures
            copy == *self,
    {
        MacroId(self.0.clone())
    }

    /// Whether two identifiers name the same macro.
    pub fn same(&self, other: &MacroId) -> (same: bool)
        ensures
            same == (self@ == other@),
    {
        self.0 == other.0
    }
}

/// One instruction in a macro sequence.
///
/// Press and release are separate steps because the real macros need them:
/// "Hyper" is `Alt down, V tap, Alt up`, which a tap-only model cannot express.
#[derive(Clone, Copy, Debug, PartialEq, Eq, Structural)]
pub enum Step {
    /// Press a key and leave it down.
    KeyDown(u16),
    /// Release a key.
    KeyUp(u16),
    /// Press and release a key.
    KeyTap(u16),
    /// Press a mouse button and leave it down.
    ButtonDown(u16),
    /// Release a mouse button.
    ButtonUp(u16),
    /// Press and release a mouse button.
    ButtonTap(u16),
    /// Wait before the next step.
    Delay {
        /// How long to wait, in milliseconds.
        millis: u32,
    },
}

/// How a macro repeats — G HUB's three modes, no more and no fewer.
#[derive(Clone, Copy, Debug, PartialEq, Eq, Structural)]
pub enum RepeatMode {
    /// Run the sequence once per press.
    Once,
    /// Repeat the sequence every `interval_ms` for as long as the button is held.
    WhileHeld {
        /// Period between the starts of two runs.
        interval_ms: u32,
    },
    /// Repeat the sequence every `interval_ms`, started by one press and
    /// stopped by the next.
    Toggle {
        /// Period between the starts of two runs.
        interval_ms: u32,
    },
}

/// A named sequence of steps and the mode that decides how often it runs.
#[derive(Clone, Debug, PartialEq, Eq)]
pub struct Macro {
    /// The key this macro is stored and referenced under.
    pub id: MacroId,
    /// Human-readable name, shown in the GUI and in an action label.
    pub name: String,
    /// The sequence, executed in order.
    pub steps: Vec<Step>,
    /// How the sequence repeats.
    pub repeat: RepeatMode,
}

impl Macro {
    /// This macro degraded to one pass: the same steps, run once.
    pub fn single_pass(&self) -> (once: Macro)
        ensures
            once.id == self.id,
            once.name == self.name,
            once.steps@ == self.steps@,
            once.repeat == RepeatMode::Once,
    {
        let mut once = self.duplicate();
        once.repeat = RepeatMode::Once;
        once
    }

    /// A copy of this macro, field for field.
    pub fn duplicate(&self) -> (copy: Macro)
        ensures
            copy.id == self.id,
            copy.name == self.name,
            copy.steps@ == self.steps@,
            copy.repeat == self.repeat,
    {
        Macro {
            id: self.id.duplicate(),
            name: self.name.clone(),
            steps: self.steps.clone(),
            repeat: self.repeat,
        }
    }
}

/// The codes a sequence leaves pressed, keys and buttons sharing one code
/// space: a down adds its code, an up removes it, taps and delays change
/// nothing.
pub open spec fn held_after(steps: Seq<Step>) -> Set<u16>
    decreases steps.len(),
{
    if steps.len() == 0 {
        Set::empty()
    } else {
        let before = held_after(steps.drop_last());
        match steps.last() {
            Step::KeyDown(code) => before.insert(code),
            Step::ButtonDown(code) => before.insert(code),
            Step::KeyUp(code) => before.remove(code),
            Step::ButtonUp(code) => before.remove(code),
            _ => before,
        }
    }
}

/// Strictly increasing, hence sorted and free of repeats.
pub open spec fn strictly_increasing(s: Seq<u16>) -> bool {
    forall|i: int, j: int| 0 <= i < j < s.len() ==> s[i] < s[j]
}

/// Inserts `code` into the strictly increasing `held`, keeping it so.
fn insert_sorted(held: &mut Vec<u16>, code: u16)
    requires
        strictly_increasing(old(held)@),
    ensures
        strictly_increasing(final(held)@),
        final(held)@.to_set() == old(held)@.to_set().insert(code),
{
    let mut pos: usize = 0;
    while pos < held.len() && held[pos] < code
        invariant
            0 <= pos <= held@.len(),
            forall|k: int| 0 <= k < pos ==> held@[k] < code,
        decreases held@.len() - pos,
    {
        pos = pos + 1;
    }
    if pos < held.len() && held[pos] == code {
        assert(held@.to_set().insert(code) =~= held@.to_set());
        return ;
    }
    let ghost before = held@;
    held.insert(pos, code);
    assert(held@ == before.insert(pos as int, code));
    assert forall|i: int, j: int| 0 <= i < j < held@.len() implies held@[i] < held@[j] by {
        if j < pos {
        } else if j == pos {
        } else if i < pos {
            assert(before[j - 1] >= code || j - 1 >= pos);
        } else if i == pos {
            assert(before[pos as int] > code);
            assert(before[pos as int] <= before[j - 1]);
        } else {
        }
    }
    assert forall|x: u16| held@.to_set().contains(x) <==> before.to_set().insert(code).contains(x) by {
        if held@.to_set().contains(x) {
            let k = choose|k: int| 0 <= k < held@.len() && held@[k] == x;
            if k < pos {
                assert(before[k] == x);
            } else if k > pos {
                assert(before[k - 1] == x);
            }
        }
        if before.to_set().contains(x) {
            let k = choose|k: int| 0 <= k < before.len() && before[k] == x;
            if k < pos {
                assert(held@[k] == x);
            } else {
                assert(held@[k + 1] == x);
            }
        }
        if x == code {
            assert(held@[pos as int] == code);
        }
    }
    assert(held@.to_set() =~= before.to_set().insert(code));
}

/// Removes `code` from the strictly increasing `held`, keeping it so.
fn remove_sorted(held: &mut Vec<u16>, code: u16)
    requires
        strictly_increasing(old(held)@),
    ensures
        strictly_increasing(final(held)@),
        final(held)@.to_set() == old(held)@.to_set().remove(code),
{
    let mut pos: usize = 0;
    while pos < held.len() && held[pos] != code
        invariant
            0 <= pos <= held@.len(),
            forall|k: int| 0 <= k < pos ==> held@[k] != code,
        decreases held@.len() - pos,
    {
        pos = pos + 1;
    }
    if pos == held.len() {
        assert(held@.to_set().remove(code) =~= held@.to_set());
        return ;
    }
    let ghost before = held@;
    held.remove(pos);
    assert(held@ == before.remove(pos as int));
    assert forall|x: u16| held@.to_set().contains(x) <==> before.to_set().remove(code).contains(x) by {
        if held@.to_set().contains(x) {
            let k = choose|k: int| 0 <= k < held@.len() && held@[k] == x;
            if k < pos {
                assert(before[k] == x);
            } else {
                assert(before[k + 1] == x);
                assert(before[pos as int] < before[k + 1]);
            }
        }
        if before.to_set().contains(x) && x != code {
            let k = choose|k: int| 0 <= k < before.len() && before[k] == x;
            if k < pos {
                assert(held@[k] == x);
            } else {
                assert(k != pos);
                assert(held@[k - 1] == x);
            }
        }
    }
    assert(held@.to_set() =~= before.to_set().remove(code));
}

impl Macro {
    /// Every input code that one run of this macro could leave pressed.
    ///
    /// A code pressed and released within the sequence is balanced and is not
    /// reported, because emitting a release for it would inject a spurious up
    /// event. Keys and buttons share one code space in `EV_KEY`, so one set
    /// covers both. The result is sorted, so it is deterministic.
    pub fn held_codes(&self) -> (codes: Vec<u16>)
        ensures
            strictly_increasing(codes@),
            codes@.to_set() == held_after(self.steps@),
    {
        let mut held: Vec<u16> = Vec::new();
        let mut i: usize = 0;
        assert(held@.to_set() =~= Set::<u16>::empty());
        while i < self.steps.len()
            invariant
                0 <= i <= self.steps@.len(),
                strictly_increasing(held@),
                held@.to_set() == held_after(self.steps@.take(i as int)),
            decreases self.steps@.len() - i,
        {
            let ghost prefix = self.steps@.take(i as int + 1);
            assert(prefix.drop_last() =~= self.steps@.take(i as int));
            match self.steps[i] {
                Step::KeyDown(code) => insert_sorted(&mut held, code),
                Step::ButtonDown(code) => insert_sorted(&mut held, code),
                Step::KeyUp(code) => remove_sorted(&mut held, code),
                Step::ButtonUp(code) => remove_sorted(&mut held, code),
                _ => {},
            }
            i = i + 1;
        }
        assert(self.steps@.take(self.steps@.len() as int) =~= self.steps@);
        held
    }
}

} // verus!
