//! The action runtime's decisions: which press owns which held chord, how an
//! action is routed, and when a browser navigation is a duplicate.
//!
//! Injection, DPI writes and channels are the runtime's outside work; what to
//! do for an action, and which press a held output belongs to, is decided
//! here.

use vstd::prelude::*;

use crate::action::{held_combo_of, Action, KeyCombo};
use crate::macro_model::MacroId;
use crate::maps::AssocMap;
use crate::macro_runs::MacroRuns;
use crate::press::PressToken;

verus! {

/// Output transition when an action starts within one physical press.
#[derive(Debug, PartialEq, Eq, Structural)]
pub enum HoldStart {
    /// The action is instantaneous and belongs to ordinary dispatch.
    NotHeld,
    /// This press newly owns one held chord.
    Started(KeyCombo),
    /// The same press changed its held action; the old chord is released as
    /// the new one goes down.
    Replaced {
        /// The chord released.
        old: KeyCombo,
        /// The chord pressed.
        new: KeyCombo,
    },
}

/// Held output owned by accepted presses. Every press has exactly one
/// terminal event, so release, cancellation, invalidation and shutdown all
/// end a held chord through [`HeldShortcuts::end`].
pub struct HeldShortcuts {
    by_press: AssocMap<PressToken, KeyCombo>,
}

impl HeldShortcuts {
    /// Which chord each live press holds.
    pub closed spec fn held(&self) -> Map<PressToken, KeyCombo> {
        self.by_press@
    }

    /// No press holds anything.
    pub fn new() -> (held: HeldShortcuts)
        ensures
            held.held() == Map::<PressToken, KeyCombo>::empty(),
    {
        HeldShortcuts { by_press: AssocMap::new() }
    }

    /// Start `action` on behalf of `press`: a held shortcut becomes this
    /// press's held chord, replacing the one it held before; anything else is
    /// instantaneous and changes nothing here.
    pub fn start(&mut self, press: &PressToken, action: &Action) -> (start: HoldStart)
        ensures
            held_combo_of(*action) is None ==> start == HoldStart::NotHeld && final(self).held()
                == old(self).held(),
            held_combo_of(*action) matches Some(combo) ==> {
                &&& final(self).held() == old(self).held().insert(*press, combo)
                &&& start == if old(self).held().contains_key(*press) {
                    HoldStart::Replaced { old: old(self).held()[*press], new: combo }
                } else {
                    HoldStart::Started(combo)
                }
            },
    {
        let combo = match action.held_combo() {
            Some(combo) => combo,
            None => return HoldStart::NotHeld,
        };
        match self.by_press.insert(*press, combo) {
            Some(old) => HoldStart::Replaced { old, new: combo },
            None => HoldStart::Started(combo),
        }
    }

    /// End `press`, handing back the chord it held for release.
    pub fn end(&mut self, press: &PressToken) -> (released: Option<KeyCombo>)
        ensures
            final(self).held() == old(self).held().remove(*press),
            released is Some <==> old(self).held().contains_key(*press),
            released matches Some(c) ==> c == old(self).held()[*press],
    {
        self.by_press.remove(press)
    }
}

/// What starting an action within a press amounts to.
#[derive(Debug, PartialEq, Eq)]
pub enum StartEffect {
    /// Start the macro for the lifetime of the press.
    RunMacro(MacroId),
    /// An instantaneous action: route it through ordinary dispatch.
    Dispatch,
    /// Press and hold this chord.
    PressHold(KeyCombo),
    /// Release the old chord and hold the new one.
    ReplaceHold {
        /// The chord released.
        old: KeyCombo,
        /// The chord pressed.
        new: KeyCombo,
    },
}

/// Start `action` for `press`. A macro run is neither instantaneous nor a held
/// chord: it hangs off the press's terminal event like a held chord does, so
/// it is handed to the macro runner and leaves the held chords alone.
pub fn start_action(held: &mut HeldShortcuts, press: &PressToken, action: &Action) -> (effect:
    StartEffect)
    ensures
        *action is RunMacro ==> effect == StartEffect::RunMacro(action->RunMacro_0)
            && final(held).held() == old(held).held(),
        !(*action is RunMacro) && held_combo_of(*action) is None ==> effect == StartEffect::Dispatch
            && final(held).held() == old(held).held(),
        !(*action is RunMacro) ==> (held_combo_of(*action) matches Some(combo) ==> {
            &&& final(held).held() == old(held).held().insert(*press, combo)
            &&& effect == if old(held).held().contains_key(*press) {
                StartEffect::ReplaceHold { old: old(held).held()[*press], new: combo }
            } else {
                StartEffect::PressHold(combo)
            }
        }),
{
    if let Action::RunMacro(id) = action {
        return StartEffect::RunMacro(id.duplicate());
    }
    match held.start(press, action) {
        HoldStart::NotHeld => StartEffect::Dispatch,
        HoldStart::Started(combo) => StartEffect::PressHold(combo),
        HoldStart::Replaced { old, new } => StartEffect::ReplaceHold { old, new },
    }
}

/// Where a dispatched action goes.
#[derive(Debug, PartialEq, Eq)]
pub enum DispatchRoute {
    /// A macro with no press behind it: one pass, never a repeat nothing
    /// would stop.
    RunMacroOnce(MacroId),
    /// The Actions Ring runtime.
    ShowActionsRing,
    /// The next DPI preset of the active device.
    CycleDpiPresets,
    /// One DPI preset of the active device.
    SetDpiPreset(u8),
    /// The wheel-mode toggle of the active device.
    ToggleSmartShift,
    /// A browser navigation, debounced across capture paths.
    BrowserNavigation,
    /// The input injector.
    Inject,
}

/// Where `action` is dispatched.
pub open spec fn route_of(action: Action) -> DispatchRoute {
    match action {
        Action::RunMacro(id) => DispatchRoute::RunMacroOnce(id),
        Action::ShowActionsRing => DispatchRoute::ShowActionsRing,
        Action::CycleDpiPresets => DispatchRoute::CycleDpiPresets,
        Action::SetDpiPreset(i) => DispatchRoute::SetDpiPreset(i),
        Action::ToggleSmartShift => DispatchRoute::ToggleSmartShift,
        Action::BrowserBack => DispatchRoute::BrowserNavigation,
        Action::BrowserForward => DispatchRoute::BrowserNavigation,
        _ => DispatchRoute::Inject,
    }
}

/// Route one action. A dispatch with no press behind it owns no release, so
/// a macro degrades to a single pass here.
pub fn dispatch_route(action: &Action) -> (route: DispatchRoute)
    ensures
        route == route_of(*action),
{
    match action {
        Action::RunMacro(id) => DispatchRoute::RunMacroOnce(id.duplicate()),
        Action::ShowActionsRing => DispatchRoute::ShowActionsRing,
        Action::CycleDpiPresets => DispatchRoute::CycleDpiPresets,
        Action::SetDpiPreset(i) => DispatchRoute::SetDpiPreset(*i),
        Action::ToggleSmartShift => DispatchRoute::ToggleSmartShift,
        Action::BrowserBack | Action::BrowserForward => DispatchRoute::BrowserNavigation,
        _ => DispatchRoute::Inject,
    }
}

/// Minimum time between two BrowserBack (or two BrowserForward) dispatches
/// shared across the OS-hook and HID++ capture paths: 150 ms, in nanoseconds.
pub const BROWSER_NAV_DEBOUNCE_NS: u64 = 150_000_000;

/// Per-direction last-dispatch instants.
pub struct BrowserNavDebounce {
    /// The last BrowserBack dispatch.
    pub last_back: Option<u64>,
    /// The last BrowserForward dispatch.
    pub last_forward: Option<u64>,
}

/// Whether a dispatch at `now` fires after one at `last`: the first always
/// does, a later one once the debounce has passed. A clock read before `last`
/// counts as no time passed.
pub open spec fn nav_fires(last: Option<u64>, now: u64) -> bool {
    match last {
        None => true,
        Some(t) => now >= t && now - t >= BROWSER_NAV_DEBOUNCE_NS,
    }
}

impl BrowserNavDebounce {
    /// Nothing dispatched yet.
    pub fn new() -> (debounce: BrowserNavDebounce)
        ensures
            debounce.last_back is None,
            debounce.last_forward is None,
    {
        BrowserNavDebounce { last_back: None, last_forward: None }
    }
}

/// Whether a browser navigation at `now_ns` fires, recording it when it does.
/// BrowserForward has its own slot; every other action shares the back slot.
/// On devices where one physical press is visible through two capture paths,
/// this makes the browser navigate once.
pub fn browser_nav_debounce_ok(
    debounce: &mut BrowserNavDebounce,
    action: &Action,
    now_ns: u64,
) -> (fire: bool)
    ensures
        *action is BrowserForward ==> {
            &&& fire == nav_fires(old(debounce).last_forward, now_ns)
            &&& final(debounce).last_forward == if fire {
                Some(now_ns)
            } else {
                old(debounce).last_forward
            }
            &&& final(debounce).last_back == old(debounce).last_back
        },
        !(*action is BrowserForward) ==> {
            &&& fire == nav_fires(old(debounce).last_back, now_ns)
            &&& final(debounce).last_back == if fire {
                Some(now_ns)
            } else {
                old(debounce).last_back
            }
            &&& final(debounce).last_forward == old(debounce).last_forward
        },
{
    let forward = match action {
        Action::BrowserForward => true,
        _ => false,
    };
    let last = if forward {
        debounce.last_forward
    } else {
        debounce.last_back
    };
    let fire = match last {
        None => true,
        Some(t) => now_ns >= t && now_ns - t >= BROWSER_NAV_DEBOUNCE_NS,
    };
    if fire {
        if forward {
            debounce.last_forward = Some(now_ns);
        } else {
            debounce.last_back = Some(now_ns);
        }
    }
    fire
}

/// Two navigations in one direction that both fire are at least the debounce
/// apart.
pub proof fn lemma_fired_navigations_are_spaced(first: u64, second: u64)
    requires
        nav_fires(Some(first), second),
    ensures
        second >= first + BROWSER_NAV_DEBOUNCE_NS,
{
}

/// What a press's terminal event ends: the chord it held, to release, and
/// the macro run it owned, to stop.
pub struct PressEnd<H> {
    /// The chord to release.
    pub release: Option<KeyCombo>,
    /// The run to stop.
    pub stop: Option<H>,
}

/// End `press`. Every terminal outcome arrives here — release, a lost
/// release, a dead source, an invalidated generation, shutdown — so a held
/// chord and a macro run owned by the press each have exactly one place to
/// end, and no reason needs a path of its own. Latched toggle runs are owned
/// by their control, not the press, and stay.
pub fn end_press<H>(held: &mut HeldShortcuts, runs: &mut MacroRuns<H>, press: &PressToken) -> (ended:
    PressEnd<H>)
    ensures
        final(held).held() == old(held).held().remove(*press),
        ended.release is Some <==> old(held).held().contains_key(*press),
        ended.release matches Some(c) ==> c == old(held).held()[*press],
        ended.stop is Some <==> old(runs).pressing().contains(*press),
        ended.stop matches Some(h) ==> h == old(runs).press_map()[*press],
        final(runs).pressing() == old(runs).pressing().remove(*press),
        final(runs).press_map() == old(runs).press_map().remove(*press),
        final(runs).latched() == old(runs).latched(),
        final(runs).latch_map() == old(runs).latch_map(),
{
    let release = held.end(press);
    let stop = runs.end_press(press);
    PressEnd { release, stop }
}

/// After its terminal event a press owns nothing: a second end releases no
/// chord and stops no run.
pub proof fn lemma_a_press_ends_once(
    held: Map<PressToken, KeyCombo>,
    pressing: Set<PressToken>,
    press: PressToken,
)
    ensures
        !held.remove(press).contains_key(press),
        !pressing.remove(press).contains(press),
{
}

} // verus!
