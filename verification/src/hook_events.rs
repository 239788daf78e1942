//! The OS-hook callbacks: one mouse-button edge, one pointer move, one key
//! edge, or an interruption, decided against the hook thread's state.
//!
//! The runtime the decisions are handed to sits behind [`HookDispatch`]; the
//! hook thread owns one [`HookThread`] and the process one G-Shift flag.

use vstd::prelude::*;

use crate::action::{click_action_of, Action, Binding, KeyModifiers, KeyTrigger};
use crate::button::{hook_sees, ButtonId};
use crate::gesture::{crosses, direction_of, elapsed, HoldState, STALE_HOLD_NS};
use crate::hook::{
    binding_passes_through, convert_modifiers, disposition_of, is_trigger_in, layer_set_after,
    passes_through, press_disposition, press_layer, queued_event_disposition, release_disposition,
    gesture_click, gesture_swipe, resolve_gesture_click, resolve_gesture_swipe, resolved_in, trigger_edge, trigger_held_after,
    trigger_transition, EventDisposition, HookMaps,
};
use crate::maps::AssocMap;
use crate::press::PressToken;

verus! {

/// One request the hook hands to the action runtime.
#[derive(Debug, PartialEq, Eq)]
pub enum HookRequest {
    /// An OS-hook down edge of `button`, with the binding that remaps it, or
    /// `None` for a gesture hold.
    ButtonDown(ButtonId, Option<Binding>),
    /// An OS-hook up edge.
    ButtonUp(ButtonId),
    /// Fire `action` if the press is still live.
    DispatchWhilePressed(PressToken, Action),
    /// End a gesture hold whose release was lost.
    CancelStalePress(PressToken),
    /// A function-key down edge for a held chord.
    KeyDown(u16, Action),
    /// A function-key up edge.
    KeyUp(u16),
    /// An instantaneous action for the off-thread worker.
    QueueAction(Action),
    /// End every press the hook thread owns: capture was interrupted.
    CancelHookThreadButtons,
}

/// The binding a borrowed optional binding names.
pub open spec fn binding_of(binding: Option<&Binding>) -> Option<Binding> {
    match binding {
        Some(b) => Some(*b),
        None => None,
    }
}

/// The action runtime the hook hands its decisions to. Every method is
/// non-blocking: a `false` or `None` means the runtime refused the edge, and
/// the hook then fails open. Every call appends its request to
/// [`HookDispatch::requests`], the runtime's account of what it was handed.
pub trait HookDispatch {
    /// Every request handed over, in order.
    spec fn requests(&self) -> Seq<HookRequest>;

    /// The runtime's answer to every request that gets one, in order: whether
    /// it accepted the edge or action.
    spec fn answers(&self) -> Seq<bool>;

    /// Queue one OS-hook down edge; the token identifies the accepted press.
    fn try_hook_button_down(&mut self, button: ButtonId, binding: Option<&Binding>) -> (press:
        Option<PressToken>)
        ensures
            final(self).requests() == old(self).requests().push(
                HookRequest::ButtonDown(button, binding_of(binding)),
            ),
            final(self).answers() == old(self).answers().push(press is Some),
    ;

    /// Queue one OS-hook up edge.
    fn try_hook_button_up(&mut self, button: ButtonId) -> (queued: bool)
        ensures
            final(self).requests() == old(self).requests().push(HookRequest::ButtonUp(button)),
            final(self).answers() == old(self).answers().push(queued),
    ;

    /// Execute a gesture action only if its exact press is still live.
    fn try_dispatch_while_pressed(&mut self, press: &PressToken, action: &Action) -> (fired: bool)
        ensures
            final(self).requests() == old(self).requests().push(
                HookRequest::DispatchWhilePressed(*press, *action),
            ),
            final(self).answers() == old(self).answers().push(fired),
    ;

    /// End a gesture hold whose release was lost.
    fn cancel_stale_hook_press(&mut self, press: &PressToken)
        ensures
            final(self).requests() == old(self).requests().push(
                HookRequest::CancelStalePress(*press),
            ),
            final(self).answers() == old(self).answers(),
    ;

    /// Queue one function-key down edge for a held chord.
    fn try_hook_key_down(&mut self, keycode: u16, action: &Action) -> (queued: bool)
        ensures
            final(self).requests() == old(self).requests().push(HookRequest::KeyDown(keycode, *action)),
            final(self).answers() == old(self).answers().push(queued),
    ;

    /// Queue one function-key up edge.
    fn try_hook_key_up(&mut self, keycode: u16) -> (queued: bool)
        ensures
            final(self).requests() == old(self).requests().push(HookRequest::KeyUp(keycode)),
            final(self).answers() == old(self).answers().push(queued),
    ;

    /// Queue an instantaneous action for the off-thread worker.
    fn try_queue_action(&mut self, action: Action) -> (queued: bool)
        ensures
            final(self).requests() == old(self).requests().push(HookRequest::QueueAction(action)),
            final(self).answers() == old(self).answers().push(queued),
    ;

    /// End every press the hook thread owns.
    fn cancel_hook_thread_buttons(&mut self)
        ensures
            final(self).requests() == old(self).requests().push(
                HookRequest::CancelHookThreadButtons,
            ),
            final(self).answers() == old(self).answers(),
    ;
}

/// A runtime that keeps every request it is handed and answers all of them
/// the same way: accepting, or refusing. Accepted presses are numbered from
/// one.
pub struct ScriptedDispatcher {
    requests: Vec<HookRequest>,
    answers: Vec<bool>,
    accepting: bool,
    serial: u64,
}

impl ScriptedDispatcher {
    /// A runtime that accepts every edge when `accepting`, and refuses every
    /// one otherwise.
    pub fn new(accepting: bool) -> (dispatcher: ScriptedDispatcher)
        ensures
            dispatcher.requests() == Seq::<HookRequest>::empty(),
            dispatcher.answers() == Seq::<bool>::empty(),
    {
        ScriptedDispatcher { requests: Vec::new(), answers: Vec::new(), accepting, serial: 0 }
    }

    /// The requests handed over so far, in order.
    pub fn handed(&self) -> (requests: &Vec<HookRequest>)
        ensures
            requests@ == self.requests(),
    {
        &self.requests
    }
}

impl HookDispatch for ScriptedDispatcher {
    closed spec fn requests(&self) -> Seq<HookRequest> {
        self.requests@
    }

    closed spec fn answers(&self) -> Seq<bool> {
        self.answers@
    }

    fn try_hook_button_down(&mut self, button: ButtonId, binding: Option<&Binding>) -> (press:
        Option<PressToken>) {
        let copy = match binding {
            Some(b) => Some(b.duplicate()),
            None => None,
        };
        self.requests.push(HookRequest::ButtonDown(button, copy));
        if self.accepting && self.serial < u64::MAX {
            self.serial = self.serial + 1;
            self.answers.push(true);
            Some(PressToken::button(self.serial, button))
        } else {
            self.answers.push(false);
            None
        }
    }

    fn try_hook_button_up(&mut self, button: ButtonId) -> (queued: bool) {
        self.requests.push(HookRequest::ButtonUp(button));
        self.answers.push(self.accepting);
        self.accepting
    }

    fn try_dispatch_while_pressed(&mut self, press: &PressToken, action: &Action) -> (fired: bool) {
        self.requests.push(HookRequest::DispatchWhilePressed(*press, action.duplicate()));
        self.answers.push(self.accepting);
        self.accepting
    }

    fn cancel_stale_hook_press(&mut self, press: &PressToken) {
        self.requests.push(HookRequest::CancelStalePress(*press));
    }

    fn try_hook_key_down(&mut self, keycode: u16, action: &Action) -> (queued: bool) {
        self.requests.push(HookRequest::KeyDown(keycode, action.duplicate()));
        self.answers.push(self.accepting);
        self.accepting
    }

    fn try_hook_key_up(&mut self, keycode: u16) -> (queued: bool) {
        self.requests.push(HookRequest::KeyUp(keycode));
        self.answers.push(self.accepting);
        self.accepting
    }

    fn try_queue_action(&mut self, action: Action) -> (queued: bool) {
        self.requests.push(HookRequest::QueueAction(action));
        self.answers.push(self.accepting);
        self.accepting
    }

    fn cancel_hook_thread_buttons(&mut self) {
        self.requests.push(HookRequest::CancelHookThreadButtons);
    }
}

/// What one hook-callback thread remembers between events.
pub struct HookThread {
    /// The gesture hold in progress, if any.
    pub hold: HoldState,
    /// What each held button's press decided, so its release repeats it.
    pub press_dispositions: AssocMap<ButtonId, EventDisposition>,
    /// Function keys whose held chord owns an accepted press.
    pub held_keys: AssocMap<u16, ()>,
    /// Buttons whose press resolved in the G-Shift layer.
    pub shifted_presses: AssocMap<ButtonId, ()>,
    /// The physical button whose press opened the G-Shift layer.
    pub trigger_held: Option<ButtonId>,
}

impl HookThread {
    /// The invariant of the gesture hold.
    pub open spec fn wf(&self) -> bool {
        self.hold.wf()
    }

    /// A thread that has seen nothing yet.
    pub fn new() -> (state: HookThread)
        ensures
            state.wf(),
            state.hold.held() is None,
            state.press_dispositions@ == Map::<ButtonId, EventDisposition>::empty(),
            state.held_keys@ == Map::<u16, ()>::empty(),
            state.shifted_presses@ == Map::<ButtonId, ()>::empty(),
            state.trigger_held is None,
    {
        HookThread {
            hold: HoldState::new(),
            press_dispositions: AssocMap::new(),
            held_keys: AssocMap::new(),
            shifted_presses: AssocMap::new(),
            trigger_held: None,
        }
    }

    /// Capture was interrupted: forget every hold, held key, layer record and
    /// the trigger, close the G-Shift layer, and have the runtime end every
    /// press this thread owns, without firing anything.
    pub fn interrupt<D: HookDispatch>(&mut self, g_shift_held: &mut bool, dispatcher: &mut D)
        requires
            old(self).wf(),
        ensures
            final(dispatcher).requests() == old(dispatcher).requests().push(
                HookRequest::CancelHookThreadButtons,
            ),
            final(self).wf(),
            final(self).hold.held() is None,
            final(self).held_keys@ == Map::<u16, ()>::empty(),
            final(self).shifted_presses@ == Map::<ButtonId, ()>::empty(),
            final(self).trigger_held is None,
            final(self).press_dispositions@ == old(self).press_dispositions@,
            !*final(g_shift_held),
    {
        self.hold.cancel();
        self.held_keys.take_all();
        self.shifted_presses.take_all();
        self.trigger_held = None;
        *g_shift_held = false;
        dispatcher.cancel_hook_thread_buttons();
    }
}

/// Whether `id` takes the gesture path in the given layer: it has a gesture
/// map, unless the G-Shift layer rebinds it.
pub open spec fn gesture_bound(maps: HookMaps, id: ButtonId, shifted: bool) -> bool {
    maps.gestures@.contains_key(id) && !(shifted && maps.g_shift@.contains_key(id))
}

/// Whether the map binds `id`, in the given layer, to something the hook
/// swallows.
pub open spec fn remapped_in(maps: HookMaps, id: ButtonId, shifted: bool) -> bool {
    match resolved_in(maps, id, shifted) {
        Some(binding) => !passes_through(id, binding),
        None => false,
    }
}

/// Whether the published maps make `id` the trigger.
pub open spec fn trigger_now(maps: Option<&HookMaps>, id: ButtonId) -> bool {
    match maps {
        Some(m) => is_trigger_in(*m, id),
        None => false,
    }
}

/// Whether a gesture press of `id` at `now` is admitted against the hold in
/// progress: no hold, a re-press of the held button, or a hold aged past the
/// stale limit.
pub open spec fn admitted(
    held: Option<(ButtonId, PressToken)>,
    started: u64,
    id: ButtonId,
    now: u64,
) -> bool {
    match held {
        None => true,
        Some((b, _)) => b == id || elapsed(started, now) >= STALE_HOLD_NS,
    }
}

/// Whether a press that is no trigger edge is handed to the runtime: an
/// admitted gesture press, or a press the map remaps.
pub open spec fn press_asks(
    id: ButtonId,
    maps: Option<&HookMaps>,
    shifted: bool,
    held: Option<(ButtonId, PressToken)>,
    started: u64,
    now: u64,
) -> bool {
    let gesture = match maps {
        Some(m) => gesture_bound(*m, id, shifted),
        None => false,
    };
    let remapped = match maps {
        Some(m) => remapped_in(*m, id, shifted),
        None => false,
    };
    (gesture && admitted(held, started, id, now)) || remapped
}

/// What the runtime is handed for a button edge that is no trigger edge, in
/// order: a gesture press ends a stale hold of another button and opens its
/// own; a remapped press hands over its binding; a release that ends a hold
/// fires the plain click when no swipe committed; every release ends its
/// edge.
pub open spec fn button_requests(
    id: ButtonId,
    pressed: bool,
    maps: Option<&HookMaps>,
    shifted: bool,
    held: Option<(ButtonId, PressToken)>,
    started: u64,
    committed: bool,
    now: u64,
) -> Seq<HookRequest> {
    if pressed {
        let gesture = match maps {
            Some(m) => gesture_bound(*m, id, shifted),
            None => false,
        };
        let remapped = match maps {
            Some(m) => remapped_in(*m, id, shifted),
            None => false,
        };
        if gesture && admitted(held, started, id, now) {
            match held {
                Some((b, stale)) => if b != id {
                    seq![HookRequest::CancelStalePress(stale), HookRequest::ButtonDown(id, None)]
                } else {
                    seq![HookRequest::ButtonDown(id, None)]
                },
                None => seq![HookRequest::ButtonDown(id, None)],
            }
        } else if remapped {
            seq![HookRequest::ButtonDown(id, resolved_in(*maps.unwrap(), id, shifted))]
        } else {
            seq![]
        }
    } else {
        match held {
            Some((b, press)) => if b == id {
                let click = match maps {
                    Some(m) => if !committed {
                        seq![HookRequest::DispatchWhilePressed(press, gesture_click(m.gestures@, id))]
                    } else {
                        seq![]
                    },
                    None => seq![],
                };
                click + seq![HookRequest::ButtonUp(id)]
            } else {
                seq![HookRequest::ButtonUp(id)]
            },
            None => seq![HookRequest::ButtonUp(id)],
        }
    }
}

/// A press hands the runtime at most one down edge, of its own button and
/// last, and never an up edge; it hands anything exactly when it asks
/// ([`press_asks`]). Before its down edge it cancels exactly one other
/// press: the stale hold of a different button that an admitted gesture press
/// replaces.
pub proof fn lemma_a_press_hands_over_its_own_down_edge(
    id: ButtonId,
    maps: Option<&HookMaps>,
    shifted: bool,
    held: Option<(ButtonId, PressToken)>,
    started: u64,
    committed: bool,
    now: u64,
)
    ensures
        ({
            let handed = button_requests(id, true, maps, shifted, held, started, committed, now);
            let opens_hold = maps is Some && gesture_bound(*maps.unwrap(), id, shifted)
                && admitted(held, started, id, now);
            &&& handed.len() <= 2
            &&& (handed.len() > 0) == press_asks(id, maps, shifted, held, started, now)
            &&& handed.len() > 0 ==> (handed.last() matches HookRequest::ButtonDown(b, _) && b == id)
            &&& opens_hold ==> handed.last() == HookRequest::ButtonDown(id, None)
            &&& (handed.len() == 2) == (opens_hold && held is Some && held.unwrap().0 != id)
            &&& handed.len() == 2 ==> handed[0] == HookRequest::CancelStalePress(held.unwrap().1)
            &&& forall|k: int| 0 <= k < handed.len() ==> !(#[trigger] handed[k] is ButtonUp)
        }),
{
}

/// A release hands the runtime its own `ButtonUp` last, preceded by at most
/// one request: the plain click of a gesture hold it ends, exactly when that
/// hold is `id`'s own, no swipe committed during it, and the maps could be
/// read. A hold whose swipe committed fired its swipe's action mid-motion, so
/// its release is no click and hands over the `ButtonUp` alone.
pub proof fn lemma_a_release_clicks_only_without_a_swipe(
    id: ButtonId,
    maps: Option<&HookMaps>,
    shifted: bool,
    held: Option<(ButtonId, PressToken)>,
    started: u64,
    committed: bool,
    now: u64,
)
    ensures
        ({
            let handed = button_requests(id, false, maps, shifted, held, started, committed, now);
            let clicks = held is Some && held.unwrap().0 == id && !committed && maps is Some;
            &&& 1 <= handed.len() <= 2
            &&& handed.last() == HookRequest::ButtonUp(id)
            &&& (handed.len() == 2) == clicks
            &&& clicks ==> handed[0] == HookRequest::DispatchWhilePressed(
                held.unwrap().1,
                gesture_click(maps.unwrap().gestures@, id),
            )
            &&& committed ==> handed == seq![HookRequest::ButtonUp(id)]
        }),
{
}

/// Remap path for every button the OS hook decodes.
///
/// `source_may_remap` is the verdict on the event's physical source, `maps`
/// the published button maps (`None` when they could not be read without
/// blocking), and `now_ns` the hook's monotonic clock.
pub fn handle_button<D: HookDispatch>(
    id: ButtonId,
    pressed: bool,
    source_may_remap: bool,
    maps: Option<&HookMaps>,
    now_ns: u64,
    state: &mut HookThread,
    g_shift_held: &mut bool,
    dispatcher: &mut D,
) -> (disposition: EventDisposition)
    requires
        old(state).wf(),
    ensures
        final(state).wf(),
        touches_only(old(state).press_dispositions@, final(state).press_dispositions@, id),
        !hook_sees(id) || !source_may_remap ==> {
            &&& disposition == EventDisposition::PassThrough
            &&& *final(dispatcher) == *old(dispatcher)
            &&& *final(state) == *old(state)
            &&& *final(g_shift_held) == *old(g_shift_held)
        },
        hook_sees(id) && source_may_remap ==> ({
            let edge = trigger_edge(pressed, trigger_now(maps, id), old(state).trigger_held, id);
            let shifted = if pressed {
                *old(g_shift_held)
            } else {
                old(state).shifted_presses@.contains_key(id)
            };
            &&& final(state).trigger_held == trigger_held_after(
                pressed,
                trigger_now(maps, id),
                old(state).trigger_held,
                id,
            )
            &&& edge is Some ==> final(dispatcher).requests() == old(dispatcher).requests()
            &&& edge is None ==> final(dispatcher).requests() == old(dispatcher).requests()
                + button_requests(
                id,
                pressed,
                maps,
                shifted,
                old(state).hold.held(),
                old(state).hold.started_at(),
                old(state).hold.swipe().committed(),
                now_ns,
            )
            &&& edge is None && !pressed && old(state).hold.swipe().committed() ==> final(dispatcher).requests()
                == old(dispatcher).requests().push(HookRequest::ButtonUp(id))
            &&& edge is None && !pressed ==> final(dispatcher).requests().last()
                == HookRequest::ButtonUp(id)
            &&& edge is None && pressed ==> if press_asks(
                id,
                maps,
                shifted,
                old(state).hold.held(),
                old(state).hold.started_at(),
                now_ns,
            ) {
                &&& final(dispatcher).answers().len() == old(dispatcher).answers().len() + 1
                &&& disposition == disposition_of(final(dispatcher).answers().last())
            } else {
                &&& final(dispatcher).answers() == old(dispatcher).answers()
                &&& disposition == EventDisposition::PassThrough
            }
            &&& edge matches Some(flag) ==> {
                &&& *final(g_shift_held) == flag
                &&& disposition == EventDisposition::Suppress
                &&& final(state).press_dispositions@ == old(state).press_dispositions@
                &&& final(state).shifted_presses@ == if flag {
                    old(state).shifted_presses@.remove(id)
                } else {
                    old(state).shifted_presses@
                }
            }
            &&& edge is None ==> {
                &&& *final(g_shift_held) == *old(g_shift_held)
                &&& final(state).shifted_presses@ == layer_set_after(
                    pressed,
                    *old(g_shift_held),
                    old(state).shifted_presses@,
                    id,
                )
                &&& pressed ==> final(state).press_dispositions@ == old(state).press_dispositions@.insert(id, disposition)
                &&& pressed && disposition == EventDisposition::Suppress ==> (maps matches Some(m)
                    && (gesture_bound(*m, id, shifted) || remapped_in(*m, id, shifted)))
                &&& !pressed ==> final(state).press_dispositions@ == old(state).press_dispositions@.remove(id)
                &&& !pressed && old(state).press_dispositions@.contains_key(id) ==> disposition
                    == old(state).press_dispositions@[id]
                &&& !pressed && !old(state).press_dispositions@.contains_key(id) ==> disposition
                    == if old(state).hold.held() matches Some((b, _)) && b == id {
                    EventDisposition::Suppress
                } else {
                    disposition_of((maps matches Some(m) && remapped_in(*m, id, shifted)))
                }
            }
        }),
{
    if !id.is_os_hook_button() || !source_may_remap {
        return EventDisposition::PassThrough;
    }
    let is_trigger_now = match maps {
        Some(m) => m.is_trigger(id),
        None => false,
    };
    let edge = trigger_transition(pressed, is_trigger_now, &mut state.trigger_held, id);
    if let Some(new_flag) = edge {
        *g_shift_held = new_flag;
        if new_flag {
            // A stranded shifted-press entry (from before this button became
            // the trigger) must not survive to mispair a later release.
            state.shifted_presses.remove(&id);
        }
        return if id.may_suppress(&Action::GShift) {
            EventDisposition::Suppress
        } else {
            EventDisposition::PassThrough
        };
    }
    let shifted = press_layer(pressed, *g_shift_held, &mut state.shifted_presses, id);
    if pressed {
        let is_gesture = match maps {
            Some(m) => m.gestures.contains_key(&id) && !(shifted && m.g_shift.contains_key(&id)),
            None => false,
        };
        if is_gesture {
            // A refused begin — a second gesture button pressed mid-hold —
            // falls through to the single-action path: the first hold wins
            // and this press still means its plain click.
            let admission = state.hold.prepare_begin(id, now_ns);
            let admitted = match admission {
                crate::gesture::HoldAdmission::Refuse => false,
                crate::gesture::HoldAdmission::Begin => true,
                crate::gesture::HoldAdmission::Replace(stale) => {
                    dispatcher.cancel_stale_hook_press(&stale);
                    true
                },
            };
            if admitted {
                return match dispatcher.try_hook_button_down(id, None) {
                    Some(press) => {
                        state.hold.begin(id, press, now_ns);
                        press_disposition(id, true, &mut state.press_dispositions)
                    },
                    None => press_disposition(id, false, &mut state.press_dispositions),
                };
            }
        }
    } else {
        let ended = state.hold.end(id);
        if let Some((press, was_click)) = ended {
            if was_click {
                if let Some(m) = maps {
                    let action = resolve_gesture_click(&m.gestures, id);
                    dispatcher.try_dispatch_while_pressed(&press, &action);
                }
            }
            dispatcher.try_hook_button_up(id);
            // The hold's own press is what this release pairs with; the entry
            // it left behind is spent either way.
            return release_disposition(id, false, &mut state.press_dispositions);
        }
    }
    // What the map says *right now*: the whole answer for a press, and only a
    // fallback for a release, which pairs with what its own press did.
    let binding = match maps {
        Some(m) => m.resolve(id, shifted),
        None => None,
    };
    let remapped = match binding {
        Some(b) => if binding_passes_through(id, &b) {
            None
        } else {
            Some(b)
        },
        None => None,
    };
    if !pressed {
        // End the lifecycle before deciding anything: a suppressed press
        // whose binding vanished mid-hold must not leave its press open.
        dispatcher.try_hook_button_up(id);
        return release_disposition(id, remapped.is_none(), &mut state.press_dispositions);
    }
    match remapped {
        None => press_disposition(id, false, &mut state.press_dispositions),
        Some(binding) => {
            let suppressed = dispatcher.try_hook_button_down(id, Some(&binding)).is_some();
            press_disposition(id, suppressed, &mut state.press_dispositions)
        },
    }
}

/// Feed an in-progress gesture hold; motion always passes through so the
/// cursor moves. A committed swipe fires its direction's action, or the
/// button's plain click when the direction is unbound, if its press is live.
pub fn handle_moved<D: HookDispatch>(
    delta_x: i32,
    delta_y: i32,
    maps: Option<&HookMaps>,
    state: &mut HookThread,
    dispatcher: &mut D,
) -> (disposition: EventDisposition)
    requires
        old(state).wf(),
    ensures
        final(state).wf(),
        disposition == EventDisposition::PassThrough,
        final(dispatcher).requests() == old(dispatcher).requests() + match old(state).hold.held() {
            Some((button, press)) => {
                let x = old(state).hold.swipe().travel().0 + delta_x;
                let y = old(state).hold.swipe().travel().1 + delta_y;
                if !old(state).hold.swipe().committed() && crosses(x, y) && maps is Some {
                    seq![
                        HookRequest::DispatchWhilePressed(
                            press,
                            gesture_swipe(maps.unwrap().gestures@, button, direction_of(x, y)),
                        ),
                    ]
                } else {
                    Seq::<HookRequest>::empty()
                }
            },
            None => Seq::<HookRequest>::empty(),
        },
        final(state).hold.held() == old(state).hold.held(),
        final(state).hold.started_at() == old(state).hold.started_at(),
        old(state).hold.swipe().committed() ==> final(state).hold.swipe().committed(),
        old(state).hold.held() is Some && !old(state).hold.swipe().committed() ==> ({
            let x = old(state).hold.swipe().travel().0 + delta_x;
            let y = old(state).hold.swipe().travel().1 + delta_y;
            &&& final(state).hold.swipe().travel() == (x, y)
            &&& final(state).hold.swipe().committed() == crosses(x, y)
        }),
        final(state).press_dispositions@ == old(state).press_dispositions@,
        final(state).held_keys@ == old(state).held_keys@,
        final(state).shifted_presses@ == old(state).shifted_presses@,
        final(state).trigger_held == old(state).trigger_held,
{
    let commit = state.hold.accumulate(delta_x, delta_y);
    if let Some((press, button, dir)) = commit {
        if let Some(m) = maps {
            let action = resolve_gesture_swipe(&m.gestures, button, dir);
            dispatcher.try_dispatch_while_pressed(&press, &action);
        }
    }
    EventDisposition::PassThrough
}

/// The trigger a key edge is looked up under.
pub open spec fn key_trigger(keycode: u16, modifiers: KeyModifiers) -> KeyTrigger {
    KeyTrigger { keycode, modifiers }
}

/// What the runtime is handed for a key edge: the up edge of a key whose
/// held chord owns a press; for a fresh press of a bound key, the down edge
/// of its held chord or the action for the worker; nothing otherwise.
pub open spec fn key_requests(
    keycode: u16,
    pressed: bool,
    modifiers: KeyModifiers,
    bindings: Option<&AssocMap<KeyTrigger, Action>>,
    held_keys: Map<u16, ()>,
) -> Seq<HookRequest> {
    if !pressed {
        if held_keys.contains_key(keycode) {
            seq![HookRequest::KeyUp(keycode)]
        } else {
            seq![]
        }
    } else if held_keys.contains_key(keycode) {
        seq![]
    } else {
        let trigger = key_trigger(keycode, modifiers);
        match bindings {
            Some(b) => if b@.contains_key(trigger) {
                let action = b@[trigger];
                if crate::action::held_combo_of(action) is Some {
                    seq![HookRequest::KeyDown(keycode, action)]
                } else {
                    seq![HookRequest::QueueAction(action)]
                }
            } else {
                seq![]
            },
            None => seq![],
        }
    }
}

/// Remap one function-key edge without blocking the hook callback.
///
/// Ordinary actions stay one-shot, while a held chord enters the same
/// down/up lifecycle as a mouse button. Repeated key-down events of a held
/// key are auto-repeat and are swallowed; the first key-up ends the press,
/// even if modifiers or the config changed while the key was down.
pub fn handle_key<D: HookDispatch>(
    keycode: u16,
    pressed: bool,
    modifiers: KeyModifiers,
    bindings: Option<&AssocMap<KeyTrigger, Action>>,
    state: &mut HookThread,
    dispatcher: &mut D,
) -> (disposition: EventDisposition)
    requires
        old(state).wf(),
    ensures
        final(state).wf(),
        key_requests(keycode, pressed, modifiers, bindings, old(state).held_keys@).len() == 1
            ==> final(dispatcher).answers().len() == old(dispatcher).answers().len() + 1
            && disposition == disposition_of(final(dispatcher).answers().last()),
        final(dispatcher).requests() == old(dispatcher).requests() + key_requests(
            keycode,
            pressed,
            modifiers,
            bindings,
            old(state).held_keys@,
        ),
        final(state).hold.held() == old(state).hold.held(),
        final(state).press_dispositions@ == old(state).press_dispositions@,
        final(state).shifted_presses@ == old(state).shifted_presses@,
        final(state).trigger_held == old(state).trigger_held,
        !pressed ==> final(state).held_keys@ == old(state).held_keys@.remove(keycode),
        !pressed && !old(state).held_keys@.contains_key(keycode) ==> disposition
            == EventDisposition::PassThrough,
        pressed && old(state).held_keys@.contains_key(keycode) ==> disposition
            == EventDisposition::Suppress && final(state).held_keys@ == old(state).held_keys@,
        pressed && !old(state).held_keys@.contains_key(keycode) ==> {
            let trigger = key_trigger(keycode, modifiers);
            let bound = (bindings matches Some(b) && b@.contains_key(trigger));
            &&& !bound ==> disposition == EventDisposition::PassThrough && final(state).held_keys@
                == old(state).held_keys@
            &&& bound && crate::action::held_combo_of(bindings.unwrap()@[trigger]) is Some
                ==> final(state).held_keys@ == if disposition == EventDisposition::Suppress {
                old(state).held_keys@.insert(keycode, ())
            } else {
                old(state).held_keys@
            }
            &&& bound && crate::action::held_combo_of(bindings.unwrap()@[trigger]) is None
                ==> final(state).held_keys@ == old(state).held_keys@
        },
{
    if !pressed {
        return if state.held_keys.remove(&keycode).is_some() {
            queued_event_disposition(dispatcher.try_hook_key_up(keycode))
        } else {
            EventDisposition::PassThrough
        };
    }
    if state.held_keys.contains_key(&keycode) {
        return EventDisposition::Suppress;
    }
    let trigger = KeyTrigger { keycode, modifiers: convert_modifiers(modifiers) };
    let action = match bindings {
        Some(map) => match map.get(&trigger) {
            Some(action) => action.duplicate(),
            None => return EventDisposition::PassThrough,
        },
        None => return EventDisposition::PassThrough,
    };
    let queued = if action.held_combo().is_some() {
        let queued = dispatcher.try_hook_key_down(keycode, &action);
        if queued {
            state.held_keys.insert(keycode, ());
        }
        queued
    } else {
        dispatcher.try_queue_action(action)
    };
    queued_event_disposition(queued)
}

/// Whether `after` is the press record `before` with at most the entry of
/// button `b` set or removed: what `handle_button` does to the record on an
/// event of `b`. `handle_key` and `handle_moved` leave it as it was.
pub open spec fn touches_only(
    before: Map<ButtonId, EventDisposition>,
    after: Map<ButtonId, EventDisposition>,
    b: ButtonId,
) -> bool {
    ||| after == before
    ||| after.contains_key(b) && after == before.insert(b, after[b])
    ||| after == before.remove(b)
}

/// A release repeats the disposition its own press chose. Once a press of
/// `id` has recorded `chosen`, any run of events of other buttons (`others`,
/// one per step) — presses and releases, with the maps, the layer or the
/// trigger binding changed in between — and of keys and motion leaves
/// `chosen` recorded for `id`; `handle_button`'s release of `id` then returns
/// the recorded entry.
pub proof fn lemma_release_repeats_its_press(
    records: Seq<Map<ButtonId, EventDisposition>>,
    others: Seq<ButtonId>,
    id: ButtonId,
    chosen: EventDisposition,
)
    requires
        records.len() >= 1,
        others.len() == records.len() - 1,
        records[0].contains_key(id),
        records[0][id] == chosen,
        forall|i: int|
            0 <= i < others.len() ==> #[trigger] others[i] != id && touches_only(
                records[i],
                records[i + 1],
                others[i],
            ),
    ensures
        records.last().contains_key(id),
        records.last()[id] == chosen,
    decreases records.len(),
{
    if records.len() > 1 {
        let rest = records.drop_last();
        let fewer = others.drop_last();
        assert forall|i: int| 0 <= i < fewer.len() implies #[trigger] fewer[i] != id && touches_only(
            rest[i],
            rest[i + 1],
            fewer[i],
        ) by {
            assert(others[i] == fewer[i]);
            assert(rest[i] == records[i]);
            assert(rest[i + 1] == records[i + 1]);
        }
        lemma_release_repeats_its_press(rest, fewer, id, chosen);
        let n = records.len() - 2;
        assert(records[n] == rest.last());
        assert(others[n] != id && touches_only(records[n], records[n + 1], others[n]));
        assert(records[n + 1] == records.last());
    }
}

} // verus!
