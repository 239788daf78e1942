//! OS-hook dispatch policy: which physical events the hook swallows, which
//! layer a press resolves in, and how a release pairs with its press.
//!
//! Every decision here is a function of the published button maps and the
//! hook thread's own state. The platform hook, its locks and its thread-local
//! storage are the caller's; what is decided lives here.

use vstd::prelude::*;

use crate::action::{
    click_action_of, default_action, default_binding, Action, Binding, GestureDirection,
    KeyModifiers,
};
use crate::button::{hook_sees, suppressible, ButtonId};
use crate::maps::AssocMap;

verus! {

/// What the hook does with a physical event.
#[derive(Clone, Copy, Debug, PartialEq, Eq, Structural)]
pub enum EventDisposition {
    /// Let the event reach the desktop.
    PassThrough,
    /// Swallow it.
    Suppress,
}

/// The USB vendor id of Logitech.
pub const LOGITECH_VENDOR_ID: u16 = 0x046d;

/// What the platform reports about the device an event came from.
#[derive(Clone, Debug, PartialEq, Eq, Default)]
pub struct EventDevice {
    /// The USB vendor id, when the platform attributes one.
    pub vendor_id: Option<u16>,
    /// The product name, when the platform reports one.
    pub product_name: Option<String>,
}

/// Whether an attributed device may be remapped: a known Logitech sender.
pub open spec fn device_remappable(device: EventDevice) -> bool {
    device.vendor_id == Some(LOGITECH_VENDOR_ID)
}

/// Whether an attributed device may be remapped: only a known Logitech sender
/// is, so a built-in trackpad can never be swallowed.
pub fn source_is_remappable(device: &EventDevice) -> (remappable: bool)
    ensures
        remappable == device_remappable(*device),
{
    match device.vendor_id {
        Some(vendor) => vendor == LOGITECH_VENDOR_ID,
        None => false,
    }
}

/// Whether a button event's physical source may be remapped or suppressed.
///
/// An attributed event is remappable only from a known Logitech device.
/// Without attribution the platform decides: `fail_closed` is set where an
/// unattributed event is more likely a trackpad or system source (macOS), and
/// clear where device selection already happened upstream (Linux, Windows).
pub fn button_source_may_remap(device: Option<&EventDevice>, fail_closed: bool) -> (may: bool)
    ensures
        may == match device {
            Some(d) => device_remappable(*d),
            None => !fail_closed,
        },
{
    match device {
        Some(d) => source_is_remappable(d),
        None => !fail_closed,
    }
}

/// Whether a wheel event may be replaced by host-side smooth output: never a
/// trackpad's, and otherwise by the same policy as button remapping.
pub fn scroll_source_may_intercept(
    from_trackpad: bool,
    device: Option<&EventDevice>,
    fail_closed: bool,
) -> (may: bool)
    ensures
        may == (!from_trackpad && match device {
            Some(d) => device_remappable(*d),
            None => !fail_closed,
        }),
{
    !from_trackpad && button_source_may_remap(device, fail_closed)
}

/// Convert the hook-layer modifier state into the config-layer type.
pub fn convert_modifiers(m: KeyModifiers) -> (converted: KeyModifiers)
    ensures
        converted == m,
{
    KeyModifiers { shift: m.shift, control: m.control, option: m.option, command: m.command }
}

/// The button maps the OS-hook callback reads, published together so a press
/// never sees one map from before a config rebuild and another from after it.
pub struct HookMaps {
    /// Per-button binding — the non-gesture dispatch path.
    pub bindings: AssocMap<ButtonId, Binding>,
    /// Per-direction maps for the OS-hook gesture buttons.
    pub gestures: AssocMap<ButtonId, AssocMap<GestureDirection, Action>>,
    /// The active profile's G-Shift layer: only the buttons it changes. Read
    /// while the trigger is held, falling back to `bindings`.
    pub g_shift: AssocMap<ButtonId, Binding>,
}

/// Whether `id` is bound to the G-Shift trigger in the normal layer.
pub open spec fn is_trigger_in(maps: HookMaps, id: ButtonId) -> bool {
    maps.bindings@.contains_key(id) && click_action_of(maps.bindings@[id]) is GShift
}

/// The binding `id` resolves to: the G-Shift layer's while shifted, when it
/// has one, and the normal layer's otherwise.
pub open spec fn resolved_in(maps: HookMaps, id: ButtonId, shifted: bool) -> Option<Binding> {
    if shifted && maps.g_shift@.contains_key(id) {
        Some(maps.g_shift@[id])
    } else if maps.bindings@.contains_key(id) {
        Some(maps.bindings@[id])
    } else {
        None
    }
}

impl HookMaps {
    /// Empty maps: nothing bound.
    pub fn new() -> (maps: HookMaps)
        ensures
            maps.bindings@ == Map::<ButtonId, Binding>::empty(),
            maps.gestures@ == Map::<ButtonId, AssocMap<GestureDirection, Action>>::empty(),
            maps.g_shift@ == Map::<ButtonId, Binding>::empty(),
    {
        HookMaps { bindings: AssocMap::new(), gestures: AssocMap::new(), g_shift: AssocMap::new() }
    }

    /// Whether `id` is the G-Shift trigger. Looked up in the normal layer
    /// only — a trigger inside the shifted layer would have no way to be
    /// pressed.
    pub fn is_trigger(&self, id: ButtonId) -> (trigger: bool)
        ensures
            trigger == is_trigger_in(*self, id),
    {
        match self.bindings.get(&id) {
            Some(binding) => binding.click_action().is_gshift(),
            None => false,
        }
    }

    /// The binding `id` resolves to in the given layer.
    pub fn resolve(&self, id: ButtonId, shifted: bool) -> (binding: Option<Binding>)
        ensures
            binding == resolved_in(*self, id, shifted),
    {
        if shifted {
            if let Some(layered) = self.g_shift.get(&id) {
                return Some(layered.duplicate());
            }
        }
        match self.bindings.get(&id) {
            Some(binding) => Some(binding.duplicate()),
            None => None,
        }
    }
}

/// The layer set after an event: a press under G-Shift records its button, a
/// release takes the record away.
pub open spec fn layer_set_after(
    pressed: bool,
    held: bool,
    shifted: Map<ButtonId, ()>,
    id: ButtonId,
) -> Map<ButtonId, ()> {
    if pressed {
        if held {
            shifted.insert(id, ())
        } else {
            shifted
        }
    } else {
        shifted.remove(id)
    }
}

/// The layer an event resolves in: a press in the current one, a release in
/// the one its press recorded.
pub open spec fn layer_of(pressed: bool, held: bool, shifted: Map<ButtonId, ()>, id: ButtonId) -> bool {
    if pressed {
        held
    } else {
        shifted.contains_key(id)
    }
}

/// The layer a press resolves in — and, for a release, the layer its press
/// used, so the two dispositions always pair.
pub fn press_layer(
    pressed: bool,
    held: bool,
    shifted_presses: &mut AssocMap<ButtonId, ()>,
    id: ButtonId,
) -> (shifted: bool)
    ensures
        shifted == layer_of(pressed, held, old(shifted_presses)@, id),
        final(shifted_presses)@ == layer_set_after(pressed, held, old(shifted_presses)@, id),
{
    if pressed {
        if held {
            shifted_presses.insert(id, ());
        }
        held
    } else {
        shifted_presses.remove(&id).is_some()
    }
}

/// A release resolves in the layer its own press used, whether or not the
/// trigger is still held — provided no record of an earlier shifted press of
/// the same button was left stranded.
pub proof fn lemma_release_uses_press_layer(
    shifted: Map<ButtonId, ()>,
    held_at_press: bool,
    held_at_release: bool,
    id: ButtonId,
)
    requires
        held_at_press || !shifted.contains_key(id),
    ensures
        layer_of(false, held_at_release, layer_set_after(true, held_at_press, shifted, id), id)
            == layer_of(true, held_at_press, shifted, id),
        !layer_set_after(false, held_at_release, layer_set_after(true, held_at_press, shifted, id), id).contains_key(id),
{
}

/// The new trigger state and flag after a button event, or `None` when the
/// event is not a trigger edge.
pub open spec fn trigger_edge(
    pressed: bool,
    is_trigger_now: bool,
    held: Option<ButtonId>,
    id: ButtonId,
) -> Option<bool> {
    if pressed {
        if is_trigger_now && held is None {
            Some(true)
        } else {
            None
        }
    } else if held == Some(id) {
        Some(false)
    } else {
        None
    }
}

/// The remembered trigger after a button event.
pub open spec fn trigger_held_after(
    pressed: bool,
    is_trigger_now: bool,
    held: Option<ButtonId>,
    id: ButtonId,
) -> Option<ButtonId> {
    match trigger_edge(pressed, is_trigger_now, held, id) {
        Some(true) => Some(id),
        Some(false) => None,
        None => held,
    }
}

/// Whether this button event is a G-Shift trigger edge, and if so the new
/// value for the process-wide G-Shift flag.
///
/// A press is the trigger only when the current map says so *and* no trigger
/// is already held. A release is the trigger only when it matches the
/// physical button `held` remembers, so a config rebuild between a press and
/// its release can never re-decide which layer the release belongs to.
pub fn trigger_transition(
    pressed: bool,
    is_trigger_now: bool,
    held: &mut Option<ButtonId>,
    id: ButtonId,
) -> (edge: Option<bool>)
    ensures
        edge == trigger_edge(pressed, is_trigger_now, *old(held), id),
        *final(held) == trigger_held_after(pressed, is_trigger_now, *old(held), id),
{
    if pressed {
        if is_trigger_now && held.is_none() {
            *held = Some(id);
            Some(true)
        } else {
            None
        }
    } else if *held == Some(id) {
        *held = None;
        Some(false)
    } else {
        None
    }
}

/// The trigger a button opens is closed by that button's release, whatever
/// the map says by then; while it is held, another trigger press is an
/// ordinary button and the first trigger keeps the layer.
pub proof fn lemma_trigger_pairs(
    id: ButtonId,
    other: ButtonId,
    trigger_at_release: bool,
    other_is_trigger: bool,
)
    requires
        other != id,
    ensures
        trigger_edge(true, true, None, id) == Some(true),
        trigger_held_after(true, true, None, id) == Some(id),
        trigger_edge(false, trigger_at_release, Some(id), id) == Some(false),
        trigger_held_after(false, trigger_at_release, Some(id), id) is None,
        trigger_edge(true, other_is_trigger, Some(id), other) is None,
        trigger_held_after(true, other_is_trigger, Some(id), other) == Some(id),
        trigger_edge(false, other_is_trigger, Some(id), other) is None,
{
}

/// The disposition a press's outcome stands for.
pub open spec fn disposition_of(suppressed: bool) -> EventDisposition {
    if suppressed {
        EventDisposition::Suppress
    } else {
        EventDisposition::PassThrough
    }
}

/// Whether `action` is just `id`'s own native event — the button mapped to the
/// very click it already produces.
pub open spec fn native_click(id: ButtonId, action: Action) -> bool {
    (id == ButtonId::LeftClick && action is LeftClick) || (id == ButtonId::RightClick
        && action is RightClick) || (id == ButtonId::MiddleClick && action is MiddleClick) || (id
        == ButtonId::Back && action is MouseBack) || (id == ButtonId::Forward
        && action is MouseForward)
}

/// Whether `action` is just `id`'s own native event. In that case the hook
/// passes the event through rather than suppress and re-synthesise it.
pub fn is_native_click(id: ButtonId, action: &Action) -> (native: bool)
    ensures
        native == native_click(id, *action),
{
    match (id, action) {
        (ButtonId::LeftClick, Action::LeftClick) => true,
        (ButtonId::RightClick, Action::RightClick) => true,
        (ButtonId::MiddleClick, Action::MiddleClick) => true,
        (ButtonId::Back, Action::MouseBack) => true,
        (ButtonId::Forward, Action::MouseForward) => true,
        _ => false,
    }
}

/// Whether the hook must leave a button's physical event to the desktop under
/// `binding`: a threshold binding never does; a single action does when it is
/// the button's native click or when the button's floor refuses suppression.
pub open spec fn passes_through(id: ButtonId, binding: Binding) -> bool {
    match binding {
        Binding::LongPress(_) => false,
        Binding::Single(action) => native_click(id, action) || !suppressible(id, action),
    }
}

/// Whether the hook must leave this button's physical event to the desktop.
pub fn binding_passes_through(id: ButtonId, binding: &Binding) -> (passes: bool)
    ensures
        passes == passes_through(id, *binding),
{
    if let Binding::LongPress(_) = binding {
        return false;
    }
    let action = binding.click_action();
    is_native_click(id, &action) || !id.may_suppress(&action)
}

/// Press of a button the hook decodes: suppress when the remap was accepted,
/// otherwise let the physical press through. Either way the decision is
/// recorded under `id` for the release to repeat.
pub fn press_disposition(
    id: ButtonId,
    suppressed: bool,
    presses: &mut AssocMap<ButtonId, EventDisposition>,
) -> (disposition: EventDisposition)
    ensures
        disposition == disposition_of(suppressed),
        final(presses)@ == old(presses)@.insert(id, disposition),
{
    let disposition = if suppressed {
        EventDisposition::Suppress
    } else {
        EventDisposition::PassThrough
    };
    presses.insert(id, disposition);
    disposition
}

/// What a release does: repeat its press's recorded decision, or — for a
/// release whose press was never recorded — what the map says now.
pub open spec fn release_outcome(
    id: ButtonId,
    map_passes_through: bool,
    presses: Map<ButtonId, EventDisposition>,
) -> EventDisposition {
    if presses.contains_key(id) {
        presses[id]
    } else {
        disposition_of(!map_passes_through)
    }
}

/// Release of a button the hook decodes: a release always repeats what its own
/// press decided, whatever a config rebuild did to the map in between.
pub fn release_disposition(
    id: ButtonId,
    map_passes_through: bool,
    presses: &mut AssocMap<ButtonId, EventDisposition>,
) -> (disposition: EventDisposition)
    ensures
        disposition == release_outcome(id, map_passes_through, old(presses)@),
        final(presses)@ == old(presses)@.remove(id),
{
    match presses.remove(&id) {
        Some(disposition) => disposition,
        None => if map_passes_through {
            EventDisposition::PassThrough
        } else {
            EventDisposition::Suppress
        },
    }
}

/// A press and its release always agree: the release is swallowed exactly when
/// its press was, and pairs only once.
pub proof fn lemma_release_pairs_with_press(
    presses: Map<ButtonId, EventDisposition>,
    id: ButtonId,
    suppressed: bool,
    map_at_release: bool,
)
    ensures
        ({
            let recorded = presses.insert(id, disposition_of(suppressed));
            &&& release_outcome(id, map_at_release, recorded) == disposition_of(suppressed)
            &&& !recorded.remove(id).contains_key(id)
        }),
{
}

/// A press's recorded decision is touched only by its own button's edges:
/// recording or pairing another button leaves it as it was. Key, move and
/// interruption events do not touch the record at all, so whatever happens to
/// other buttons in between, a release still repeats what its press decided.
pub proof fn lemma_press_record_survives_other_buttons(
    presses: Map<ButtonId, EventDisposition>,
    id: ButtonId,
    other: ButtonId,
    recorded: EventDisposition,
    map_at_release: bool,
)
    requires
        other != id,
    ensures
        release_outcome(id, map_at_release, presses.insert(other, recorded)) == release_outcome(
            id,
            map_at_release,
            presses,
        ),
        release_outcome(id, map_at_release, presses.remove(other)) == release_outcome(
            id,
            map_at_release,
            presses,
        ),
{
}

/// Suppress only input accepted by an off-thread runtime. Rejected input must
/// fail open so the hook never swallows an edge it could not dispatch.
pub fn queued_event_disposition(queued: bool) -> (disposition: EventDisposition)
    ensures
        disposition == disposition_of(queued),
{
    if queued {
        EventDisposition::Suppress
    } else {
        EventDisposition::PassThrough
    }
}

/// The action a gesture button's plain click fires: its explicit `Click`
/// entry, or the button's default when the gesture map has none.
pub open spec fn gesture_click(
    gestures: Map<ButtonId, AssocMap<GestureDirection, Action>>,
    id: ButtonId,
) -> Action {
    if gestures.contains_key(id) && gestures[id]@.contains_key(GestureDirection::Click) {
        gestures[id]@[GestureDirection::Click]
    } else {
        default_action(id)
    }
}

/// The action a gesture button's plain (no-swipe) click should fire: its
/// explicit [`GestureDirection::Click`] entry — honoring an explicit
/// [`Action::DoNothing`] — or the button's default binding when the gesture
/// map has no `Click` key. A gesture button's suppressed press is therefore
/// never swallowed into nothing.
pub fn resolve_gesture_click(
    gestures: &AssocMap<ButtonId, AssocMap<GestureDirection, Action>>,
    id: ButtonId,
) -> (action: Action)
    ensures
        action == gesture_click(gestures@, id),
{
    if let Some(directions) = gestures.get(&id) {
        if let Some(action) = directions.get(&GestureDirection::Click) {
            return action.duplicate();
        }
    }
    default_binding(id)
}

/// The action a swipe in `dir` on `id` fires: its own entry, or the plain
/// click's when the direction is unbound.
pub open spec fn gesture_swipe(
    gestures: Map<ButtonId, AssocMap<GestureDirection, Action>>,
    id: ButtonId,
    dir: GestureDirection,
) -> Action {
    if gestures.contains_key(id) && gestures[id]@.contains_key(dir) {
        gestures[id]@[dir]
    } else {
        gesture_click(gestures, id)
    }
}

/// The action a swipe in `dir` on `id` fires.
pub fn resolve_gesture_swipe(
    gestures: &AssocMap<ButtonId, AssocMap<GestureDirection, Action>>,
    id: ButtonId,
    dir: GestureDirection,
) -> (action: Action)
    ensures
        action == gesture_swipe(gestures@, id, dir),
{
    if let Some(directions) = gestures.get(&id) {
        if let Some(action) = directions.get(&dir) {
            return action.duplicate();
        }
    }
    resolve_gesture_click(gestures, id)
}

/// Which thumb-wheel direction a native horizontal-wheel tick is, by the sign
/// of its delta: positive is the physical backward/down direction.
pub open spec fn thumbwheel_button(delta_sign: i8) -> Option<ButtonId> {
    if delta_sign > 0 {
        Some(ButtonId::ThumbwheelScrollDown)
    } else if delta_sign < 0 {
        Some(ButtonId::ThumbwheelScrollUp)
    } else {
        None
    }
}

/// Resolve a native horizontal-wheel tick to a rebound thumb-wheel action.
/// The built-in horizontal-scroll defaults return `None`, so the physical
/// wheel stays native unless the user changed that direction.
pub fn rebound_thumbwheel_action(maps: &HookMaps, delta_sign: i8) -> (rebound: Option<(ButtonId, Action)>)
    ensures
        rebound matches Some((button, action)) ==> thumbwheel_button(delta_sign) == Some(button)
            && maps.bindings@.contains_key(button) && action == click_action_of(
            maps.bindings@[button],
        ) && !crate::action::same_action(action, default_action(button)),
        rebound is None ==> match thumbwheel_button(delta_sign) {
            None => true,
            Some(button) => !maps.bindings@.contains_key(button) || crate::action::same_action(
                click_action_of(maps.bindings@[button]),
                default_action(button),
            ),
        },
{
    let button = if delta_sign > 0 {
        ButtonId::ThumbwheelScrollDown
    } else if delta_sign < 0 {
        ButtonId::ThumbwheelScrollUp
    } else {
        return None;
    };
    let binding = match maps.bindings.get(&button) {
        Some(binding) => binding,
        None => return None,
    };
    let action = binding.click_action();
    if action.same(&default_binding(button)) {
        None
    } else {
        Some((button, action))
    }
}

/// The rebound thumb-wheel action a native horizontal-wheel tick fires: the
/// click action bound to its direction, unless that is the direction's
/// built-in default.
pub open spec fn rebound_of(maps: HookMaps, delta_sign: i8) -> Option<(ButtonId, Action)> {
    match thumbwheel_button(delta_sign) {
        None => None,
        Some(button) => if maps.bindings@.contains_key(button) && !crate::action::same_action(
            click_action_of(maps.bindings@[button]),
            default_action(button),
        ) {
            Some((button, click_action_of(maps.bindings@[button])))
        } else {
            None
        },
    }
}

/// Where a wheel event goes.
pub enum ScrollRoute {
    /// A native thumb-wheel tick whose direction the user rebound: queue this
    /// action for the worker.
    Thumbwheel(ButtonId, Action),
    /// Hand the delta to the host-side smooth-scroll engine.
    Intercept,
    /// Leave the event to the system.
    Native,
}

/// Route a wheel event.
///
/// `native_thumbwheel` is set for a purely horizontal tick on a platform
/// whose hook reports the thumb wheel as a native horizontal wheel (Windows);
/// `delta_sign` is the sign of its horizontal delta. A rebound direction fires
/// its action; otherwise the event is intercepted when its source may be
/// (never a trackpad), and left alone when not. `maps` is `None` when the
/// published maps could not be read without blocking.
pub fn route_scroll(
    native_thumbwheel: bool,
    delta_sign: i8,
    from_trackpad: bool,
    device: Option<&EventDevice>,
    fail_closed: bool,
    maps: Option<&HookMaps>,
) -> (route: ScrollRoute)
    ensures
        ({
            let rebound = match maps {
                Some(m) => if native_thumbwheel {
                    rebound_of(*m, delta_sign)
                } else {
                    None
                },
                None => None,
            };
            let intercept = !from_trackpad && match device {
                Some(d) => device_remappable(*d),
                None => !fail_closed,
            };
            &&& rebound matches Some((b, a)) ==> route == ScrollRoute::Thumbwheel(b, a)
            &&& rebound is None && intercept ==> route is Intercept
            &&& rebound is None && !intercept ==> route is Native
        }),
{
    if native_thumbwheel {
        if let Some(m) = maps {
            if let Some((button, action)) = rebound_thumbwheel_action(m, delta_sign) {
                return ScrollRoute::Thumbwheel(button, action);
            }
        }
    }
    if scroll_source_may_intercept(from_trackpad, device, fail_closed) {
        ScrollRoute::Intercept
    } else {
        ScrollRoute::Native
    }
}

} // verus!
