use openhub::action::{Action, Binding, GestureDirection, KeyCombo, KeyModifiers, KeyTrigger};
use openhub::button::ButtonId;
use openhub::gesture::GESTURE_SWIPE_THRESHOLD;
use openhub::hook::{EventDisposition, HookMaps};
use openhub::hook_events::{
    handle_button, handle_key, handle_moved, HookRequest, HookThread, ScriptedDispatcher,
};
use openhub::maps::AssocMap;
use openhub::press::PressToken;

#[test]
fn motion_during_a_hold_commits_one_swipe_and_always_passes_through() {
    let mut maps = HookMaps::new();
    let mut directions = AssocMap::new();
    directions.insert(GestureDirection::Left, Action::BrowserBack);
    maps.gestures.insert(ButtonId::Back, directions);

    let mut state = HookThread::new();
    let press = PressToken::button(3, ButtonId::Back);
    state.hold.begin(ButtonId::Back, press, 1_000);
    let mut runtime = ScriptedDispatcher::new(true);

    assert_eq!(
        handle_moved(-(GESTURE_SWIPE_THRESHOLD - 1), 0, Some(&maps), &mut state, &mut runtime),
        EventDisposition::PassThrough
    );
    assert!(runtime.handed().is_empty());
    assert_eq!(
        handle_moved(-1, 0, Some(&maps), &mut state, &mut runtime),
        EventDisposition::PassThrough
    );
    assert_eq!(
        handle_moved(-100, 0, Some(&maps), &mut state, &mut runtime),
        EventDisposition::PassThrough
    );
    assert_eq!(
        *runtime.handed(),
        vec![HookRequest::DispatchWhilePressed(press, Action::BrowserBack)]
    );
    // The hold committed a swipe, so its release is no click.
    assert_eq!(state.hold.end(ButtonId::Back), Some((press, false)));
}

fn remapped_back() -> HookMaps {
    let mut maps = HookMaps::new();
    maps.bindings.insert(ButtonId::Back, Binding::Single(Action::Copy));
    maps
}

#[test]
fn a_remapped_press_hands_over_its_binding_and_its_release_ends_the_edge() {
    let maps = remapped_back();
    let mut state = HookThread::new();
    let mut g_shift = false;
    let mut runtime = ScriptedDispatcher::new(true);

    let press = handle_button(ButtonId::Back, true, true, Some(&maps), 0, &mut state, &mut g_shift, &mut runtime);
    let release = handle_button(ButtonId::Back, false, true, Some(&maps), 1, &mut state, &mut g_shift, &mut runtime);

    assert_eq!(press, EventDisposition::Suppress);
    assert_eq!(release, EventDisposition::Suppress);
    assert_eq!(
        *runtime.handed(),
        vec![
            HookRequest::ButtonDown(ButtonId::Back, Some(Binding::Single(Action::Copy))),
            HookRequest::ButtonUp(ButtonId::Back),
        ]
    );
}

#[test]
fn a_refused_press_fails_open_and_its_release_follows() {
    let maps = remapped_back();
    let mut state = HookThread::new();
    let mut g_shift = false;
    let mut runtime = ScriptedDispatcher::new(false);

    let press = handle_button(ButtonId::Back, true, true, Some(&maps), 0, &mut state, &mut g_shift, &mut runtime);
    let release = handle_button(ButtonId::Back, false, true, Some(&maps), 1, &mut state, &mut g_shift, &mut runtime);

    assert_eq!(press, EventDisposition::PassThrough);
    assert_eq!(release, EventDisposition::PassThrough);
}

#[test]
fn an_unseen_button_or_source_hands_nothing_over() {
    let maps = remapped_back();
    let mut state = HookThread::new();
    let mut g_shift = false;
    let mut runtime = ScriptedDispatcher::new(true);
    assert_eq!(
        handle_button(ButtonId::Back, true, false, Some(&maps), 0, &mut state, &mut g_shift, &mut runtime),
        EventDisposition::PassThrough
    );
    assert_eq!(
        handle_button(ButtonId::GestureButton, true, true, Some(&maps), 0, &mut state, &mut g_shift, &mut runtime),
        EventDisposition::PassThrough
    );
    assert!(runtime.handed().is_empty());
}

#[test]
fn a_gesture_click_fires_the_click_action_of_its_own_press() {
    let mut maps = HookMaps::new();
    let mut directions = AssocMap::new();
    directions.insert(GestureDirection::Click, Action::MissionControl);
    maps.gestures.insert(ButtonId::Forward, directions);
    let mut state = HookThread::new();
    let mut g_shift = false;
    let mut runtime = ScriptedDispatcher::new(true);

    handle_button(ButtonId::Forward, true, true, Some(&maps), 0, &mut state, &mut g_shift, &mut runtime);
    handle_button(ButtonId::Forward, false, true, Some(&maps), 5, &mut state, &mut g_shift, &mut runtime);

    assert_eq!(
        *runtime.handed(),
        vec![
            HookRequest::ButtonDown(ButtonId::Forward, None),
            HookRequest::DispatchWhilePressed(
                PressToken::button(1, ButtonId::Forward),
                Action::MissionControl
            ),
            HookRequest::ButtonUp(ButtonId::Forward),
        ]
    );
}

#[test]
fn a_held_chord_key_enters_the_press_lifecycle_and_others_are_queued() {
    let combo = KeyCombo {
        modifiers: KeyModifiers {
            control: true,
            ..KeyModifiers::default()
        },
        key: 57,
    };
    let mut keys = AssocMap::new();
    keys.insert(
        KeyTrigger { keycode: 59, modifiers: KeyModifiers::default() },
        Action::HoldShortcut(combo),
    );
    keys.insert(
        KeyTrigger { keycode: 60, modifiers: KeyModifiers::default() },
        Action::Copy,
    );
    let mut state = HookThread::new();
    let mut runtime = ScriptedDispatcher::new(true);
    let none = KeyModifiers::default();

    assert_eq!(handle_key(59, true, none, Some(&keys), &mut state, &mut runtime), EventDisposition::Suppress);
    assert_eq!(handle_key(59, true, none, Some(&keys), &mut state, &mut runtime), EventDisposition::Suppress);
    assert_eq!(handle_key(59, false, none, Some(&keys), &mut state, &mut runtime), EventDisposition::Suppress);
    assert_eq!(handle_key(60, true, none, Some(&keys), &mut state, &mut runtime), EventDisposition::Suppress);
    assert_eq!(handle_key(61, true, none, Some(&keys), &mut state, &mut runtime), EventDisposition::PassThrough);

    assert_eq!(
        *runtime.handed(),
        vec![
            HookRequest::KeyDown(59, Action::HoldShortcut(combo)),
            HookRequest::KeyUp(59),
            HookRequest::QueueAction(Action::Copy),
        ]
    );
}

#[test]
fn an_interruption_ends_the_threads_presses() {
    let mut state = HookThread::new();
    let mut g_shift = true;
    let mut runtime = ScriptedDispatcher::new(true);
    state.interrupt(&mut g_shift, &mut runtime);
    assert!(!g_shift);
    assert_eq!(*runtime.handed(), vec![HookRequest::CancelHookThreadButtons]);
}

#[test]
fn a_release_repeats_its_press_across_other_buttons_and_new_maps() {
    let maps = remapped_back();
    let mut state = HookThread::new();
    let mut g_shift = false;
    let mut runtime = ScriptedDispatcher::new(true);

    let press = handle_button(ButtonId::Back, true, true, Some(&maps), 0, &mut state, &mut g_shift, &mut runtime);
    assert_eq!(press, EventDisposition::Suppress);

    // Another button comes and goes, and the maps lose Back's binding.
    let mut forward = HookMaps::new();
    forward.bindings.insert(ButtonId::Forward, Binding::Single(Action::Paste));
    handle_button(ButtonId::Forward, true, true, Some(&forward), 1, &mut state, &mut g_shift, &mut runtime);
    handle_button(ButtonId::Forward, false, true, Some(&forward), 2, &mut state, &mut g_shift, &mut runtime);
    let empty = HookMaps::new();

    let release = handle_button(ButtonId::Back, false, true, Some(&empty), 3, &mut state, &mut g_shift, &mut runtime);
    assert_eq!(release, EventDisposition::Suppress);

    // And the other way round: a press that passed through is released
    // through, though the release now finds a binding.
    let mut state = HookThread::new();
    let pass = handle_button(ButtonId::Back, true, true, Some(&empty), 0, &mut state, &mut g_shift, &mut runtime);
    assert_eq!(pass, EventDisposition::PassThrough);
    let release = handle_button(ButtonId::Back, false, true, Some(&maps), 1, &mut state, &mut g_shift, &mut runtime);
    assert_eq!(release, EventDisposition::PassThrough);
}
