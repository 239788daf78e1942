use openhub::action::{default_binding, Action, Binding, GestureDirection, LongPressBinding};
use openhub::button::ButtonId;
use openhub::gesture::{HoldAdmission, HoldState, GESTURE_SWIPE_THRESHOLD, STALE_HOLD_NS};
use openhub::hook::{
    binding_passes_through, button_source_may_remap, press_disposition, press_layer,
    queued_event_disposition, rebound_thumbwheel_action, release_disposition,
    resolve_gesture_click, resolve_gesture_swipe, route_scroll, scroll_source_may_intercept,
    trigger_transition, EventDevice, EventDisposition, HookMaps, ScrollRoute, LOGITECH_VENDOR_ID,
};
use openhub::maps::AssocMap;
use openhub::press::PressToken;

fn token(id: u64, button: ButtonId) -> PressToken {
    PressToken::button(id, button)
}

/// An instant well past the start of the hook's clock.
const T0: u64 = 50_000_000_000;

#[test]
fn accumulate_tags_a_committed_swipe_with_the_held_press() {
    let mut hold = HoldState::new();
    let press = token(1, ButtonId::Back);
    hold.begin(ButtonId::Back, press, T0);

    assert_eq!(
        hold.accumulate(GESTURE_SWIPE_THRESHOLD + 10, 0),
        Some((press, ButtonId::Back, GestureDirection::Right))
    );
    assert_eq!(hold.accumulate(50, 0), None, "commits at most once per hold");
    assert_eq!(hold.end(ButtonId::Back), Some((press, false)));
}

#[test]
fn a_same_button_repress_restarts_the_stale_hold() {
    let mut hold = HoldState::new();
    let old = token(1, ButtonId::Back);
    assert!(matches!(
        hold.prepare_begin(ButtonId::Back, T0),
        HoldAdmission::Begin
    ));
    hold.begin(ButtonId::Back, old, T0);

    let replacement = token(2, ButtonId::Back);
    assert!(
        matches!(
            hold.prepare_begin(ButtonId::Back, T0 + 1),
            HoldAdmission::Begin
        ),
        "a same-button re-press is proof of a lost release"
    );
    hold.begin(ButtonId::Back, replacement, T0 + 1);
    assert_eq!(
        hold.accumulate(GESTURE_SWIPE_THRESHOLD + 10, 0),
        Some((replacement, ButtonId::Back, GestureDirection::Right))
    );
}

#[test]
fn an_aged_hold_yields_to_a_new_buttons_press() {
    let mut hold = HoldState::new();
    hold.begin(ButtonId::Back, token(1, ButtonId::Back), T0);
    // The hold has aged past the stale limit by the time the next press comes.
    let later = T0 + STALE_HOLD_NS;

    let replacement = token(2, ButtonId::Forward);
    let HoldAdmission::Replace(stale) = hold.prepare_begin(ButtonId::Forward, later) else {
        panic!("an aged hold must yield to a new press");
    };
    assert_eq!(stale, token(1, ButtonId::Back));
    hold.begin(ButtonId::Forward, replacement, later);
    assert_eq!(
        hold.accumulate(GESTURE_SWIPE_THRESHOLD + 10, 0),
        Some((replacement, ButtonId::Forward, GestureDirection::Right))
    );
}

#[test]
fn begin_is_first_wins_while_a_hold_is_active() {
    let mut hold = HoldState::new();
    let first = token(1, ButtonId::Back);
    hold.begin(ButtonId::Back, first, T0);
    assert!(
        matches!(
            hold.prepare_begin(ButtonId::Forward, T0 + 1),
            HoldAdmission::Refuse
        ),
        "a second press must not hijack the active hold"
    );

    assert_eq!(
        hold.accumulate(GESTURE_SWIPE_THRESHOLD + 10, 0),
        Some((first, ButtonId::Back, GestureDirection::Right))
    );
    assert_eq!(hold.end(ButtonId::Forward), None);
    assert_eq!(hold.end(ButtonId::Back), Some((first, false)));
}

#[test]
fn end_matches_the_held_button_and_returns_its_token() {
    let mut hold = HoldState::new();
    let press = token(1, ButtonId::Back);
    hold.begin(ButtonId::Back, press, T0);
    assert_eq!(hold.end(ButtonId::Forward), None);
    assert_eq!(hold.end(ButtonId::Back), Some((press, true)));
}

#[test]
fn a_hold_just_short_of_the_stale_limit_still_refuses() {
    let mut hold = HoldState::new();
    hold.begin(ButtonId::Back, token(1, ButtonId::Back), T0);
    assert_eq!(
        hold.prepare_begin(ButtonId::Forward, T0 + STALE_HOLD_NS - 1),
        HoldAdmission::Refuse
    );
}

#[test]
fn motion_below_the_threshold_commits_nothing_and_a_cancel_ends_the_hold() {
    let mut hold = HoldState::new();
    let press = token(1, ButtonId::Back);
    hold.begin(ButtonId::Back, press, T0);
    assert_eq!(hold.accumulate(GESTURE_SWIPE_THRESHOLD - 1, 0), None);
    assert_eq!(
        hold.accumulate(0, -GESTURE_SWIPE_THRESHOLD),
        Some((press, ButtonId::Back, GestureDirection::Up))
    );
    hold.cancel();
    assert_eq!(hold.end(ButtonId::Back), None);
    assert_eq!(hold.accumulate(500, 0), None);
}

fn gestures_of(
    button: ButtonId,
    entries: Vec<(GestureDirection, Action)>,
) -> AssocMap<ButtonId, AssocMap<GestureDirection, Action>> {
    let mut directions = AssocMap::new();
    for (dir, action) in entries {
        directions.insert(dir, action);
    }
    let mut gestures = AssocMap::new();
    gestures.insert(button, directions);
    gestures
}

#[test]
fn resolve_gesture_click_prefers_explicit_then_falls_back_to_default() {
    let gestures = gestures_of(
        ButtonId::Back,
        vec![(GestureDirection::Click, Action::Copy)],
    );
    assert_eq!(resolve_gesture_click(&gestures, ButtonId::Back), Action::Copy);

    let off = gestures_of(
        ButtonId::Back,
        vec![(GestureDirection::Click, Action::DoNothing)],
    );
    assert_eq!(resolve_gesture_click(&off, ButtonId::Back), Action::DoNothing);
}

#[test]
fn an_unbound_swipe_fires_the_click() {
    let gestures = gestures_of(
        ButtonId::Back,
        vec![
            (GestureDirection::Click, Action::Copy),
            (GestureDirection::Left, Action::Paste),
        ],
    );
    assert_eq!(
        resolve_gesture_swipe(&gestures, ButtonId::Back, GestureDirection::Left),
        Action::Paste
    );
    assert_eq!(
        resolve_gesture_swipe(&gestures, ButtonId::Back, GestureDirection::Up),
        Action::Copy
    );
}

#[test]
fn fail_open_press_pairs_release() {
    // A release whose press was never recorded falls back to the map, which
    // here would swallow it.
    let mut presses = AssocMap::new();
    assert_eq!(
        press_disposition(ButtonId::Back, true, &mut presses),
        EventDisposition::Suppress
    );
    assert_eq!(
        release_disposition(ButtonId::Back, false, &mut presses),
        EventDisposition::Suppress
    );
    assert_eq!(
        press_disposition(ButtonId::Forward, false, &mut presses),
        EventDisposition::PassThrough
    );
    assert_eq!(
        release_disposition(ButtonId::Forward, false, &mut presses),
        EventDisposition::PassThrough
    );
    assert_eq!(
        release_disposition(ButtonId::Forward, false, &mut presses),
        EventDisposition::Suppress
    );
}

#[test]
fn a_release_repeats_its_press_whatever_the_map_says_now() {
    let mut presses = AssocMap::new();
    press_disposition(ButtonId::Back, true, &mut presses);
    assert_eq!(
        release_disposition(ButtonId::Back, true, &mut presses),
        EventDisposition::Suppress
    );
    press_disposition(ButtonId::Back, false, &mut presses);
    assert_eq!(
        release_disposition(ButtonId::Back, false, &mut presses),
        EventDisposition::PassThrough
    );
    assert_eq!(
        release_disposition(ButtonId::Back, true, &mut presses),
        EventDisposition::PassThrough
    );
}

#[test]
fn rejected_key_edges_fail_open() {
    assert_eq!(queued_event_disposition(true), EventDisposition::Suppress);
    assert_eq!(queued_event_disposition(false), EventDisposition::PassThrough);
}

#[test]
fn scroll_interception_uses_the_button_source_safety_policy_and_skips_trackpads() {
    let logitech = EventDevice {
        vendor_id: Some(LOGITECH_VENDOR_ID),
        product_name: Some("Logitech MX Master".to_string()),
        ..EventDevice::default()
    };
    let trackpad = EventDevice {
        product_name: Some("Magic Trackpad".to_string()),
        ..EventDevice::default()
    };
    // Linux and Windows select the device upstream; macOS attributes at
    // callback time and fails closed without attribution.
    for fail_closed in [false, true] {
        assert!(scroll_source_may_intercept(false, Some(&logitech), fail_closed));
        assert!(!scroll_source_may_intercept(true, Some(&logitech), fail_closed));
        assert!(!scroll_source_may_intercept(false, Some(&trackpad), fail_closed));
        assert_eq!(
            scroll_source_may_intercept(false, None, fail_closed),
            !fail_closed,
            "only macOS requires callback-time device attribution"
        );
    }
}

#[test]
fn an_unattributed_button_follows_the_platform() {
    assert!(button_source_may_remap(None, false));
    assert!(!button_source_may_remap(None, true));
}

fn thumbwheel_maps(up: Action, down: Action) -> HookMaps {
    let mut maps = HookMaps::new();
    maps.bindings
        .insert(ButtonId::ThumbwheelScrollUp, Binding::Single(up));
    maps.bindings
        .insert(ButtonId::ThumbwheelScrollDown, Binding::Single(down));
    maps
}

#[test]
fn rebound_horizontal_wheel_maps_to_thumbwheel_directions() {
    let maps = thumbwheel_maps(Action::NextTab, Action::PrevTab);
    assert_eq!(
        rebound_thumbwheel_action(&maps, 1),
        Some((ButtonId::ThumbwheelScrollDown, Action::PrevTab))
    );
    assert_eq!(
        rebound_thumbwheel_action(&maps, -1),
        Some((ButtonId::ThumbwheelScrollUp, Action::NextTab))
    );
    assert_eq!(rebound_thumbwheel_action(&maps, 0), None);
}

#[test]
fn native_thumbwheel_scroll_stays_os_native() {
    let maps = thumbwheel_maps(
        default_binding(ButtonId::ThumbwheelScrollUp),
        default_binding(ButtonId::ThumbwheelScrollDown),
    );
    assert_eq!(rebound_thumbwheel_action(&maps, 1), None);
    assert_eq!(rebound_thumbwheel_action(&maps, -1), None);
}

#[test]
fn long_press_never_passes_through_as_a_native_click() {
    let binding = Binding::LongPress(LongPressBinding::new(
        default_binding(ButtonId::Back),
        Action::MissionControl,
    ));
    assert!(!binding_passes_through(ButtonId::Back, &binding));
}

#[test]
fn the_primary_click_is_only_swallowed_when_something_is_bound_to_it() {
    assert!(binding_passes_through(
        ButtonId::LeftClick,
        &Binding::Single(Action::LeftClick)
    ));
    assert!(binding_passes_through(
        ButtonId::LeftClick,
        &Binding::Single(Action::DoNothing)
    ));
    assert!(!binding_passes_through(
        ButtonId::LeftClick,
        &Binding::Single(Action::Copy)
    ));
}

#[test]
fn any_other_bound_button_is_swallowed() {
    for id in [
        ButtonId::RightClick,
        ButtonId::MiddleClick,
        ButtonId::Back,
        ButtonId::Forward,
        ButtonId::DpiToggle,
    ] {
        assert!(
            !binding_passes_through(id, &Binding::Single(Action::DoNothing)),
            "{} passed through a deliberate Action::None",
            id.label()
        );
        assert!(
            !binding_passes_through(id, &Binding::Single(Action::Copy)),
            "{} passed through a bound action",
            id.label()
        );
    }
}

#[test]
fn a_native_click_binding_passes_through() {
    for (id, action) in [
        (ButtonId::RightClick, Action::RightClick),
        (ButtonId::MiddleClick, Action::MiddleClick),
        (ButtonId::Back, Action::MouseBack),
        (ButtonId::Forward, Action::MouseForward),
    ] {
        assert!(binding_passes_through(id, &Binding::Single(action)));
    }
}

#[test]
fn resolve_gesture_click_falls_back_when_click_is_absent() {
    let no_click = gestures_of(ButtonId::Back, vec![(GestureDirection::Up, Action::Copy)]);
    assert_eq!(
        resolve_gesture_click(&no_click, ButtonId::Back),
        default_binding(ButtonId::Back)
    );

    let empty = AssocMap::new();
    assert_eq!(
        resolve_gesture_click(&empty, ButtonId::Forward),
        default_binding(ButtonId::Forward)
    );
}

fn maps() -> HookMaps {
    let mut maps = HookMaps::new();
    maps.bindings
        .insert(ButtonId::DpiToggle, Binding::Single(Action::GShift));
    maps.bindings
        .insert(ButtonId::Back, Binding::Single(Action::Copy));
    maps.bindings
        .insert(ButtonId::RightClick, Binding::Single(Action::RightClick));
    maps.g_shift
        .insert(ButtonId::RightClick, Binding::Single(Action::Paste));
    maps
}

#[test]
fn the_trigger_is_found_in_the_normal_layer_only() {
    let maps = maps();
    assert!(maps.is_trigger(ButtonId::DpiToggle));
    assert!(!maps.is_trigger(ButtonId::Back));
    assert!(!maps.is_trigger(ButtonId::RightClick));
}

#[test]
fn a_shifted_lookup_falls_back_to_the_normal_layer() {
    let maps = maps();
    assert_eq!(
        maps.resolve(ButtonId::RightClick, false),
        Some(Binding::Single(Action::RightClick))
    );
    assert_eq!(
        maps.resolve(ButtonId::RightClick, true),
        Some(Binding::Single(Action::Paste))
    );
    assert_eq!(
        maps.resolve(ButtonId::Back, true),
        Some(Binding::Single(Action::Copy))
    );
    assert_eq!(maps.resolve(ButtonId::Forward, true), None);
}

#[test]
fn a_release_resolves_in_the_layer_its_press_used() {
    let mut shifted = AssocMap::new();
    assert!(press_layer(true, true, &mut shifted, ButtonId::RightClick));
    assert!(press_layer(false, false, &mut shifted, ButtonId::RightClick));
    assert!(
        !press_layer(false, false, &mut shifted, ButtonId::RightClick),
        "consumed"
    );
    assert!(!press_layer(true, false, &mut shifted, ButtonId::Back));
    assert!(
        !press_layer(false, true, &mut shifted, ButtonId::Back),
        "pressed unshifted, released shifted"
    );
}

#[test]
fn the_trigger_on_the_primary_button_is_swallowed() {
    assert!(!binding_passes_through(
        ButtonId::LeftClick,
        &Binding::Single(Action::GShift)
    ));
}

#[test]
fn a_trigger_press_is_recognised_when_none_is_held() {
    let mut held = None;
    assert_eq!(
        trigger_transition(true, true, &mut held, ButtonId::DpiToggle),
        Some(true)
    );
    assert_eq!(held, Some(ButtonId::DpiToggle));
}

#[test]
fn the_held_triggers_release_is_recognised_even_if_the_map_moved_on() {
    let mut held = Some(ButtonId::DpiToggle);
    assert_eq!(
        trigger_transition(false, false, &mut held, ButtonId::DpiToggle),
        Some(false)
    );
    assert_eq!(held, None);
}

#[test]
fn a_second_trigger_press_while_one_is_held_is_an_ordinary_button() {
    let mut held = Some(ButtonId::DpiToggle);
    assert_eq!(
        trigger_transition(true, true, &mut held, ButtonId::RightClick),
        None
    );
    assert_eq!(held, Some(ButtonId::DpiToggle), "the first trigger keeps it");
}

#[test]
fn a_release_of_an_unheld_button_the_map_now_calls_trigger_is_ordinary() {
    let mut held = None;
    assert_eq!(
        trigger_transition(false, true, &mut held, ButtonId::RightClick),
        None
    );
    assert_eq!(held, None);
}

#[test]
fn a_wheel_event_fires_a_rebound_thumbwheel_or_follows_the_source_policy() {
    let logitech = EventDevice {
        vendor_id: Some(LOGITECH_VENDOR_ID),
        ..EventDevice::default()
    };
    let mut maps = HookMaps::new();
    maps.bindings.insert(ButtonId::ThumbwheelScrollDown, Binding::Single(Action::Copy));

    // A rebound direction fires its action, wherever the tick came from.
    match route_scroll(true, 1, true, None, true, Some(&maps)) {
        ScrollRoute::Thumbwheel(button, action) => {
            assert_eq!(button, ButtonId::ThumbwheelScrollDown);
            assert_eq!(action, Action::Copy);
        }
        _ => panic!("a rebound thumb wheel fires its action"),
    }
    // The other direction is unbound: the source policy decides.
    assert!(matches!(
        route_scroll(true, -1, false, Some(&logitech), true, Some(&maps)),
        ScrollRoute::Intercept
    ));
    // Not a native thumb-wheel tick, or maps not readable: no rebound.
    assert!(matches!(
        route_scroll(false, 1, false, Some(&logitech), true, Some(&maps)),
        ScrollRoute::Intercept
    ));
    assert!(matches!(
        route_scroll(true, 1, true, Some(&logitech), false, None),
        ScrollRoute::Native
    ));
    assert!(matches!(
        route_scroll(false, 0, false, None, true, Some(&maps)),
        ScrollRoute::Native
    ));
}
