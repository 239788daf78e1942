use openhub::action::{Action, KeyCombo, KeyModifiers};
use openhub::button::ButtonId;
use openhub::macro_model::{Macro, MacroId, RepeatMode, Step};
use openhub::macro_runs::{MacroRuns, StartPlan};
use openhub::maps::AssocMap;
use openhub::press::PressToken;
use openhub::runtime::{
    browser_nav_debounce_ok, dispatch_route, end_press, start_action, BrowserNavDebounce, DispatchRoute,
    HeldShortcuts, HoldStart, StartEffect, BROWSER_NAV_DEBOUNCE_NS,
};

const KEY_SPACE: u16 = 57;
const KEY_F2: u16 = 60;

/// `Ctrl+Space`.
fn ctrl_space() -> KeyCombo {
    KeyCombo {
        modifiers: KeyModifiers {
            control: true,
            ..KeyModifiers::default()
        },
        key: KEY_SPACE,
    }
}

/// `Alt+F2`.
fn alt_f2() -> KeyCombo {
    KeyCombo {
        modifiers: KeyModifiers {
            option: true,
            ..KeyModifiers::default()
        },
        key: KEY_F2,
    }
}

fn hold(combo: KeyCombo) -> Action {
    Action::HoldShortcut(combo)
}

#[test]
fn held_output_is_owned_by_the_exact_press_until_its_terminal_event() {
    let first = PressToken::button(1, ButtonId::Back);
    let second = PressToken::button(2, ButtonId::Forward);
    let mut held = HeldShortcuts::new();

    assert_eq!(
        held.start(&first, &hold(ctrl_space())),
        HoldStart::Started(ctrl_space())
    );
    assert_eq!(
        held.start(&second, &hold(alt_f2())),
        HoldStart::Started(alt_f2())
    );
    assert_eq!(held.end(&first), Some(ctrl_space()));
    assert_eq!(held.end(&first), None, "a press releases at most once");
    assert_eq!(held.end(&second), Some(alt_f2()));
}

#[test]
fn changing_a_hold_within_one_press_balances_the_previous_chord() {
    let press = PressToken::button(1, ButtonId::Back);
    let mut held = HeldShortcuts::new();
    let old = ctrl_space();
    let new = alt_f2();

    assert_eq!(
        held.start(&press, &Action::HoldShortcut(old)),
        HoldStart::Started(old)
    );
    assert_eq!(
        held.start(&press, &Action::HoldShortcut(new)),
        HoldStart::Replaced { old, new }
    );
    assert_eq!(held.end(&press), Some(new));
}

#[test]
fn instantaneous_actions_do_not_enter_held_state() {
    let press = PressToken::button(1, ButtonId::Back);
    let mut held = HeldShortcuts::new();

    assert_eq!(held.start(&press, &Action::Copy), HoldStart::NotHeld);
    assert_eq!(held.end(&press), None);
}

#[test]
fn a_key_press_and_a_button_press_with_one_serial_are_different_presses() {
    let button = PressToken::button(7, ButtonId::Back);
    let key = PressToken::key(7, 30);
    let mut held = HeldShortcuts::new();
    held.start(&button, &hold(ctrl_space()));
    assert_eq!(held.end(&key), None);
    assert_eq!(held.end(&button), Some(ctrl_space()));
}

#[test]
fn starting_a_macro_leaves_held_chords_alone() {
    let press = PressToken::button(1, ButtonId::Back);
    let mut held = HeldShortcuts::new();
    assert_eq!(
        start_action(&mut held, &press, &hold(ctrl_space())),
        StartEffect::PressHold(ctrl_space())
    );
    assert_eq!(
        start_action(&mut held, &press, &Action::RunMacro(MacroId("hyper".into()))),
        StartEffect::RunMacro(MacroId("hyper".into()))
    );
    assert_eq!(
        start_action(&mut held, &press, &Action::Copy),
        StartEffect::Dispatch
    );
    assert_eq!(
        start_action(&mut held, &press, &hold(alt_f2())),
        StartEffect::ReplaceHold {
            old: ctrl_space(),
            new: alt_f2()
        }
    );
    assert_eq!(held.end(&press), Some(alt_f2()));
}

#[test]
fn a_dispatched_macro_runs_once_and_the_rest_is_routed_by_kind() {
    assert_eq!(
        dispatch_route(&Action::RunMacro(MacroId("hyper".into()))),
        DispatchRoute::RunMacroOnce(MacroId("hyper".into()))
    );
    assert_eq!(
        dispatch_route(&Action::ShowActionsRing),
        DispatchRoute::ShowActionsRing
    );
    assert_eq!(
        dispatch_route(&Action::CycleDpiPresets),
        DispatchRoute::CycleDpiPresets
    );
    assert_eq!(
        dispatch_route(&Action::SetDpiPreset(2)),
        DispatchRoute::SetDpiPreset(2)
    );
    assert_eq!(
        dispatch_route(&Action::ToggleSmartShift),
        DispatchRoute::ToggleSmartShift
    );
    assert_eq!(
        dispatch_route(&Action::BrowserBack),
        DispatchRoute::BrowserNavigation
    );
    assert_eq!(
        dispatch_route(&Action::BrowserForward),
        DispatchRoute::BrowserNavigation
    );
    assert_eq!(dispatch_route(&Action::Copy), DispatchRoute::Inject);
}

#[test]
fn a_browser_navigation_seen_twice_navigates_once() {
    let mut debounce = BrowserNavDebounce::new();
    let t0 = 5_000_000_000;
    assert!(browser_nav_debounce_ok(&mut debounce, &Action::BrowserBack, t0));
    // The same press through the second capture path, a millisecond later.
    assert!(!browser_nav_debounce_ok(
        &mut debounce,
        &Action::BrowserBack,
        t0 + 1_000_000
    ));
    // Forward has its own slot.
    assert!(browser_nav_debounce_ok(
        &mut debounce,
        &Action::BrowserForward,
        t0 + 1_000_000
    ));
    // Once the debounce has passed, back fires again.
    assert!(browser_nav_debounce_ok(
        &mut debounce,
        &Action::BrowserBack,
        t0 + BROWSER_NAV_DEBOUNCE_NS
    ));
    assert_eq!(debounce.last_back, Some(t0 + BROWSER_NAV_DEBOUNCE_NS));
    assert_eq!(debounce.last_forward, Some(t0 + 1_000_000));
}

#[test]
fn a_suppressed_navigation_does_not_extend_the_debounce() {
    let mut debounce = BrowserNavDebounce::new();
    assert!(browser_nav_debounce_ok(&mut debounce, &Action::BrowserBack, 1_000));
    assert!(!browser_nav_debounce_ok(
        &mut debounce,
        &Action::BrowserBack,
        1_000 + BROWSER_NAV_DEBOUNCE_NS - 1
    ));
    assert_eq!(debounce.last_back, Some(1_000));
    assert!(browser_nav_debounce_ok(
        &mut debounce,
        &Action::BrowserBack,
        1_000 + BROWSER_NAV_DEBOUNCE_NS
    ));
}

#[test]
fn a_terminal_event_releases_the_chord_and_stops_the_run_once() {
    let press = PressToken::button(1, ButtonId::Back);
    let mut held = HeldShortcuts::new();
    held.start(&press, &hold(ctrl_space()));
    let mut macros = AssocMap::new();
    macros.insert(
        MacroId("spam".into()),
        Macro {
            id: MacroId("spam".into()),
            name: "Spam".into(),
            steps: vec![Step::KeyTap(57)],
            repeat: RepeatMode::WhileHeld { interval_ms: 25 },
        },
    );
    let mut runs = MacroRuns::new();
    match runs.plan_start(&macros, &press.control, None, &MacroId("spam".into())) {
        StartPlan::Own(_) => assert_eq!(runs.own(&press, 7), None),
        _ => panic!("a WhileHeld macro is owned by its press"),
    }

    let ended = end_press(&mut held, &mut runs, &press);
    assert_eq!(ended.release, Some(ctrl_space()));
    assert_eq!(ended.stop, Some(7));

    let again = end_press(&mut held, &mut runs, &press);
    assert_eq!(again.release, None);
    assert_eq!(again.stop, None);
}

