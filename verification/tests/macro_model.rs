use openhub::macro_model::{Macro, MacroId, RepeatMode, Step};

#[test]
fn held_codes_reports_every_code_a_run_could_leave_down() {
    let m = Macro {
        id: MacroId("half-hyper".into()),
        name: "Half Hyper".into(),
        steps: vec![Step::KeyDown(56), Step::KeyTap(47)],
        repeat: RepeatMode::WhileHeld { interval_ms: 25 },
    };

    assert_eq!(m.held_codes(), vec![56]);
}

#[test]
fn a_macro_of_taps_can_leak_nothing() {
    let m = Macro {
        id: MacroId("superspace".into()),
        name: "SuperSpace".into(),
        steps: vec![Step::KeyTap(57)],
        repeat: RepeatMode::WhileHeld { interval_ms: 25 },
    };

    assert!(m.held_codes().is_empty());
}

#[test]
fn held_codes_covers_buttons_too() {
    let m = Macro {
        id: MacroId("drag".into()),
        name: "Drag".into(),
        steps: vec![Step::ButtonDown(272), Step::Delay { millis: 50 }],
        repeat: RepeatMode::Once,
    };

    assert_eq!(m.held_codes(), vec![272]);
}

#[test]
fn a_balanced_down_and_up_is_not_held() {
    let m = Macro {
        id: MacroId("balanced".into()),
        name: "Balanced".into(),
        steps: vec![Step::KeyDown(29), Step::KeyTap(46), Step::KeyUp(29)],
        repeat: RepeatMode::Once,
    };

    assert!(m.held_codes().is_empty());
}

#[test]
fn held_codes_are_sorted_and_listed_once() {
    let m = Macro {
        id: MacroId("chord".into()),
        name: "Chord".into(),
        steps: vec![
            Step::KeyDown(56),
            Step::KeyDown(29),
            Step::ButtonDown(272),
            Step::KeyDown(56),
            Step::KeyUp(29),
            Step::KeyDown(42),
        ],
        repeat: RepeatMode::Once,
    };

    assert_eq!(m.held_codes(), vec![42, 56, 272]);
}

#[test]
fn a_later_down_holds_a_released_code_again() {
    let m = Macro {
        id: MacroId("again".into()),
        name: "Again".into(),
        steps: vec![Step::KeyDown(30), Step::KeyUp(30), Step::KeyDown(30)],
        repeat: RepeatMode::Once,
    };

    assert_eq!(m.held_codes(), vec![30]);
}

#[test]
fn a_single_pass_keeps_the_steps_and_drops_the_repeat() {
    let m = Macro {
        id: MacroId("spam".into()),
        name: "Spam".into(),
        steps: vec![Step::KeyTap(57)],
        repeat: RepeatMode::Toggle { interval_ms: 25 },
    };
    let once = m.single_pass();
    assert_eq!(once.repeat, RepeatMode::Once);
    assert_eq!(once.steps, m.steps);
    assert_eq!(once.id, m.id);
}
