use std::cell::RefCell;

use openhub::button::ButtonId;
use openhub::macro_model::{Macro, MacroId, RepeatMode, Step};
use openhub::macro_runs::{lookup, run_once, LatchKey, MacroRuns, MacroTable, StartPlan};
use openhub::maps::AssocMap;
use openhub::press::{PressControl, PressToken};

/// Records every definition it was asked to start; a handle is its index.
#[derive(Default)]
struct Starts {
    started: RefCell<Vec<Macro>>,
}

impl Starts {
    fn start(&self, definition: &Macro) -> usize {
        let mut started = self.started.borrow_mut();
        started.push(definition.clone());
        started.len() - 1
    }
}

/// What starting a macro for a press did.
#[derive(Debug, PartialEq)]
enum RunStart {
    Unknown,
    Latched,
    Unlatched(usize),
    PressOwned(Option<usize>),
}

/// Plan the press, start what the plan names, and record the run.
fn start(
    runs: &mut MacroRuns<usize>,
    starts: &Starts,
    macros: &MacroTable,
    press: &PressToken,
    control: &PressControl,
    device_key: Option<&str>,
    id: &MacroId,
) -> RunStart {
    match runs.plan_start(macros, control, device_key, id) {
        StartPlan::Unknown => RunStart::Unknown,
        StartPlan::Unlatch(run) => RunStart::Unlatched(run),
        StartPlan::Latch(definition, key) => {
            let run = starts.start(&definition);
            assert_eq!(runs.latch(key, run), None);
            RunStart::Latched
        }
        StartPlan::Own(definition) => {
            let run = starts.start(&definition);
            RunStart::PressOwned(runs.own(press, run))
        }
    }
}

fn definition(id: &str, repeat: RepeatMode) -> Macro {
    Macro {
        id: MacroId(id.into()),
        name: id.into(),
        steps: vec![Step::KeyTap(57)],
        repeat,
    }
}

fn table() -> MacroTable {
    let mut macros = AssocMap::new();
    macros.insert(
        MacroId("spam".into()),
        definition("spam", RepeatMode::WhileHeld { interval_ms: 25 }),
    );
    macros.insert(
        MacroId("toggle".into()),
        definition("toggle", RepeatMode::Toggle { interval_ms: 25 }),
    );
    macros
}

#[test]
fn a_press_owns_its_run_until_its_terminal_event() {
    let starts = Starts::default();
    let macros = table();
    let mut runs = MacroRuns::new();
    let press = PressToken::button(1, ButtonId::Back);

    let outcome = start(&mut runs, &starts,
        &macros,
        &press,
        &press.control,
        None,
        &MacroId("spam".into()),
    );
    assert!(matches!(outcome, RunStart::PressOwned(None)));
    assert_eq!(runs.counts(), (1, 0));
    assert_eq!(runs.end_press(&press), Some(0));
    assert_eq!(runs.end_press(&press), None);
    assert_eq!(runs.counts(), (0, 0));
}

#[test]
fn a_toggle_run_latches_past_its_release_and_stops_on_the_next_press() {
    let starts = Starts::default();
    let macros = table();
    let mut runs = MacroRuns::new();
    let first = PressToken::button(1, ButtonId::Forward);
    let control = first.control;

    let latched = start(&mut runs, &starts, &macros, &first, &control, Some("dev"), &MacroId("toggle".into()));
    assert!(matches!(latched, RunStart::Latched));
    assert_eq!(runs.end_press(&first), None, "a toggle outlives its press");
    assert!(runs.is_latched(Some("dev"), &control));

    let second = PressToken::button(2, ButtonId::Forward);
    let unlatched = start(&mut runs, &starts, &macros, &second, &control, Some("dev"), &MacroId("toggle".into()));
    assert!(matches!(unlatched, RunStart::Unlatched(0)));
    assert!(!runs.is_latched(Some("dev"), &control));
    assert_eq!(starts.started.borrow().len(), 1);
}

#[test]
fn stop_source_stops_only_the_runs_from_that_source() {
    let starts = Starts::default();
    let macros = table();
    let mut runs = MacroRuns::new();
    let receiver = PressControl::Button(ButtonId::Forward);
    let hook = PressControl::Button(ButtonId::Back);

    start(&mut runs, &starts,
        &macros,
        &PressToken::button(1, ButtonId::Forward),
        &receiver,
        Some("receiver:abc:slot:1"),
        &MacroId("toggle".into()),
    );
    start(&mut runs, &starts,
        &macros,
        &PressToken::button(2, ButtonId::Back),
        &hook,
        None,
        &MacroId("toggle".into()),
    );
    assert_eq!(runs.counts(), (0, 2));

    let stopped = runs.stop_source(Some("receiver:abc:slot:1"));
    assert_eq!(stopped, vec![0]);
    assert!(runs.is_latched(None, &hook), "the hook's run must survive");
    assert!(!runs.is_latched(Some("receiver:abc:slot:1"), &receiver));

    assert_eq!(runs.stop_source(None), vec![1]);
    assert_eq!(runs.counts(), (0, 0));
}

#[test]
fn an_unknown_macro_id_starts_nothing() {
    let starts = Starts::default();
    let macros = table();
    let mut runs = MacroRuns::new();
    let press = PressToken::button(1, ButtonId::Back);
    let outcome = start(&mut runs, &starts, &macros, &press, &press.control, None, &MacroId("deleted".into()));
    assert!(matches!(outcome, RunStart::Unknown));
    assert!(run_once(&macros, &MacroId("deleted".into())).is_none());
    assert!(starts.started.borrow().is_empty());
    assert!(lookup(&macros, &MacroId("deleted".into())).is_none());
}

#[test]
fn run_once_degrades_a_repeating_macro_to_a_single_pass() {
    let macros = table();
    let once = run_once(&macros, &MacroId("spam".into())).unwrap();
    assert_eq!(once.repeat, RepeatMode::Once);
    assert_eq!(once.steps, vec![Step::KeyTap(57)]);
    assert_eq!(once.id, MacroId("spam".into()));
    assert_eq!(once.name, "spam");
}

#[test]
fn stop_all_reaches_a_latched_toggle_no_press_still_owns() {
    let starts = Starts::default();
    let macros = table();
    let mut runs = MacroRuns::new();
    let press = PressToken::button(1, ButtonId::Back);
    start(&mut runs, &starts, &macros, &press, &press.control, None, &MacroId("toggle".into()));
    let held = PressToken::button(2, ButtonId::Forward);
    start(&mut runs, &starts, &macros, &held, &held.control, None, &MacroId("spam".into()));
    runs.end_press(&press);

    let mut stopped = runs.stop_all();
    stopped.sort();
    assert_eq!(stopped, vec![0, 1]);
    assert_eq!(runs.counts(), (0, 0));
    assert!(!runs.is_latched(None, &press.control));
}

#[test]
fn a_press_cannot_own_two_runs() {
    let starts = Starts::default();
    let macros = table();
    let mut runs = MacroRuns::new();
    let press = PressToken::button(1, ButtonId::Back);
    start(&mut runs, &starts, &macros, &press, &press.control, None, &MacroId("spam".into()));
    let again = start(&mut runs, &starts, &macros, &press, &press.control, None, &MacroId("spam".into()));
    assert!(matches!(again, RunStart::PressOwned(Some(0))));
    assert_eq!(runs.counts(), (1, 0));
}

#[test]
fn a_latch_key_is_the_control_on_its_device() {
    let control = PressControl::Key(30);
    let key = LatchKey::new(Some("kbd"), &control);
    assert_eq!(key.device_key.as_deref(), Some("kbd"));
    assert_eq!(key.control, control);
    assert_eq!(LatchKey::new(None, &control).device_key, None);
}

#[test]
fn a_plan_names_the_configured_definition_to_start() {
    let macros = table();
    let mut runs: MacroRuns<usize> = MacroRuns::new();
    let control = PressControl::Button(ButtonId::Back);
    match runs.plan_start(&macros, &control, None, &MacroId("spam".into())) {
        StartPlan::Own(definition) => {
            assert_eq!(definition, macros.get(&MacroId("spam".into())).unwrap().clone());
        }
        _ => panic!("a WhileHeld macro is owned by its press"),
    }
    match runs.plan_start(&macros, &control, Some("dev"), &MacroId("toggle".into())) {
        StartPlan::Latch(definition, key) => {
            assert_eq!(definition.repeat, RepeatMode::Toggle { interval_ms: 25 });
            assert_eq!(key, LatchKey::new(Some("dev"), &control));
        }
        _ => panic!("a Toggle macro latches"),
    }
    assert_eq!(runs.counts(), (0, 0));
}
