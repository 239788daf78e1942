use std::cell::Cell;
use std::rc::Rc;


use openhub::executor::{
    cadence, repeat, run, runs_again, sequence, ClockLog, Edge, Executor, Held, Ledger, RecordingSink,
    RunClock,
};
use openhub::macro_model::{Macro, MacroId, RepeatMode, Step};

/// What a recording sink saw, as `(kind, code)` pairs.
fn events(sink: &RecordingSink) -> Vec<(&'static str, u16)> {
    sink.edges()
        .iter()
        .map(|edge| match edge {
            Edge::Down(Held::Key(c)) => ("kd", *c),
            Edge::Up(Held::Key(c)) => ("ku", *c),
            Edge::Down(Held::Button(c)) => ("bd", *c),
            Edge::Up(Held::Button(c)) => ("bu", *c),
        })
        .collect()
}

/// Every down has a matching up by the end.
fn is_balanced(sink: &RecordingSink) -> bool {
    let mut held: Vec<u16> = Vec::new();
    for (kind, code) in events(sink) {
        match kind {
            "kd" | "bd" => held.push(code),
            _ => {
                if let Some(i) = held.iter().position(|c| *c == code) {
                    held.remove(i);
                }
            }
        }
    }
    held.is_empty()
}

fn count(sink: &RecordingSink, kind: &str, code: u16) -> usize {
    events(sink)
        .iter()
        .filter(|(k, c)| *k == kind && *c == code)
        .count()
}

/// A clock that only moves when the run waits, and raises the stop signal
/// once it reaches `stop_at_ns`.
struct VirtualClock {
    now: Rc<Cell<u64>>,
    stop_at_ns: u64,
    sleeps: usize,
}

impl VirtualClock {
    fn stopping_at(stop_at_ns: u64) -> Self {
        VirtualClock {
            now: Rc::new(Cell::new(0)),
            stop_at_ns,
            sleeps: 0,
        }
    }

    fn time(&self) -> u64 {
        self.now.get()
    }
}

impl RunClock for VirtualClock {
    fn now_ns(&mut self) -> u64 {
        self.now.get()
    }

    fn sleep_until_ns(&mut self, deadline_ns: u64) -> bool {
        self.sleeps += 1;
        let now = self.now.get();
        if now >= self.stop_at_ns {
            return true;
        }
        if deadline_ns >= self.stop_at_ns {
            self.now.set(self.stop_at_ns);
            return true;
        }
        if deadline_ns > now {
            self.now.set(deadline_ns);
        }
        false
    }
}

fn hyper() -> Macro {
    Macro {
        id: MacroId("hyper".into()),
        name: "Hyper".into(),
        steps: vec![Step::KeyDown(56), Step::KeyTap(47), Step::KeyUp(56)],
        repeat: RepeatMode::WhileHeld { interval_ms: 25 },
    }
}

const MS: u64 = 1_000_000;

#[test]
fn once_runs_the_sequence_exactly_once() {
    let exec = Executor::new(RecordingSink::new());
    assert!(exec.sink().edges().is_empty(), "building an executor emits nothing");
    let mut sink = RecordingSink::new();
    let mut m = hyper();
    m.repeat = RepeatMode::Once;

    let ledger = run(&m, &mut sink, &mut ClockLog::new(VirtualClock::stopping_at(u64::MAX)));

    assert_eq!(count(&sink, "kd", 56), 1);
    assert!(is_balanced(&sink));
    assert!(ledger.held_now().is_empty());
}

#[test]
fn while_held_repeats_until_stopped() {
    let mut sink = RecordingSink::new();
    let mut clock = ClockLog::new(VirtualClock::stopping_at(200 * MS));

    run(&hyper(), &mut sink, &mut clock);

    // 200 ms at 25 ms: a first pass at 0 and one on each of the eight
    // deadlines before the stop.
    assert_eq!(count(&sink, "kd", 56), 8);
    // Eight waits on the cadence: seven answered "go on", the eighth the stop.
    assert_eq!(clock.clock().sleeps, 8);
    assert!(is_balanced(&sink));
}

#[test]
fn a_wait_that_reports_the_stop_ends_the_run() {
    assert!(runs_again(false));
    assert!(!runs_again(true));
}

#[test]
fn stopping_mid_sequence_still_releases_everything() {
    let mut sink = RecordingSink::new();
    let m = Macro {
        id: MacroId("slow".into()),
        name: "Slow".into(),
        steps: vec![
            Step::KeyDown(56),
            Step::Delay { millis: 5_000 },
            Step::KeyUp(56),
        ],
        repeat: RepeatMode::Once,
    };

    run(&m, &mut sink, &mut ClockLog::new(VirtualClock::stopping_at(50 * MS)));

    assert!(is_balanced(&sink), "Alt was left held: {:?}", events(&sink));
}

#[test]
fn a_code_left_down_is_released_once_at_the_end() {
    let mut sink = RecordingSink::new();
    let m = Macro {
        id: MacroId("slow".into()),
        name: "Slow".into(),
        steps: vec![Step::KeyDown(56), Step::Delay { millis: 5_000 }],
        repeat: RepeatMode::Once,
    };

    run(&m, &mut sink, &mut ClockLog::new(VirtualClock::stopping_at(50 * MS)));

    assert_eq!(events(&sink), vec![("kd", 56), ("ku", 56)]);
}

#[test]
fn the_drain_releases_newest_first() {
    let mut sink = RecordingSink::new();
    let m = Macro {
        id: MacroId("chord".into()),
        name: "Chord".into(),
        steps: vec![Step::KeyDown(29), Step::KeyDown(56), Step::ButtonDown(272)],
        repeat: RepeatMode::Once,
    };

    run(&m, &mut sink, &mut ClockLog::new(VirtualClock::stopping_at(u64::MAX)));

    assert_eq!(
        events(&sink),
        vec![
            ("kd", 29),
            ("kd", 56),
            ("bd", 272),
            ("bu", 272),
            ("ku", 56),
            ("ku", 29),
        ]
    );
}

#[test]
fn the_cadence_does_not_accumulate_the_cost_of_a_run() {
    // Each pass spends 10 ms of its 25 ms slot working. A loop that slept the
    // interval after each pass would fit 14 passes into 500 ms; a cadence
    // anchored to its deadlines fits 20.
    let mut clock = ClockLog::new(VirtualClock::stopping_at(500 * MS));
    let mut sink = RecordingSink::new();
    let m = Macro {
        id: MacroId("costly".into()),
        name: "Costly".into(),
        steps: vec![
            Step::KeyDown(56),
            Step::Delay { millis: 10 },
            Step::KeyUp(56),
        ],
        repeat: RepeatMode::WhileHeld { interval_ms: 25 },
    };

    run(&m, &mut sink, &mut clock);

    assert_eq!(count(&sink, "kd", 56), 20);
    assert!(is_balanced(&sink));
}

#[test]
fn a_stopped_run_finishes_its_pass_without_waiting() {
    let mut sink = RecordingSink::new();
    let mut clock = ClockLog::new(VirtualClock::stopping_at(0));
    let m = Macro {
        id: MacroId("slow".into()),
        name: "Slow".into(),
        steps: vec![
            Step::KeyDown(56),
            Step::Delay { millis: 5_000 },
            Step::KeyTap(47),
            Step::Delay { millis: 5_000 },
            Step::KeyUp(56),
        ],
        repeat: RepeatMode::Toggle { interval_ms: 25 },
    };

    run(&m, &mut sink, &mut clock);

    assert_eq!(clock.clock().time(), 0);
    assert_eq!(count(&sink, "kd", 56), 1);
    assert_eq!(count(&sink, "kd", 47), 1);
    assert!(is_balanced(&sink));
}

#[test]
fn a_ledger_holds_each_code_once_in_press_order() {
    let mut sink = RecordingSink::new();
    let mut ledger = Ledger::new();
    ledger.press(&mut sink, Held::Key(56));
    ledger.press(&mut sink, Held::Button(272));
    ledger.press(&mut sink, Held::Key(56));
    assert_eq!(ledger.held_now(), &vec![Held::Key(56), Held::Button(272)]);
    ledger.release(&mut sink, Held::Key(56));
    assert_eq!(ledger.held_now(), &vec![Held::Button(272)]);
    assert_eq!(ledger.drain(), vec![Held::Button(272)]);
    assert!(ledger.held_now().is_empty());
}

#[test]
fn one_pass_and_the_repeat_modes() {
    let mut sink = RecordingSink::new();
    let mut ledger = Ledger::new();
    sequence(&hyper(), &mut sink, &mut ledger, &mut VirtualClock::stopping_at(u64::MAX));
    assert_eq!(
        events(&sink),
        vec![("kd", 56), ("kd", 47), ("ku", 47), ("ku", 56)]
    );
    assert_eq!(cadence(RepeatMode::Once), None);
    assert_eq!(cadence(RepeatMode::WhileHeld { interval_ms: 25 }), Some(25));
    assert_eq!(cadence(RepeatMode::Toggle { interval_ms: 40 }), Some(40));

    let mut sink = RecordingSink::new();
    let mut ledger = Ledger::new();
    let mut once = hyper();
    once.repeat = RepeatMode::Once;
    let mut clock = ClockLog::new(VirtualClock::stopping_at(u64::MAX));
    repeat(&once, &mut sink, &mut ledger, &mut clock);
    assert_eq!(clock.clock().sleeps, 0);
    assert_eq!(count(&sink, "kd", 56), 1);
}

#[test]
fn a_run_stopped_before_it_began_makes_exactly_one_pass() {
    let mut sink = RecordingSink::new();
    let mut clock = ClockLog::new(VirtualClock::stopping_at(0));
    let mut ledger = Ledger::new();
    repeat(&hyper(), &mut sink, &mut ledger, &mut clock);
    assert_eq!(
        events(&sink),
        vec![("kd", 56), ("kd", 47), ("ku", 47), ("ku", 56)]
    );
    assert!(ledger.held_now().is_empty());
}

#[test]
fn a_stopped_pass_is_finished_in_order_without_waiting() {
    let mut sink = RecordingSink::new();
    let mut clock = VirtualClock::stopping_at(0);
    let mut ledger = Ledger::new();
    let m = Macro {
        id: MacroId("slow".into()),
        name: "Slow".into(),
        steps: vec![
            Step::KeyDown(56),
            Step::Delay { millis: 5_000 },
            Step::ButtonTap(272),
            Step::KeyUp(56),
        ],
        repeat: RepeatMode::Once,
    };
    sequence(&m, &mut sink, &mut ledger, &mut clock);
    assert_eq!(clock.time(), 0);
    assert_eq!(
        events(&sink),
        vec![("kd", 56), ("bd", 272), ("bu", 272), ("ku", 56)]
    );
    assert!(ledger.held_now().is_empty());
}

#[test]
fn release_all_releases_through_the_sink_newest_first() {
    let mut sink = RecordingSink::new();
    let mut ledger = Ledger::new();
    ledger.press(&mut sink, Held::Key(29));
    ledger.press(&mut sink, Held::Button(272));
    ledger.release_all(&mut sink);
    assert_eq!(
        events(&sink),
        vec![("kd", 29), ("bd", 272), ("bu", 272), ("ku", 29)]
    );
    assert!(ledger.held_now().is_empty());
}
