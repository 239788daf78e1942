use openhub::timer::{Pacer, MIN_INTERVAL_NS, NANOS_PER_MILLI};

const START: u64 = 1_000_000_000;

fn ms(n: u64) -> u64 {
    n * NANOS_PER_MILLI
}

/// A run that costs time does not push the following deadlines later.
#[test]
fn deadlines_do_not_accumulate_the_cost_of_a_run() {
    let start = START;
    let mut pacer = Pacer::new(25, start);

    let first = pacer.next_deadline(start);
    // The first run cost 10 ms, so the second deadline is asked for at 35 ms;
    // it is still 50 ms after the start, not 60 ms.
    let second = pacer.next_deadline(start + ms(35));

    assert_eq!(first - start, ms(25));
    assert_eq!(second - start, ms(50));
}

#[test]
fn a_deadline_in_the_past_resynchronises_to_now() {
    let start = START;
    let mut pacer = Pacer::new(25, start);
    let now = start + ms(10_000);

    assert_eq!(pacer.next_deadline(now), now);
}

#[test]
fn a_zero_interval_is_clamped() {
    let start = START;
    let mut pacer = Pacer::new(0, start);

    assert_eq!(pacer.next_deadline(start) - start, ms(1));
    assert_eq!(MIN_INTERVAL_NS, ms(1));
}

#[test]
fn a_cadence_that_keeps_up_lands_on_exact_multiples() {
    let start = START;
    let mut pacer = Pacer::new(25, start);
    for k in 1..=100u64 {
        // Each deadline is asked for a little after the previous one.
        let deadline = pacer.next_deadline(start + ms(25 * (k - 1)) + 3);
        assert_eq!(deadline, start + ms(25 * k));
    }
}

#[test]
fn after_resynchronising_the_cadence_continues_from_now() {
    let start = START;
    let mut pacer = Pacer::new(25, start);
    let late = start + ms(100);
    assert_eq!(pacer.next_deadline(late), late);
    assert_eq!(pacer.next_deadline(late), late + ms(25));
}

#[test]
fn the_clock_end_is_reported_before_it_is_reached() {
    let pacer = Pacer::new(25, u64::MAX - ms(10));
    assert!(!pacer.can_advance());
    let pacer = Pacer::new(25, u64::MAX - ms(25));
    assert!(pacer.can_advance());
}
