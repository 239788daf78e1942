//! Running a macro, and the guarantee that it releases what it pressed.
//!
//! The guarantee is a ledger. Every code a run presses is recorded before it
//! is emitted, every release removes it again, and every exit path drains what
//! is left. Releasing the button between `KeyDown(Alt)` and `KeyUp(Alt)` is
//! the case that leaves Alt held forever in a naive implementation; here the
//! drain releases Alt on the way out.
//!
//! The ledger keeps a log of every edge it has emitted or handed out to emit,
//! and its invariant ties what it still holds to the keys that log leaves
//! pressed. A pass over the steps emits through a [`Sink`], whose contract is
//! that each call appends its edge to the sink's account of what went out;
//! the passes and the final release are stated of that account, so "a run
//! leaves nothing pressed" holds of whatever the sink's implementation does
//! with each call it receives. Threads, clocks and panics are the caller's: a
//! pass waits on a [`RunClock`], and a repeating run paces itself through a
//! [`ClockLog`], whose account of every wait and the clock's answer to it fixes
//! how many passes the run made.

use vstd::prelude::*;

use crate::macro_model::{held_after, Macro, RepeatMode, Step};
use crate::timer::{deadline_after, interval_ns_of, Pacer, MIN_INTERVAL_NS, NANOS_PER_MILLI};

verus! {

/// Where a run emits its input events.
///
/// Methods cannot fail: a run thread has nowhere to return an error to, and an
/// injector that drops one event must not be able to abort the sequence that
/// would have released a held key. Every call appends its edge to
/// [`Sink::emitted`], the sink's account of what went out through it.
pub trait Sink {
    /// Every edge emitted through this sink, in order.
    spec fn emitted(&self) -> Seq<Edge>;

    /// Press a key and leave it down.
    fn key_down(&mut self, code: u16)
        ensures
            final(self).emitted() == old(self).emitted().push(Edge::Down(Held::Key(code))),
    ;

    /// Release a key.
    fn key_up(&mut self, code: u16)
        ensures
            final(self).emitted() == old(self).emitted().push(Edge::Up(Held::Key(code))),
    ;

    /// Press a mouse button and leave it down.
    fn button_down(&mut self, code: u16)
        ensures
            final(self).emitted() == old(self).emitted().push(Edge::Down(Held::Button(code))),
    ;

    /// Release a mouse button.
    fn button_up(&mut self, code: u16)
        ensures
            final(self).emitted() == old(self).emitted().push(Edge::Up(Held::Button(code))),
    ;
}

/// One call a run made of its clock.
#[derive(Clone, Copy, Debug, PartialEq, Eq, Structural)]
pub enum ClockCall {
    /// A reading, and the instant it returned.
    Read(u64),
    /// A wait until this deadline.
    Sleep(u64),
}

/// A run's clock and its stop signal.
///
/// Signalling the stop wakes a waiting run immediately, which is what makes a
/// five-second `Delay` step releasable in microseconds rather than in five
/// seconds.
///
/// A clock may keep an account of the calls made of it ([`RunClock::calls`]);
/// one that does says so with [`RunClock::keeps_account`], and the run's
/// contracts then state every reading and every deadline it was asked for. A
/// clock that keeps none is promised nothing about.
pub trait RunClock {
    /// Whether this clock keeps the account of [`RunClock::calls`].
    open spec fn keeps_account() -> bool {
        false
    }

    /// Every call made of this clock, in order, when it keeps an account.
    open spec fn calls(&self) -> Seq<ClockCall> {
        Seq::empty()
    }

    /// Nanoseconds on a monotonic clock, from an origin the clock chose.
    fn now_ns(&mut self) -> (now: u64)
        ensures
            Self::keeps_account() ==> final(self).calls() == old(self).calls().push(
                ClockCall::Read(now),
            ),
    ;

    /// Wait until `deadline_ns`, returning as soon as the stop signal
    /// arrives. Returns `true` when it returned because of the signal,
    /// including when the signal was raised before the call, so a stopped run
    /// never sleeps again.
    fn sleep_until_ns(&mut self, deadline_ns: u64) -> (stopped: bool)
        ensures
            Self::keeps_account() ==> final(self).calls() == old(self).calls().push(
                ClockCall::Sleep(deadline_ns),
            ),
    ;
}

/// A sink that keeps what it was sent: the edges, in order. A run emitted
/// through it can be replayed, inspected, or forwarded as a batch.
pub struct RecordingSink {
    edges: Vec<Edge>,
}

impl RecordingSink {
    /// Nothing recorded yet.
    pub fn new() -> (sink: RecordingSink)
        ensures
            sink.emitted() == Seq::<Edge>::empty(),
    {
        RecordingSink { edges: Vec::new() }
    }

    /// The edges recorded so far, in order.
    pub fn edges(&self) -> (edges: &Vec<Edge>)
        ensures
            edges@ == self.emitted(),
    {
        &self.edges
    }
}

impl Sink for RecordingSink {
    closed spec fn emitted(&self) -> Seq<Edge> {
        self.edges@
    }

    fn key_down(&mut self, code: u16) {
        self.edges.push(Edge::Down(Held::Key(code)));
    }

    fn key_up(&mut self, code: u16) {
        self.edges.push(Edge::Up(Held::Key(code)));
    }

    fn button_down(&mut self, code: u16) {
        self.edges.push(Edge::Down(Held::Button(code)));
    }

    fn button_up(&mut self, code: u16) {
        self.edges.push(Edge::Up(Held::Button(code)));
    }
}

/// Starts macro runs against one sink.
///
/// The executor itself holds no run state: each run emits through its own
/// copy of the sink, so one executor serves every button binding, and two runs
/// started from it are independent.
pub struct Executor<S> {
    sink: S,
}

impl<S: Sink> Executor<S> {
    /// The sink this executor emits through.
    pub closed spec fn spec_sink(&self) -> S {
        self.sink
    }

    /// Build an executor that emits through `sink`. Building it emits
    /// nothing: the sink's account is what it was.
    pub fn new(sink: S) -> (executor: Self)
        ensures
            executor.spec_sink() == sink,
            executor.spec_sink().emitted() == sink.emitted(),
    {
        Executor { sink }
    }

    /// The sink this executor emits through.
    pub fn sink(&self) -> (sink: &S)
        ensures
            *sink == self.spec_sink(),
    {
        &self.sink
    }
}

/// The interval a repeat mode runs on, or `None` for a single pass.
///
/// `Toggle` differs from `WhileHeld` only in what starts and stops it, which
/// is the button runtime's business, not the executor's.
pub open spec fn cadence_of(mode: RepeatMode) -> Option<u32> {
    match mode {
        RepeatMode::Once => None,
        RepeatMode::WhileHeld { interval_ms } => Some(interval_ms),
        RepeatMode::Toggle { interval_ms } => Some(interval_ms),
    }
}

/// The interval a repeat mode runs on, or `None` for a single pass.
pub fn cadence(mode: RepeatMode) -> (interval_ms: Option<u32>)
    ensures
        interval_ms == cadence_of(mode),
{
    match mode {
        RepeatMode::Once => None,
        RepeatMode::WhileHeld { interval_ms } => Some(interval_ms),
        RepeatMode::Toggle { interval_ms } => Some(interval_ms),
    }
}

/// One code a run has pressed, and how to let go of it.
#[derive(Clone, Copy, Debug, PartialEq, Eq, Structural)]
pub enum Held {
    /// A keyboard key.
    Key(u16),
    /// A mouse button.
    Button(u16),
}

impl Held {
    /// Emit this code's press.
    pub fn down<S: Sink>(self, sink: &mut S)
        ensures
            final(sink).emitted() == old(sink).emitted().push(Edge::Down(self)),
    {
        match self {
            Held::Key(code) => sink.key_down(code),
            Held::Button(code) => sink.button_down(code),
        }
    }

    /// Emit this code's release.
    pub fn up<S: Sink>(self, sink: &mut S)
        ensures
            final(sink).emitted() == old(sink).emitted().push(Edge::Up(self)),
    {
        match self {
            Held::Key(code) => sink.key_up(code),
            Held::Button(code) => sink.button_up(code),
        }
    }
}

/// One edge a run emits.
#[derive(Clone, Copy, Debug, PartialEq, Eq, Structural)]
pub enum Edge {
    /// A press.
    Down(Held),
    /// A release.
    Up(Held),
}

/// What is left pressed after `edges`, in order: a press holds its code, a
/// release lets go of it. Pressing a held code again keeps it held once.
pub open spec fn pressed(edges: Seq<Edge>) -> Set<Held>
    decreases edges.len(),
{
    if edges.len() == 0 {
        Set::empty()
    } else {
        let before = pressed(edges.drop_last());
        match edges.last() {
            Edge::Down(h) => before.insert(h),
            Edge::Up(h) => before.remove(h),
        }
    }
}

/// `held` without `h`, the rest in order.
pub open spec fn without(held: Seq<Held>, h: Held) -> Seq<Held>
    decreases held.len(),
{
    if held.len() == 0 {
        held
    } else if held.last() == h {
        without(held.drop_last(), h)
    } else {
        without(held.drop_last(), h).push(held.last())
    }
}

/// The ledger after one edge: a press is appended unless already held, a
/// release removes the code wherever it stands.
pub open spec fn apply_edge(held: Seq<Held>, e: Edge) -> Seq<Held> {
    match e {
        Edge::Down(h) => if held.contains(h) {
            held
        } else {
            held.push(h)
        },
        Edge::Up(h) => without(held, h),
    }
}

/// The ledger after a sequence of edges.
pub open spec fn apply_edges(held: Seq<Held>, edges: Seq<Edge>) -> Seq<Held>
    decreases edges.len(),
{
    if edges.len() == 0 {
        held
    } else {
        apply_edge(apply_edges(held, edges.drop_last()), edges.last())
    }
}

/// The edges one step emits.
pub open spec fn step_edges(step: Step) -> Seq<Edge> {
    match step {
        Step::KeyDown(code) => seq![Edge::Down(Held::Key(code))],
        Step::KeyUp(code) => seq![Edge::Up(Held::Key(code))],
        Step::KeyTap(code) => seq![Edge::Down(Held::Key(code)), Edge::Up(Held::Key(code))],
        Step::ButtonDown(code) => seq![Edge::Down(Held::Button(code))],
        Step::ButtonUp(code) => seq![Edge::Up(Held::Button(code))],
        Step::ButtonTap(code) => seq![
            Edge::Down(Held::Button(code)),
            Edge::Up(Held::Button(code)),
        ],
        Step::Delay { .. } => seq![],
    }
}

/// What a step does to what a run holds pressed, keys and buttons apart: a
/// down leaves its code pressed, an up or a tap leaves it released, whatever
/// came before, and a delay presses and releases nothing.
pub proof fn lemma_a_step_presses_what_it_names(edges: Seq<Edge>, step: Step)
    ensures
        pressed(edges + step_edges(step)) == match step {
            Step::KeyDown(code) => pressed(edges).insert(Held::Key(code)),
            Step::KeyUp(code) => pressed(edges).remove(Held::Key(code)),
            Step::KeyTap(code) => pressed(edges).remove(Held::Key(code)),
            Step::ButtonDown(code) => pressed(edges).insert(Held::Button(code)),
            Step::ButtonUp(code) => pressed(edges).remove(Held::Button(code)),
            Step::ButtonTap(code) => pressed(edges).remove(Held::Button(code)),
            Step::Delay { .. } => pressed(edges),
        },
{
    let added = step_edges(step);
    let all = edges + added;
    if added.len() == 0 {
        assert(all =~= edges);
    } else if added.len() == 1 {
        assert(all.drop_last() =~= edges);
        assert(all.last() == added[0]);
    } else {
        let mid = edges.push(added[0]);
        assert(all.drop_last() =~= mid);
        assert(all.last() == added[1]);
        assert(mid.drop_last() =~= edges);
        assert(mid.last() == added[0]);
        match step {
            Step::KeyTap(code) => {
                assert(pressed(mid) == pressed(edges).insert(Held::Key(code)));
                assert(pressed(edges).insert(Held::Key(code)).remove(Held::Key(code)) =~= pressed(
                    edges,
                ).remove(Held::Key(code)));
            },
            Step::ButtonTap(code) => {
                assert(pressed(mid) == pressed(edges).insert(Held::Button(code)));
                assert(pressed(edges).insert(Held::Button(code)).remove(Held::Button(code))
                    =~= pressed(edges).remove(Held::Button(code)));
            },
            _ => {},
        }
    }
}

/// The edges one pass over `steps` emits, in order.
pub open spec fn pass_edges(steps: Seq<Step>) -> Seq<Edge>
    decreases steps.len(),
{
    if steps.len() == 0 {
        seq![]
    } else {
        pass_edges(steps.drop_last()) + step_edges(steps.last())
    }
}

/// A pass emits its steps' edges in the order of the steps: a one-step pass
/// emits exactly that step's edges, and a pass over two runs of steps emits
/// the first run's edges, then the second's.
pub proof fn lemma_a_pass_emits_its_steps_in_order(a: Seq<Step>, b: Seq<Step>, step: Step)
    ensures
        pass_edges(seq![step]) == step_edges(step),
        pass_edges(a + b) == pass_edges(a) + pass_edges(b),
    decreases b.len(),
{
    assert(seq![step].drop_last() =~= Seq::<Step>::empty());
    assert(pass_edges(Seq::<Step>::empty()) + step_edges(step) =~= step_edges(step));
    if b.len() == 0 {
        assert(a + b =~= a);
        assert(pass_edges(a) + pass_edges(b) =~= pass_edges(a));
    } else {
        lemma_a_pass_emits_its_steps_in_order(a, b.drop_last(), step);
        assert((a + b).drop_last() =~= a + b.drop_last());
        assert((a + b).last() == b.last());
        assert(pass_edges(a) + pass_edges(b) =~= pass_edges(a) + pass_edges(b.drop_last())
            + step_edges(b.last()));
    }
}

/// The releases a drain emits for `held`: newest first.
pub open spec fn release_edges(held: Seq<Held>) -> Seq<Edge> {
    Seq::new(held.len(), |i: int| Edge::Up(held[held.len() - 1 - i]))
}

/// What the run currently has pressed, in the order it pressed it.
///
/// A `Vec` rather than a set: the order is the release order, and a macro
/// holds a handful of codes at most.
pub struct Ledger {
    held: Vec<Held>,
    log: Ghost<Seq<Edge>>,
}

impl Ledger {
    /// The codes still held, oldest first.
    pub closed spec fn held(&self) -> Seq<Held> {
        self.held@
    }

    /// Every edge emitted, or handed out to emit, through this ledger.
    pub closed spec fn log(&self) -> Seq<Edge> {
        self.log@
    }

    /// The ledger invariant: no code twice, and exactly the codes the log
    /// leaves pressed.
    pub open spec fn wf(&self) -> bool {
        &&& self.held().no_duplicates()
        &&& self.held().to_set() == pressed(self.log())
    }

    /// An empty ledger.
    pub fn new() -> (ledger: Ledger)
        ensures
            ledger.wf(),
            ledger.held() == Seq::<Held>::empty(),
            ledger.log() == Seq::<Edge>::empty(),
    {
        let ledger = Ledger { held: Vec::new(), log: Ghost(Seq::empty()) };
        assert(ledger.held().to_set() =~= Set::<Held>::empty());
        ledger
    }

    /// The codes still held, oldest first.
    pub fn held_now(&self) -> (held: &Vec<Held>)
        ensures
            held@ == self.held(),
    {
        &self.held
    }

    /// Record, then emit.
    ///
    /// That order is deliberate: if the sink fails between the two, the drain
    /// emits a release for a code that may never have gone down, which is
    /// harmless, whereas the opposite order would leave a key down with
    /// nothing recording it.
    pub fn press<S: Sink>(&mut self, sink: &mut S, what: Held)
        requires
            old(self).wf(),
        ensures
            final(sink).emitted() == old(sink).emitted().push(Edge::Down(what)),
            final(self).wf(),
            final(self).held() == apply_edge(old(self).held(), Edge::Down(what)),
            final(self).log() == old(self).log().push(Edge::Down(what)),
    {
        let mut i: usize = 0;
        let mut found = false;
        while i < self.held.len()
            invariant
                0 <= i <= self.held@.len(),
                found ==> self.held@.contains(what),
                !found ==> forall|k: int| 0 <= k < i ==> self.held@[k] != what,
            decreases self.held@.len() - i,
        {
            if self.held[i] == what {
                found = true;
            }
            i = i + 1;
        }
        let ghost before = self.held@;
        if !found {
            self.held.push(what);
            assert forall|a: int, b: int| 0 <= a < b < self.held@.len() implies self.held@[a]
                != self.held@[b] by {
                if b == before.len() {
                    assert(before[a] != what);
                }
            }
            proof { before.lemma_push_to_set_commute(what); }
        } else {
            assert(before.to_set() =~= before.to_set().insert(what));
        }
        proof {
            let new_log = self.log@.push(Edge::Down(what));
            assert(new_log.drop_last() =~= self.log@);
            self.log = Ghost(new_log);
        }
        what.down(sink);
    }

    /// Record the release, then emit it.
    pub fn release<S: Sink>(&mut self, sink: &mut S, what: Held)
        requires
            old(self).wf(),
        ensures
            final(sink).emitted() == old(sink).emitted().push(Edge::Up(what)),
            final(self).wf(),
            final(self).held() == apply_edge(old(self).held(), Edge::Up(what)),
            final(self).log() == old(self).log().push(Edge::Up(what)),
    {
        let ghost before = self.held@;
        let mut kept: Vec<Held> = Vec::new();
        let mut i: usize = 0;
        while i < self.held.len()
            invariant
                0 <= i <= self.held@.len(),
                self.held@ == before,
                kept@ == without(before.take(i as int), what),
            decreases self.held@.len() - i,
        {
            let ghost prefix = before.take(i as int + 1);
            assert(prefix.drop_last() =~= before.take(i as int));
            let h = self.held[i];
            if h != what {
                kept.push(h);
            }
            i = i + 1;
        }
        assert(before.take(before.len() as int) =~= before);
        proof {
            lemma_without_unique(before, what);
            let new_log = self.log@.push(Edge::Up(what));
            assert(new_log.drop_last() =~= self.log@);
            self.log = Ghost(new_log);
        }
        self.held = kept;
        what.up(sink);
    }

    /// Empty the ledger and hand back what was still held, newest first, for
    /// the caller to release in that order.
    ///
    /// Reverse order mirrors how a chord was pressed, so a modifier is released
    /// after the key it modified rather than before it. Once the releases are
    /// emitted nothing the run pressed remains pressed.
    pub fn drain(&mut self) -> (releases: Vec<Held>)
        requires
            old(self).wf(),
        ensures
            final(self).wf(),
            releases@ == old(self).held().reverse(),
            final(self).held() == Seq::<Held>::empty(),
            final(self).log() == old(self).log() + release_edges(old(self).held()),
            pressed(final(self).log()) == Set::<Held>::empty(),
    {
        let ghost before = self.held@;
        let mut releases: Vec<Held> = Vec::new();
        let mut i: usize = self.held.len();
        while i > 0
            invariant
                0 <= i <= self.held@.len(),
                self.held@ == before,
                releases@ == before.subrange(i as int, before.len() as int).reverse(),
            decreases i,
        {
            i = i - 1;
            releases.push(self.held[i]);
            assert(releases@ =~= before.subrange(i as int, before.len() as int).reverse());
        }
        assert(before.subrange(0, before.len() as int) =~= before);
        proof {
            lemma_release_all(self.log@, before);
            self.log = Ghost(self.log@ + release_edges(before));
        }
        self.held = Vec::new();
        assert(self.held@.to_set() =~= Set::<Held>::empty());
        releases
    }
}

impl Ledger {
    /// Empty the ledger, releasing what it still holds through `sink`,
    /// newest first: a modifier is released after the key it modified.
    pub fn release_all<S: Sink>(&mut self, sink: &mut S)
        requires
            old(self).wf(),
        ensures
            final(self).wf(),
            final(self).held() == Seq::<Held>::empty(),
            final(self).log() == old(self).log() + release_edges(old(self).held()),
            final(sink).emitted() == old(sink).emitted() + release_edges(old(self).held()),
            pressed(final(self).log()) == Set::<Held>::empty(),
    {
        let ghost held0 = self.held();
        let ghost out0 = sink.emitted();
        let releases = self.drain();
        let mut i: usize = 0;
        while i < releases.len()
            invariant
                0 <= i <= releases@.len(),
                releases@ == held0.reverse(),
                sink.emitted() == out0 + release_edges(held0).take(i as int),
            decreases releases@.len() - i,
        {
            releases[i].up(sink);
            assert(release_edges(held0).take(i as int + 1) =~= release_edges(held0).take(i as int).push(
                Edge::Up(releases@[i as int]),
            ));
            i = i + 1;
        }
        assert(release_edges(held0).take(releases@.len() as int) =~= release_edges(held0));
    }
}

/// Removing `h` from a repeat-free sequence keeps it repeat-free and removes
/// exactly `h` from its set.
pub proof fn lemma_without_unique(held: Seq<Held>, h: Held)
    requires
        held.no_duplicates(),
    ensures
        without(held, h).no_duplicates(),
        without(held, h).to_set() == held.to_set().remove(h),
        forall|x: Held| #[trigger] without(held, h).contains(x) <==> (held.contains(x) && x != h),
    decreases held.len(),
{
    if held.len() == 0 {
        assert(held.to_set() =~= Set::<Held>::empty());
        assert(without(held, h).to_set() =~= held.to_set().remove(h));
    } else {
        let rest = held.drop_last();
        assert(rest.no_duplicates());
        lemma_without_unique(rest, h);
        assert forall|x: Held| #[trigger] held.contains(x) <==> (rest.contains(x) || x
            == held.last()) by {
            if held.contains(x) {
                let k = choose|k: int| 0 <= k < held.len() && held[k] == x;
                if k < held.len() - 1 {
                    assert(rest[k] == x);
                }
            }
            if rest.contains(x) {
                let k = choose|k: int| 0 <= k < rest.len() && rest[k] == x;
                assert(held[k] == x);
            }
        }
        if held.last() == h {
        } else {
            let w = without(rest, h);
            assert(!rest.contains(held.last()));
            w.lemma_push_to_set_commute(held.last());
            assert forall|x: Held| #[trigger] w.push(held.last()).contains(x) <==> (w.contains(x)
                || x == held.last()) by {
                assert(w.push(held.last()).to_set().contains(x) == w.push(held.last()).contains(x));
                assert(w.to_set().contains(x) == w.contains(x));
            }
            assert forall|a: int, b: int|
                0 <= a < b < w.push(held.last()).len() implies w.push(held.last())[a] != w.push(
                held.last(),
            )[b] by {
                if b == w.len() {
                    assert(w.contains(w[a]));
                }
            }
        }
        assert(without(held, h).to_set() =~= held.to_set().remove(h));
    }
}

/// Releasing every held code, newest first, leaves nothing pressed.
pub proof fn lemma_release_all(log: Seq<Edge>, held: Seq<Held>)
    requires
        held.no_duplicates(),
        held.to_set() == pressed(log),
    ensures
        pressed(log + release_edges(held)) == Set::<Held>::empty(),
    decreases held.len(),
{
    if held.len() == 0 {
        assert(log + release_edges(held) =~= log);
        assert(held.to_set() =~= Set::<Held>::empty());
    } else {
        let newest = held.last();
        let rest = held.drop_last();
        let log2 = log.push(Edge::Up(newest));
        assert(log2.drop_last() =~= log);
        assert(rest.no_duplicates());
        assert(rest.to_set() =~= held.to_set().remove(newest)) by {
            assert forall|x: Held| rest.to_set().contains(x) <==> held.to_set().remove(
                newest,
            ).contains(x) by {
                if rest.contains(x) {
                    let k = choose|k: int| 0 <= k < rest.len() && rest[k] == x;
                    assert(held[k] == x);
                    assert(k != held.len() - 1);
                }
                if held.contains(x) && x != newest {
                    let k = choose|k: int| 0 <= k < held.len() && held[k] == x;
                    assert(rest[k] == x);
                }
            }
        }
        lemma_release_all(log2, rest);
        assert(log + release_edges(held) =~= log2 + release_edges(rest));
    }
}

/// A pushed sequence holds what it held before, and the new element.
pub proof fn lemma_contains_push(held: Seq<Held>, e: Held)
    ensures
        forall|x: Held| #[trigger] held.push(e).contains(x) <==> (held.contains(x) || x == e),
{
    assert forall|x: Held| #[trigger] held.push(e).contains(x) <==> (held.contains(x) || x == e) by {
        if held.push(e).contains(x) {
            let k = choose|k: int| 0 <= k < held.push(e).len() && held.push(e)[k] == x;
            if k < held.len() {
                assert(held[k] == x);
            }
        }
        if held.contains(x) {
            let k = choose|k: int| 0 <= k < held.len() && held[k] == x;
            assert(held.push(e)[k] == x);
        }
        if x == e {
            assert(held.push(e)[held.len() as int] == x);
        }
    }
}

/// Whether `x` survives removing `h`: exactly when it was there and is not `h`.
pub proof fn lemma_without_contains(held: Seq<Held>, h: Held)
    ensures
        forall|x: Held| #[trigger] without(held, h).contains(x) <==> (held.contains(x) && x != h),
    decreases held.len(),
{
    if held.len() > 0 {
        let rest = held.drop_last();
        lemma_without_contains(rest, h);
        assert(held =~= rest.push(held.last()));
        lemma_contains_push(rest, held.last());
        if held.last() != h {
            lemma_contains_push(without(rest, h), held.last());
        }
        assert forall|x: Held| #[trigger] without(held, h).contains(x) <==> (held.contains(x) && x
            != h) by {
            assert(held.contains(x) == rest.push(held.last()).contains(x));
            assert(without(rest, h).contains(x) <==> (rest.contains(x) && x != h));
        }
    }
}

/// A one-edge sequence applies that edge.
pub proof fn lemma_apply_one_edge(held: Seq<Held>, e: Edge)
    ensures
        apply_edges(held, seq![e]) == apply_edge(held, e),
{
    assert(seq![e].drop_last() =~= Seq::<Edge>::empty());
    assert(apply_edges(held, Seq::<Edge>::empty()) == held);
}

/// A two-edge sequence applies both, in order.
pub proof fn lemma_apply_two_edges(held: Seq<Held>, e: Edge, f: Edge)
    ensures
        apply_edges(held, seq![e, f]) == apply_edge(apply_edge(held, e), f),
{
    assert(seq![e, f].drop_last() =~= seq![e]);
    lemma_apply_one_edge(held, e);
}

/// Applying edges one run after another is applying them all at once.
pub proof fn lemma_apply_edges_concat(held: Seq<Held>, a: Seq<Edge>, b: Seq<Edge>)
    ensures
        apply_edges(held, a + b) == apply_edges(apply_edges(held, a), b),
    decreases b.len(),
{
    if b.len() == 0 {
        assert(a + b =~= a);
    } else {
        lemma_apply_edges_concat(held, a, b.drop_last());
        assert((a + b).drop_last() =~= a + b.drop_last());
    }
}

/// The ledger semantics agree with the keyboard: after any sequence of edges
/// from an empty ledger, it holds each pressed code once.
pub proof fn lemma_ledger_tracks_pressed(edges: Seq<Edge>)
    ensures
        apply_edges(Seq::empty(), edges).no_duplicates(),
        apply_edges(Seq::empty(), edges).to_set() == pressed(edges),
    decreases edges.len(),
{
    if edges.len() == 0 {
        assert(Seq::<Held>::empty().to_set() =~= Set::<Held>::empty());
    } else {
        let rest = edges.drop_last();
        lemma_ledger_tracks_pressed(rest);
        let before = apply_edges(Seq::empty(), rest);
        match edges.last() {
            Edge::Down(h) => {
                if before.contains(h) {
                    assert(before.to_set().insert(h) =~= before.to_set());
                } else {
                    before.lemma_push_to_set_commute(h);
                    assert forall|i: int, j: int|
                        0 <= i < j < before.push(h).len() implies before.push(h)[i] != before.push(
                        h,
                    )[j] by {
                        if j == before.len() {
                            assert(before.contains(before[i]));
                        }
                    }
                }
            },
            Edge::Up(h) => {
                lemma_without_unique(before, h);
            },
        }
    }
}

/// The release guarantee. Whatever edges a run emitted — any number of
/// passes, each cut anywhere a stop arrives — draining its ledger and
/// emitting the releases leaves no key and no button pressed.
pub proof fn lemma_drain_releases_everything(edges: Seq<Edge>)
    ensures
        pressed(edges + release_edges(apply_edges(Seq::empty(), edges))) == Set::<Held>::empty(),
{
    lemma_ledger_tracks_pressed(edges);
    lemma_release_all(edges, apply_edges(Seq::empty(), edges));
}

/// The code a step presses or releases as a key, if any.
pub open spec fn key_code(step: Step) -> Option<u16> {
    match step {
        Step::KeyDown(code) => Some(code),
        Step::KeyUp(code) => Some(code),
        Step::KeyTap(code) => Some(code),
        _ => None,
    }
}

/// The code a step presses or releases as a mouse button, if any.
pub open spec fn button_code(step: Step) -> Option<u16> {
    match step {
        Step::ButtonDown(code) => Some(code),
        Step::ButtonUp(code) => Some(code),
        Step::ButtonTap(code) => Some(code),
        _ => None,
    }
}

/// No code is used both as a key and as a mouse button.
pub open spec fn keys_apart_from_buttons(steps: Seq<Step>) -> bool {
    forall|i: int, j: int|
        0 <= i < steps.len() && 0 <= j < steps.len() && key_code(steps[i]) is Some ==> key_code(
            steps[i],
        ) != button_code(steps[j])
}

/// The codes a ledger holds, keys and buttons together.
pub open spec fn codes_of(held: Seq<Held>) -> Set<u16> {
    Set::new(|c: u16| held.contains(Held::Key(c)) || held.contains(Held::Button(c)))
}

/// Every held entry came from a step of `steps`, as the kind that step names.
pub open spec fn held_from(held: Seq<Held>, steps: Seq<Step>) -> bool {
    forall|x: Held| #[trigger]
        held.contains(x) ==> match x {
            Held::Key(c) => exists|i: int| 0 <= i < steps.len() && key_code(steps[i]) == Some(c),
            Held::Button(c) => exists|i: int|
                0 <= i < steps.len() && button_code(steps[i]) == Some(c),
        }
}

/// What `held_codes` promises: every code one pass of a macro can leave held
/// is one it reports, provided keys and buttons use separate codes.
pub proof fn lemma_held_codes_cover_a_pass(steps: Seq<Step>)
    requires
        keys_apart_from_buttons(steps),
    ensures
        codes_of(apply_edges(Seq::empty(), pass_edges(steps))).subset_of(held_after(steps)),
        held_from(apply_edges(Seq::empty(), pass_edges(steps)), steps),
    decreases steps.len(),
{
    let empty = Seq::<Held>::empty();
    if steps.len() == 0 {
        assert(codes_of(apply_edges(empty, pass_edges(steps))) =~= Set::<u16>::empty());
    } else {
        let rest = steps.drop_last();
        let last = steps.last();
        assert(keys_apart_from_buttons(rest)) by {
            assert forall|i: int, j: int|
                0 <= i < rest.len() && 0 <= j < rest.len() && key_code(rest[i]) is Some implies key_code(
                rest[i],
            ) != button_code(rest[j]) by {
                assert(rest[i] == steps[i] && rest[j] == steps[j]);
            }
        }
        lemma_held_codes_cover_a_pass(rest);
        let before = apply_edges(empty, pass_edges(rest));
        lemma_apply_edges_concat(empty, pass_edges(rest), step_edges(last));
        let added = step_edges(last);
        let after = apply_edges(before, added);
        assert(pass_edges(steps) == pass_edges(rest) + added);
        let n = steps.len() - 1;
        assert(steps[n] == last);
        assert forall|x: Held| before.contains(x) ==> match x {
            Held::Key(c) => exists|i: int| 0 <= i < steps.len() && key_code(steps[i]) == Some(c),
            Held::Button(c) => exists|i: int|
                0 <= i < steps.len() && button_code(steps[i]) == Some(c),
        } by {
            if before.contains(x) {
                match x {
                    Held::Key(c) => {
                        let i = choose|i: int| 0 <= i < rest.len() && key_code(rest[i]) == Some(c);
                        assert(steps[i] == rest[i]);
                    },
                    Held::Button(c) => {
                        let i = choose|i: int|
                            0 <= i < rest.len() && button_code(rest[i]) == Some(c);
                        assert(steps[i] == rest[i]);
                    },
                }
            }
        }
        if added.len() == 1 {
            assert(added =~= seq![added[0]]);
            lemma_apply_one_edge(before, added[0]);
        } else if added.len() == 2 {
            assert(added =~= seq![added[0], added[1]]);
            lemma_apply_two_edges(before, added[0], added[1]);
            lemma_without_contains(apply_edge(before, added[0]), match added[1] {
                Edge::Up(h) => h,
                Edge::Down(h) => h,
            });
        } else {
            assert(added =~= Seq::<Edge>::empty());
        }
        match last {
            Step::KeyUp(c) => lemma_without_contains(before, Held::Key(c)),
            Step::ButtonUp(c) => lemma_without_contains(before, Held::Button(c)),
            _ => {},
        }
        assert forall|x: Held| #[trigger] after.contains(x) implies match x {
            Held::Key(c) => exists|i: int| 0 <= i < steps.len() && key_code(steps[i]) == Some(c),
            Held::Button(c) => exists|i: int|
                0 <= i < steps.len() && button_code(steps[i]) == Some(c),
        } by {
            if !before.contains(x) {
                assert(key_code(steps[n]) == key_code(last));
                assert(button_code(steps[n]) == button_code(last));
            }
        }
        assert forall|c: u16| codes_of(after).contains(c) implies held_after(steps).contains(c) by {
            assert(held_after(steps) == match last {
                Step::KeyDown(k) => held_after(rest).insert(k),
                Step::ButtonDown(k) => held_after(rest).insert(k),
                Step::KeyUp(k) => held_after(rest).remove(k),
                Step::ButtonUp(k) => held_after(rest).remove(k),
                _ => held_after(rest),
            });
            if after.contains(Held::Key(c)) && before.contains(Held::Button(c)) {
                let i = choose|i: int| 0 <= i < rest.len() && button_code(rest[i]) == Some(c);
                assert(steps[i] == rest[i]);
            }
            if after.contains(Held::Button(c)) && before.contains(Held::Key(c)) {
                let i = choose|i: int| 0 <= i < rest.len() && key_code(rest[i]) == Some(c);
                assert(steps[i] == rest[i]);
            }
            match last {
                Step::KeyUp(k) => {
                    if c == k && after.contains(Held::Button(c)) {
                        let i = choose|i: int| 0 <= i < rest.len() && button_code(rest[i]) == Some(c);
                        assert(steps[i] == rest[i]);
                        assert(key_code(steps[n]) != button_code(steps[i]));
                    }
                },
                Step::ButtonUp(k) => {
                    if c == k && after.contains(Held::Key(c)) {
                        let i = choose|i: int| 0 <= i < rest.len() && key_code(rest[i]) == Some(c);
                        assert(steps[i] == rest[i]);
                        assert(key_code(steps[i]) != button_code(steps[n]));
                    }
                },
                _ => {},
            }
        }
    }
}

/// The milliseconds of each `Delay` step, in order.
pub open spec fn delay_millis(steps: Seq<Step>) -> Seq<u32>
    decreases steps.len(),
{
    if steps.len() == 0 {
        seq![]
    } else {
        let before = delay_millis(steps.drop_last());
        match steps.last() {
            Step::Delay { millis } => before.push(millis),
            _ => before,
        }
    }
}

/// The instant a clock call names: what a reading returned, or the deadline
/// a wait was given.
pub open spec fn instant_of(call: ClockCall) -> u64 {
    match call {
        ClockCall::Read(now) => now,
        ClockCall::Sleep(deadline) => deadline,
    }
}

/// `millis` milliseconds after `now`, or the end of the clock when that is
/// past it.
pub open spec fn millis_after(now: u64, millis: u32) -> u64 {
    if now + millis * NANOS_PER_MILLI <= u64::MAX {
        (now + millis * NANOS_PER_MILLI) as u64
    } else {
        u64::MAX
    }
}

/// Whether the `k`-th delay of `millis` was waited out in `calls`: a reading
/// of the clock, then a wait until that many milliseconds after it.
pub open spec fn delay_waited(calls: Seq<ClockCall>, millis: Seq<u32>, k: int) -> bool {
    &&& calls[2 * k] is Read
    &&& calls[2 * k + 1] == ClockCall::Sleep(millis_after(instant_of(calls[2 * k]), millis[k]))
}

/// Whether `calls` wait out the delays `millis`, in order, and do nothing
/// else.
pub open spec fn waits_out(millis: Seq<u32>, calls: Seq<ClockCall>) -> bool {
    &&& calls.len() == 2 * millis.len()
    &&& forall|k: int| 0 <= k < millis.len() ==> #[trigger] delay_waited(calls, millis, k)
}

/// Whether a reading `now` and the deadline waited for after it hold the run
/// for `millis` milliseconds: exactly that many nanoseconds later, unless that
/// is past the end of the clock, where the wait is until the end.
pub open spec fn holds_for(now: int, deadline: int, millis: u32) -> bool {
    let wait = millis as int * 1_000_000;
    &&& deadline >= now
    &&& now + wait <= u64::MAX ==> deadline - now == wait
    &&& now + wait > u64::MAX ==> deadline == u64::MAX
}

/// Whether the `k`-th wait of `calls` held the run for the `k`-th of
/// `millis`: a reading, then a wait whose deadline [`holds_for`] it.
pub open spec fn delay_held(calls: Seq<ClockCall>, millis: Seq<u32>, k: int) -> bool {
    &&& calls[2 * k] is Read
    &&& calls[2 * k + 1] is Sleep
    &&& holds_for(instant_of(calls[2 * k]) as int, instant_of(calls[2 * k + 1]) as int, millis[k])
}

/// A `Delay` step holds the run for its milliseconds: each deadline a pass
/// asks for is exactly the step's milliseconds, in nanoseconds, after the
/// reading just before it, unless that is past the end of the clock; a
/// deadline is never before its reading; and a pass makes one reading and one
/// wait per `Delay` step and no other call.
pub proof fn lemma_a_delay_waits_its_milliseconds(millis: Seq<u32>, calls: Seq<ClockCall>)
    requires
        waits_out(millis, calls),
    ensures
        calls.len() == 2 * millis.len(),
        forall|k: int| 0 <= k < millis.len() ==> #[trigger] delay_held(calls, millis, k),
{
    assert forall|k: int| 0 <= k < millis.len() implies #[trigger] delay_held(calls, millis, k) by {
        assert(delay_waited(calls, millis, k));
    }
}

/// One pass over the steps.
///
/// A stopped run does not abandon the pass: its remaining waits return
/// instantly, so the sequence finishes and emits its own releases in the order
/// it wrote them. Whatever it still leaves held is the ledger's to drain.
pub fn sequence<S: Sink, C: RunClock>(
    macro_def: &Macro,
    sink: &mut S,
    ledger: &mut Ledger,
    clock: &mut C,
)
    requires
        old(ledger).wf(),
    ensures
        final(ledger).wf(),
        final(sink).emitted() == old(sink).emitted() + pass_edges(macro_def.steps@),
        final(ledger).log() == old(ledger).log() + pass_edges(macro_def.steps@),
        final(ledger).held() == apply_edges(old(ledger).held(), pass_edges(macro_def.steps@)),
        C::keeps_account() ==> {
            &&& old(clock).calls().len() <= final(clock).calls().len()
            &&& final(clock).calls().subrange(0, old(clock).calls().len() as int) == old(
                clock,
            ).calls()
            &&& waits_out(
                delay_millis(macro_def.steps@),
                final(clock).calls().subrange(
                    old(clock).calls().len() as int,
                    final(clock).calls().len() as int,
                ),
            )
        },
{
    let ghost log0 = ledger.log();
    let ghost held0 = ledger.held();
    let ghost out0 = sink.emitted();
    let ghost calls0 = clock.calls();
    let ghost mut made: Seq<ClockCall> = seq![];
    let mut i: usize = 0;
    while i < macro_def.steps.len()
        invariant
            0 <= i <= macro_def.steps@.len(),
            calls0 == old(clock).calls(),
            C::keeps_account() ==> clock.calls() == calls0 + made,
            waits_out(delay_millis(macro_def.steps@.take(i as int)), made),
            ledger.wf(),
            sink.emitted() == out0 + pass_edges(macro_def.steps@.take(i as int)),
            ledger.log() == log0 + pass_edges(macro_def.steps@.take(i as int)),
            ledger.held() == apply_edges(held0, pass_edges(macro_def.steps@.take(i as int))),
        decreases macro_def.steps@.len() - i,
    {
        let ghost prefix = macro_def.steps@.take(i as int + 1);
        assert(prefix.drop_last() =~= macro_def.steps@.take(i as int));
        let ghost before = pass_edges(macro_def.steps@.take(i as int));
        let step = macro_def.steps[i];
        match step {
            Step::KeyDown(code) => ledger.press(sink, Held::Key(code)),
            Step::KeyUp(code) => ledger.release(sink, Held::Key(code)),
            Step::KeyTap(code) => {
                ledger.press(sink, Held::Key(code));
                ledger.release(sink, Held::Key(code));
            },
            Step::ButtonDown(code) => ledger.press(sink, Held::Button(code)),
            Step::ButtonUp(code) => ledger.release(sink, Held::Button(code)),
            Step::ButtonTap(code) => {
                ledger.press(sink, Held::Button(code));
                ledger.release(sink, Held::Button(code));
            },
            Step::Delay { millis } => {
                let wait: u64 = (millis as u64) * NANOS_PER_MILLI;
                let now = clock.now_ns();
                let deadline = now.saturating_add(wait);
                clock.sleep_until_ns(deadline);
                proof {
                    let ms = delay_millis(macro_def.steps@.take(i as int));
                    let made2 = made.push(ClockCall::Read(now)).push(ClockCall::Sleep(deadline));
                    assert(delay_millis(prefix) == ms.push(millis));
                    let ms2 = ms.push(millis);
                    assert forall|k: int| 0 <= k < ms2.len() implies #[trigger] delay_waited(
                        made2,
                        ms2,
                        k,
                    ) by {
                        if k < ms.len() {
                            assert(delay_waited(made, ms, k));
                            assert(made2[2 * k] == made[2 * k]);
                            assert(made2[2 * k + 1] == made[2 * k + 1]);
                            assert(ms2[k] == ms[k]);
                        } else {
                            assert(made2[2 * k] == ClockCall::Read(now));
                            assert(made2[2 * k + 1] == ClockCall::Sleep(deadline));
                        }
                    }
                    assert(calls0 + made2 =~= (calls0 + made).push(ClockCall::Read(now)).push(
                        ClockCall::Sleep(deadline),
                    ));
                    made = made2;
                }
            },
        }
        proof {
            if !(step is Delay) {
                assert(delay_millis(prefix) == delay_millis(macro_def.steps@.take(i as int)));
            }
        }
        proof {
            let added = step_edges(step);
            let after = before + added;
            assert(pass_edges(prefix) == after);
            assert(log0 + after =~= (log0 + before) + added);
            assert(out0 + after =~= (out0 + before) + added);
            if added.len() == 1 {
                assert(after.drop_last() =~= before);
                assert(apply_edges(held0, after) == apply_edge(apply_edges(held0, before), added[0]));
            } else if added.len() == 2 {
                let mid = before.push(added[0]);
                assert(after.drop_last() =~= mid);
                assert(mid.drop_last() =~= before);
                assert(apply_edges(held0, mid) == apply_edge(apply_edges(held0, before), added[0]));
                assert(apply_edges(held0, after) == apply_edge(apply_edges(held0, mid), added[1]));
            } else {
                assert(after =~= before);
            }
        }
        i = i + 1;
    }
    assert(macro_def.steps@.take(macro_def.steps@.len() as int) =~= macro_def.steps@);
    assert(calls0.len() <= clock.calls().len() ==> true);
    proof {
        if C::keeps_account() {
            assert(clock.calls().subrange(0, calls0.len() as int) =~= calls0);
            assert(clock.calls().subrange(calls0.len() as int, clock.calls().len() as int) =~= made);
        }
    }
}

/// `edges` emitted `k` times over.
pub open spec fn repeated(edges: Seq<Edge>, k: nat) -> Seq<Edge>
    decreases k,
{
    if k == 0 {
        seq![]
    } else {
        repeated(edges, (k - 1) as nat) + edges
    }
}

/// One wait of a repeating run between two passes: the instant it was asked
/// for, the deadline it was given, and whether the clock answered with the
/// stop signal.
#[derive(Clone, Copy, Debug, PartialEq, Eq, Structural)]
pub struct Wait {
    pub now_ns: u64,
    pub deadline_ns: u64,
    pub stopped: bool,
}

/// A run's clock, with an account of the cadence it paced: the instant each
/// cadence started, and every wait between two passes with the deadline it
/// was given and the clock's answer. A `Delay` step's wait is not part of the
/// cadence and is not recorded.
pub struct ClockLog<C> {
    clock: C,
    starts: Ghost<Seq<u64>>,
    waits: Ghost<Seq<Wait>>,
    calls: Ghost<Seq<ClockCall>>,
}

impl<C: RunClock> ClockLog<C> {
    /// The instant each cadence started, in order.
    pub closed spec fn starts(&self) -> Seq<u64> {
        self.starts@
    }

    /// Every wait between two passes, in order.
    pub closed spec fn waits(&self) -> Seq<Wait> {
        self.waits@
    }

    /// Keep an account of `clock`; nothing paced yet.
    pub fn new(clock: C) -> (log: Self)
        ensures
            log.starts() == Seq::<u64>::empty(),
            log.waits() == Seq::<Wait>::empty(),
            log.calls() == Seq::<ClockCall>::empty(),
    {
        ClockLog {
            clock,
            starts: Ghost(Seq::empty()),
            waits: Ghost(Seq::empty()),
            calls: Ghost(Seq::empty()),
        }
    }

    /// The clock itself.
    pub fn clock(&self) -> &C {
        &self.clock
    }

    /// Start a cadence of `interval_ms` at the current instant.
    pub fn start_cadence(&mut self, interval_ms: u32) -> (pacer: Pacer)
        ensures
            final(self).starts() == old(self).starts().push(pacer.next()),
            final(self).waits() == old(self).waits(),
            pacer.interval() == interval_ns_of(interval_ms),
            pacer.interval() >= MIN_INTERVAL_NS,
    {
        let now = self.clock.now_ns();
        proof {
            self.starts = Ghost(self.starts@.push(now));
        }
        Pacer::new(interval_ms, now)
    }

    /// Wait for the pacer's next deadline, asked for now, and return whether
    /// the wait ended with the stop signal.
    pub fn pace(&mut self, pacer: &mut Pacer) -> (stopped: bool)
        requires
            old(pacer).next() + old(pacer).interval() <= u64::MAX,
        ensures
            final(self).starts() == old(self).starts(),
            final(self).waits().len() == old(self).waits().len() + 1,
            final(self).waits().drop_last() == old(self).waits(),
            final(self).waits().last().deadline_ns == deadline_after(
                old(pacer).next() as int,
                old(pacer).interval() as int,
                final(self).waits().last().now_ns as int,
            ),
            final(self).waits().last().stopped == stopped,
            final(pacer).next() == final(self).waits().last().deadline_ns,
            final(pacer).interval() == old(pacer).interval(),
    {
        let now = self.clock.now_ns();
        let deadline = pacer.next_deadline(now);
        let stopped = self.clock.sleep_until_ns(deadline);
        proof {
            let w = Wait { now_ns: now, deadline_ns: deadline, stopped };
            self.waits = Ghost(self.waits@.push(w));
            assert(self.waits@.drop_last() =~= old(self).waits@);
        }
        stopped
    }
}

/// Used as a run's clock itself, the account keeps every reading and every
/// wait asked of it, as the inner clock answered them.
impl<C: RunClock> RunClock for ClockLog<C> {
    open spec fn keeps_account() -> bool {
        true
    }

    closed spec fn calls(&self) -> Seq<ClockCall> {
        self.calls@
    }

    fn now_ns(&mut self) -> (now: u64) {
        let now = self.clock.now_ns();
        proof {
            self.calls = Ghost(self.calls@.push(ClockCall::Read(now)));
        }
        now
    }

    fn sleep_until_ns(&mut self, deadline_ns: u64) -> (stopped: bool) {
        let stopped = self.clock.sleep_until_ns(deadline_ns);
        proof {
            self.calls = Ghost(self.calls@.push(ClockCall::Sleep(deadline_ns)));
        }
        stopped
    }
}

/// Whether a repeating run makes another pass after a wait on its cadence:
/// exactly when the wait did not end with the stop signal.
pub fn runs_again(stopped: bool) -> (again: bool)
    ensures
        again == !stopped,
{
    !stopped
}

/// Whether `waits` got the deadlines a cadence of `interval` started at
/// `start` hands out: each one interval after the one before (the first, after
/// the start), or the instant it was asked for when that is later.
pub open spec fn paced(start: int, interval: int, waits: Seq<Wait>) -> bool
    decreases waits.len(),
{
    if waits.len() == 0 {
        true
    } else {
        let rest = waits.drop_last();
        &&& paced(start, interval, rest)
        &&& waits.last().deadline_ns == deadline_after(
            last_deadline(start, rest),
            interval,
            waits.last().now_ns as int,
        )
    }
}

/// The last deadline a cadence started at `start` handed out, or the start
/// before the first.
pub open spec fn last_deadline(start: int, waits: Seq<Wait>) -> int {
    if waits.len() == 0 {
        start
    } else {
        waits.last().deadline_ns as int
    }
}

/// Whether the last of `waits` ended with the stop signal.
pub open spec fn stopped_by(waits: Seq<Wait>) -> bool {
    waits.len() > 0 && waits.last().stopped
}

/// The passes a repeating run makes around `waits`: the first, then one more
/// after each wait that did not end with the stop signal.
pub open spec fn passes_around(waits: Seq<Wait>) -> nat {
    if stopped_by(waits) {
        waits.len()
    } else {
        waits.len() + 1
    }
}

/// How many of `waits` answered "go on" rather than the stop signal.
pub open spec fn go_ons(waits: Seq<Wait>) -> nat
    decreases waits.len(),
{
    if waits.len() == 0 {
        0
    } else {
        go_ons(waits.drop_last()) + if waits.last().stopped {
            0nat
        } else {
            1nat
        }
    }
}

/// A repeating run makes its first pass unconditionally and one more for each
/// wait that answered "go on": when the clock answered the stop signal only
/// at the last wait, if at all, the passes are one more than the "go on"
/// answers.
pub proof fn lemma_one_pass_more_than_go_ons(waits: Seq<Wait>)
    requires
        forall|i: int| 0 <= i < waits.len() - 1 ==> !(#[trigger] waits[i]).stopped,
    ensures
        passes_around(waits) == go_ons(waits) + 1,
    decreases waits.len(),
{
    if waits.len() > 0 {
        let rest = waits.drop_last();
        assert forall|i: int| 0 <= i < rest.len() ==> !(#[trigger] rest[i]).stopped by {
            if 0 <= i < rest.len() {
                assert(rest[i] == waits[i]);
            }
        }
        lemma_no_stops_all_go_on(rest);
    }
}

/// Waits that never answered the stop signal all answered "go on".
proof fn lemma_no_stops_all_go_on(waits: Seq<Wait>)
    requires
        forall|i: int| 0 <= i < waits.len() ==> !(#[trigger] waits[i]).stopped,
    ensures
        go_ons(waits) == waits.len(),
    decreases waits.len(),
{
    if waits.len() > 0 {
        let rest = waits.drop_last();
        assert forall|i: int| 0 <= i < rest.len() implies !(#[trigger] rest[i]).stopped by {
            assert(rest[i] == waits[i]);
        }
        lemma_no_stops_all_go_on(rest);
    }
}

/// The waits `after` recorded beyond those of `before`.
pub open spec fn new_waits<C: RunClock>(before: ClockLog<C>, after: ClockLog<C>) -> Seq<Wait> {
    after.waits().subrange(before.waits().len() as int, after.waits().len() as int)
}

/// How a run with repeat mode `mode` used its clock, from `before` to
/// `after`. A single pass starts no cadence and waits for nothing between
/// passes. A repeating run starts one cadence, waits for each of its deadlines
/// in turn, and stops at the first wait that ends with the stop signal, or
/// where one more interval would run past the end of the clock.
pub open spec fn cadence_kept<C: RunClock>(
    mode: RepeatMode,
    before: ClockLog<C>,
    after: ClockLog<C>,
) -> bool {
    match cadence_of(mode) {
        None => after.starts() == before.starts() && after.waits() == before.waits(),
        Some(interval_ms) => {
            let start = after.starts().last() as int;
            let interval = interval_ns_of(interval_ms) as int;
            let waits = new_waits(before, after);
            &&& after.starts() == before.starts().push(after.starts().last())
            &&& before.waits().len() <= after.waits().len()
            &&& after.waits().subrange(0, before.waits().len() as int) == before.waits()
            &&& paced(start, interval, waits)
            &&& forall|i: int| 0 <= i < waits.len() - 1 ==> !(#[trigger] waits[i]).stopped
            &&& !stopped_by(waits) ==> last_deadline(start, waits) + interval > u64::MAX
        },
    }
}

/// The passes a run with repeat mode `mode` made, from the account of its
/// clock: one for a single pass, else one more than the waits that did not end
/// with the stop signal.
pub open spec fn passes_made<C: RunClock>(
    mode: RepeatMode,
    before: ClockLog<C>,
    after: ClockLog<C>,
) -> nat {
    match cadence_of(mode) {
        None => 1,
        Some(_) => passes_around(new_waits(before, after)),
    }
}

/// Passes add up: one pass is the pass itself, and `a` passes followed by
/// `b` more are `a + b` passes.
pub proof fn lemma_passes_add_up(edges: Seq<Edge>, a: nat, b: nat)
    ensures
        repeated(edges, 1) == edges,
        repeated(edges, a + b) == repeated(edges, a) + repeated(edges, b),
    decreases b,
{
    assert(repeated(edges, 0) + edges =~= edges);
    if b == 0 {
        assert(repeated(edges, a) + repeated(edges, 0) =~= repeated(edges, a));
    } else {
        lemma_passes_add_up(edges, a, (b - 1) as nat);
        assert((a + b - 1) as nat == a + (b - 1) as nat);
        assert(repeated(edges, a + b) == repeated(edges, (a + b - 1) as nat) + edges);
        assert(repeated(edges, a) + repeated(edges, b) =~= repeated(edges, a) + repeated(
            edges,
            (b - 1) as nat,
        ) + edges);
    }
}

/// Applies the repeat mode: one pass, or passes on a fixed cadence until the
/// clock reports the stop signal.
///
/// The first pass always runs to completion, so a button tapped faster than
/// the macro can repeat still fires once. A repeating run waits for each
/// deadline of a [`Pacer`], so the cost of a pass does not push the next one
/// later, and makes one more pass after each wait that did not end with the
/// stop signal; a cadence that would run past the end of the clock stops
/// there. Every edge the ledger logs is the edge emitted through the sink.
pub fn repeat<S: Sink, C: RunClock>(
    macro_def: &Macro,
    sink: &mut S,
    ledger: &mut Ledger,
    clock: &mut ClockLog<C>,
)
    requires
        old(ledger).wf(),
    ensures
        final(ledger).wf(),
        final(sink).emitted() == old(sink).emitted() + (final(ledger).log().subrange(
            old(ledger).log().len() as int,
            final(ledger).log().len() as int,
        )),
        final(ledger).log().subrange(0, old(ledger).log().len() as int) == old(ledger).log(),
        cadence_kept(macro_def.repeat, *old(clock), *final(clock)),
        final(ledger).log() == old(ledger).log() + repeated(
            pass_edges(macro_def.steps@),
            passes_made(macro_def.repeat, *old(clock), *final(clock)),
        ),
        final(ledger).held() == apply_edges(
            old(ledger).held(),
            repeated(
                pass_edges(macro_def.steps@),
                passes_made(macro_def.repeat, *old(clock), *final(clock)),
            ),
        ),
{
    let ghost log0 = ledger.log();
    let ghost held0 = ledger.held();
    let ghost out0 = sink.emitted();
    let ghost pass = pass_edges(macro_def.steps@);
    match cadence(macro_def.repeat) {
        None => {
            sequence(macro_def, sink, ledger, &mut clock.clock);
            assert(repeated(pass, 0) =~= Seq::<Edge>::empty());
            assert(repeated(pass, 1) =~= pass);
            assert(ledger.log() == log0 + repeated(pass, 1));
            assert(ledger.held() == apply_edges(held0, repeated(pass, 1)));
            assert(ledger.log().subrange(log0.len() as int, ledger.log().len() as int) =~= pass);
            assert(ledger.log().subrange(0, log0.len() as int) =~= log0);
        },
        Some(interval_ms) => {
            let ghost starts0 = clock.starts();
            let ghost waits0 = clock.waits();
            let mut pacer = clock.start_cadence(interval_ms);
            let ghost start: u64 = pacer.next();
            let ghost iv: u64 = pacer.interval();
            let ghost mut k: nat = 0;
            assert(log0 + repeated(pass, 0) =~= log0);
            assert(out0 + repeated(pass, 0) =~= out0);
            assert(clock.waits().subrange(0, waits0.len() as int) =~= waits0);
            assert(new_waits(*old(clock), *clock) =~= Seq::<Wait>::empty());
            loop
                invariant
                    ledger.wf(),
                    ledger.log() == log0 + repeated(pass, k),
                    sink.emitted() == out0 + repeated(pass, k),
                    log0 == old(ledger).log(),
                    held0 == old(ledger).held(),
                    out0 == old(sink).emitted(),
                    ledger.held() == apply_edges(held0, repeated(pass, k)),
                    pass == pass_edges(macro_def.steps@),
                    cadence_of(macro_def.repeat) == Some(interval_ms),
                    starts0 == old(clock).starts(),
                    waits0 == old(clock).waits(),
                    clock.starts() == starts0.push(start),
                    waits0.len() <= clock.waits().len(),
                    clock.waits().subrange(0, waits0.len() as int) == waits0,
                    k == new_waits(*old(clock), *clock).len(),
                    paced(start as int, iv as int, new_waits(*old(clock), *clock)),
                    forall|i: int|
                        0 <= i < new_waits(*old(clock), *clock).len() ==> !(#[trigger] new_waits(
                            *old(clock),
                            *clock,
                        )[i]).stopped,
                    pacer.next() == last_deadline(start as int, new_waits(*old(clock), *clock)),
                    pacer.interval() == iv,
                    iv == interval_ns_of(interval_ms),
                    iv >= 1,
                decreases u64::MAX - pacer.next(),
            {
                let ghost before = ledger.log();
                let ghost before_out = sink.emitted();
                let ghost w = new_waits(*old(clock), *clock);
                sequence(macro_def, sink, ledger, &mut clock.clock);
                proof {
                    lemma_apply_edges_concat(held0, repeated(pass, k), pass);
                    assert(repeated(pass, k + 1) == repeated(pass, k) + pass);
                    assert(log0 + repeated(pass, k + 1) =~= before + pass);
                    assert(out0 + repeated(pass, k + 1) =~= before_out + pass);
                    k = k + 1;
                    assert(ledger.log().subrange(log0.len() as int, ledger.log().len() as int)
                        =~= repeated(pass, k));
                    assert(ledger.log().subrange(0, log0.len() as int) =~= log0);
                    assert(new_waits(*old(clock), *clock) == w);
                }
                if !pacer.can_advance() {
                    assert(!stopped_by(w));
                    assert(passes_around(w) == k);
                    return;
                }
                let stopped = clock.pace(&mut pacer);
                proof {
                    let w2 = new_waits(*old(clock), *clock);
                    assert(w2 =~= w.push(clock.waits().last()));
                    assert(w2.drop_last() =~= w);
                    assert(clock.waits().subrange(0, waits0.len() as int) =~= waits0);
                    assert(forall|i: int| 0 <= i < w2.len() - 1 ==> w2[i] == w[i]);
                }
                if !runs_again(stopped) {
                    assert(stopped_by(new_waits(*old(clock), *clock)));
                    return;
                }
            }
        },
    }
}

/// A whole run: the passes its repeat mode asks for, then a release of
/// everything still held, newest first, all through `sink`. Returns the
/// emptied ledger, whose log is every edge the run emitted.
///
/// Whatever the steps leave pressed — a `KeyDown(Alt)` whose `KeyUp` never
/// came, a pass cut short by the stop signal — the sink has released it by the
/// time this returns: what the run emitted leaves nothing pressed.
pub fn run<S: Sink, C: RunClock>(
    macro_def: &Macro,
    sink: &mut S,
    clock: &mut ClockLog<C>,
) -> (ledger: Ledger)
    ensures
        ledger.wf(),
        ledger.held() == Seq::<Held>::empty(),
        final(sink).emitted() == old(sink).emitted() + ledger.log(),
        pressed(ledger.log()) == Set::<Held>::empty(),
        cadence_kept(macro_def.repeat, *old(clock), *final(clock)),
        ledger.log() == repeated(
            pass_edges(macro_def.steps@),
            passes_made(macro_def.repeat, *old(clock), *final(clock)),
        ) + release_edges(
            apply_edges(
                Seq::<Held>::empty(),
                repeated(
                    pass_edges(macro_def.steps@),
                    passes_made(macro_def.repeat, *old(clock), *final(clock)),
                ),
            ),
        ),
{
    let mut ledger = Ledger::new();
    let ghost out0 = sink.emitted();
    repeat(macro_def, sink, &mut ledger, clock);
    let ghost passes = ledger.log();
    assert(ledger.log().subrange(0, 0) =~= Seq::<Edge>::empty());
    assert(passes.subrange(0, passes.len() as int) =~= passes);
    assert(Seq::<Edge>::empty() + passes =~= passes);
    proof {
        lemma_ledger_tracks_pressed(passes);
    }
    ledger.release_all(sink);
    assert(sink.emitted() =~= out0 + ledger.log());
    ledger
}

} // verus!
