//! Hold-and-swipe gestures on the OS-hook buttons.
//!
//! A [`SwipeAccumulator`] sums pointer motion while a gesture button is held
//! and commits a direction mid-motion, once per hold, as soon as the travel
//! crosses [`GESTURE_SWIPE_THRESHOLD`]. A press that never commits is a plain
//! click. [`HoldState`] adds the identity of the held button and the exact
//! press, so a committed swipe and the release are attributed to the press
//! that began them.

use vstd::prelude::*;

use crate::action::GestureDirection;
use crate::button::ButtonId;
use crate::press::PressToken;

verus! {

/// Pointer travel, in device units along the dominant axis, that commits a swipe.
pub const GESTURE_SWIPE_THRESHOLD: i32 = 50;

/// A gesture hold this old is presumed stale — real hold-and-swipe
/// interactions finish in well under a second, and only a lost button-up
/// leaves one lingering. Ten seconds, in nanoseconds.
pub const STALE_HOLD_NS: u64 = 10_000_000_000;

/// The absolute value of `x`.
pub open spec fn abs(x: int) -> int {
    if x < 0 {
        -x
    } else {
        x
    }
}

/// The direction a travel of (`dx`, `dy`) commits: the dominant axis, ties
/// going to the horizontal one; positive `dy` is down.
pub open spec fn direction_of(dx: int, dy: int) -> GestureDirection {
    if abs(dx) >= abs(dy) {
        if dx > 0 {
            GestureDirection::Right
        } else {
            GestureDirection::Left
        }
    } else if dy > 0 {
        GestureDirection::Down
    } else {
        GestureDirection::Up
    }
}

/// Whether `dir` is where a travel of (`x`, `y`) points: right or left
/// when the horizontal travel is at least the vertical one, by the sign of
/// `x`; otherwise down for positive `y` (screen coordinates) and up for
/// negative.
pub open spec fn points_along(dir: GestureDirection, x: int, y: int) -> bool {
    &&& (dir == GestureDirection::Right) == (abs(x) >= abs(y) && x > 0)
    &&& (dir == GestureDirection::Left) == (abs(x) >= abs(y) && x <= 0)
    &&& (dir == GestureDirection::Down) == (abs(y) > abs(x) && y > 0)
    &&& (dir == GestureDirection::Up) == (abs(y) > abs(x) && y < 0)
}

/// A swipe commits the direction its travel points along: the dominant axis,
/// a horizontal tie going to the horizontal, and on the vertical axis down
/// for positive `y` and up for negative.
pub proof fn lemma_swipe_points_along_its_travel(x: int, y: int)
    ensures
        points_along(direction_of(x, y), x, y),
{
}

/// Whether travel `(x, y)` has gone far enough on either axis to commit a
/// swipe.
pub open spec fn crosses(x: int, y: int) -> bool {
    abs(x) >= GESTURE_SWIPE_THRESHOLD || abs(y) >= GESTURE_SWIPE_THRESHOLD
}

/// Sums pointer motion during one hold and commits at most one swipe.
#[derive(Debug, Default)]
pub struct SwipeAccumulator {
    active: bool,
    committed: bool,
    dx: i64,
    dy: i64,
}

impl SwipeAccumulator {
    /// Whether a hold is in progress.
    pub closed spec fn active(&self) -> bool {
        self.active
    }

    /// Whether this hold has committed its swipe.
    pub closed spec fn committed(&self) -> bool {
        self.committed
    }

    /// The travel summed so far in this hold.
    pub closed spec fn travel(&self) -> (int, int) {
        (self.dx as int, self.dy as int)
    }

    /// The bound that keeps the sums in range: below the threshold until the
    /// swipe commits.
    pub open spec fn wf(&self) -> bool {
        self.active() && !self.committed() ==> abs(self.travel().0) < GESTURE_SWIPE_THRESHOLD
            && abs(self.travel().1) < GESTURE_SWIPE_THRESHOLD
    }

    /// No hold in progress.
    pub fn new() -> (swipe: SwipeAccumulator)
        ensures
            swipe.wf(),
            !swipe.active(),
            !swipe.committed(),
    {
        SwipeAccumulator { active: false, committed: false, dx: 0, dy: 0 }
    }

    /// Start a hold with no travel.
    pub fn begin(&mut self)
        ensures
            final(self).wf(),
            final(self).active(),
            !final(self).committed(),
            final(self).travel() == (0int, 0int),
    {
        self.active = true;
        self.committed = false;
        self.dx = 0;
        self.dy = 0;
    }

    /// Feed one pointer move. Returns the committed direction on the move
    /// that crosses the threshold, and `None` before it, after it, and outside
    /// a hold.
    pub fn accumulate(&mut self, dx: i32, dy: i32) -> (dir: Option<GestureDirection>)
        requires
            old(self).wf(),
        ensures
            final(self).wf(),
            final(self).active() == old(self).active(),
            !old(self).active() || old(self).committed() ==> dir is None && final(self).committed()
                == old(self).committed(),
            old(self).active() && !old(self).committed() ==> ({
                let x = old(self).travel().0 + dx;
                let y = old(self).travel().1 + dy;
                let crossed = abs(x) >= GESTURE_SWIPE_THRESHOLD || abs(y) >= GESTURE_SWIPE_THRESHOLD;
                &&& final(self).travel() == (x, y)
                &&& final(self).committed() == crossed
                &&& dir == if crossed {
                    Some(direction_of(x, y))
                } else {
                    None
                }
                &&& dir matches Some(d) ==> points_along(d, x, y)
            }),
    {
        if !self.active || self.committed {
            return None;
        }
        self.dx = self.dx + dx as i64;
        self.dy = self.dy + dy as i64;
        let ax: i64 = if self.dx < 0 { -self.dx } else { self.dx };
        let ay: i64 = if self.dy < 0 { -self.dy } else { self.dy };
        let threshold = GESTURE_SWIPE_THRESHOLD as i64;
        if ax < threshold && ay < threshold {
            return None;
        }
        self.committed = true;
        let dir = if ax >= ay {
            if self.dx > 0 {
                GestureDirection::Right
            } else {
                GestureDirection::Left
            }
        } else if self.dy > 0 {
            GestureDirection::Down
        } else {
            GestureDirection::Up
        };
        Some(dir)
    }

    /// End the hold. Returns whether it was a plain click: a hold that never
    /// committed a swipe.
    pub fn end(&mut self) -> (was_click: bool)
        ensures
            final(self).wf(),
            !final(self).active(),
            !final(self).committed(),
            was_click == (old(self).active() && !old(self).committed()),
    {
        let was_click = self.active && !self.committed;
        self.active = false;
        self.committed = false;
        self.dx = 0;
        self.dy = 0;
        was_click
    }
}

/// The gesture button mid-hold, when it began, and the press it belongs to.
#[derive(Debug)]
pub struct GestureHold {
    /// The held button.
    pub button: ButtonId,
    /// When the hold began, in nanoseconds on the hook's monotonic clock.
    pub started_at_ns: u64,
    /// The accepted press the hold belongs to.
    pub press: PressToken,
}

/// How a new gesture press is admitted against the hold in progress.
#[derive(Debug, PartialEq, Eq)]
pub enum HoldAdmission {
    /// No live hold is in the way: begin a new one.
    Begin,
    /// The previous hold was stale; its press must be cancelled first.
    Replace(PressToken),
    /// Another button's live hold keeps the motion: fall back to a click.
    Refuse,
}

/// Which OS-hook gesture button is mid-hold, and its swipe.
#[derive(Debug, Default)]
pub struct HoldState {
    current: Option<GestureHold>,
    swipe: SwipeAccumulator,
}

/// The held button and press of an optional hold.
pub open spec fn hold_of(h: Option<GestureHold>) -> Option<(ButtonId, PressToken)> {
    match h {
        Some(g) => Some((g.button, g.press)),
        None => None,
    }
}

/// How long a hold begun at `started` has lasted at `now`; never negative, as
/// a monotonic clock read later never reads earlier.
pub open spec fn elapsed(started: u64, now: u64) -> int {
    if now >= started {
        now - started
    } else {
        0
    }
}

impl HoldState {
    /// The hold in progress: its button and press.
    pub closed spec fn held(&self) -> Option<(ButtonId, PressToken)> {
        hold_of(self.current)
    }

    /// When the hold in progress began.
    pub closed spec fn started_at(&self) -> u64 {
        match self.current {
            Some(g) => g.started_at_ns,
            None => 0,
        }
    }

    /// The swipe of the hold in progress.
    pub closed spec fn swipe(&self) -> SwipeAccumulator {
        self.swipe
    }

    /// The invariant: the swipe is in range, and active exactly while a hold is.
    pub open spec fn wf(&self) -> bool {
        &&& self.swipe().wf()
        &&& self.swipe().active() == (self.held() is Some)
    }

    /// No hold in progress.
    pub fn new() -> (state: HoldState)
        ensures
            state.wf(),
            state.held() is None,
    {
        HoldState { current: None, swipe: SwipeAccumulator::new() }
    }

    /// Prepare a hold for `button` at `now_ns`. The first live hold wins, so a
    /// second button cannot hijack accumulated motion. Two presses recover a
    /// hold whose button-up was lost: a re-press of the held button itself,
    /// and any press once the hold has aged past [`STALE_HOLD_NS`].
    pub fn prepare_begin(&mut self, button: ButtonId, now_ns: u64) -> (admission: HoldAdmission)
        requires
            old(self).wf(),
        ensures
            final(self).wf(),
            match old(self).held() {
                None => admission == HoldAdmission::Begin && final(self).held() is None,
                Some((b, press)) => if b != button && elapsed(old(self).started_at(), now_ns)
                    < STALE_HOLD_NS {
                    &&& admission == HoldAdmission::Refuse
                    &&& final(self).held() == old(self).held()
                    &&& final(self).started_at() == old(self).started_at()
                    &&& final(self).swipe() == old(self).swipe()
                } else {
                    &&& final(self).held() is None
                    &&& admission == if b == button {
                        HoldAdmission::Begin
                    } else {
                        HoldAdmission::Replace(press)
                    }
                },
            },
    {
        let held = match self.current.take() {
            Some(held) => held,
            None => return HoldAdmission::Begin,
        };
        let age = if now_ns >= held.started_at_ns {
            now_ns - held.started_at_ns
        } else {
            0
        };
        if held.button != button && age < STALE_HOLD_NS {
            self.current = Some(held);
            return HoldAdmission::Refuse;
        }
        self.swipe.end();
        if held.button == button {
            HoldAdmission::Begin
        } else {
            HoldAdmission::Replace(held.press)
        }
    }

    /// Store the token returned by the accepted press, starting a hold at `now_ns`.
    pub fn begin(&mut self, button: ButtonId, press: PressToken, now_ns: u64)
        requires
            old(self).wf(),
        ensures
            final(self).wf(),
            final(self).held() == Some((button, press)),
            final(self).started_at() == now_ns,
            !final(self).swipe().committed(),
            final(self).swipe().travel() == (0int, 0int),
    {
        self.current = Some(GestureHold { button, started_at_ns: now_ns, press });
        self.swipe.begin();
    }

    /// Feed a pointer-move delta into the active hold, tagging a committed
    /// swipe with its exact press token and held button. Returns one commit
    /// per hold, or `None` while still too short, already fired, or not
    /// holding.
    pub fn accumulate(&mut self, dx: i32, dy: i32) -> (commit: Option<
        (PressToken, ButtonId, GestureDirection),
    >)
        requires
            old(self).wf(),
        ensures
            final(self).wf(),
            final(self).held() == old(self).held(),
            final(self).started_at() == old(self).started_at(),
            old(self).held() is None ==> commit is None,
            old(self).swipe().committed() ==> commit is None && final(self).swipe().committed(),
            commit matches Some((press, button, dir)) ==> old(self).held() == Some((button, press))
                && !old(self).swipe().committed() && final(self).swipe().committed() && dir
                == direction_of(final(self).swipe().travel().0, final(self).swipe().travel().1)
                && points_along(dir, final(self).swipe().travel().0, final(self).swipe().travel().1),
            old(self).held() is Some && !old(self).swipe().committed() ==> final(self).swipe().travel()
                == (old(self).swipe().travel().0 + dx, old(self).swipe().travel().1 + dy) && (
            commit is Some <==> final(self).swipe().committed()) && final(self).swipe().committed()
                == crosses(final(self).swipe().travel().0, final(self).swipe().travel().1),
    {
        match &self.current {
            Some(held) => {
                let press = held.press;
                let button = held.button;
                match self.swipe.accumulate(dx, dy) {
                    Some(dir) => Some((press, button, dir)),
                    None => None,
                }
            },
            None => None,
        }
    }

    /// End the hold for `button`, returning its exact token and whether it was
    /// a click. A swipe returns `false`; a stray release returns `None` and
    /// leaves the hold alone.
    pub fn end(&mut self, button: ButtonId) -> (ended: Option<(PressToken, bool)>)
        requires
            old(self).wf(),
        ensures
            final(self).wf(),
            match old(self).held() {
                Some((b, press)) if b == button => {
                    &&& ended == Some((press, !old(self).swipe().committed()))
                    &&& final(self).held() is None
                },
                _ => {
                    &&& ended is None
                    &&& final(self).held() == old(self).held()
                    &&& final(self).started_at() == old(self).started_at()
                    &&& final(self).swipe() == old(self).swipe()
                },
            },
    {
        let matches = match &self.current {
            Some(held) => held.button == button,
            None => false,
        };
        if !matches {
            return None;
        }
        let press = match self.current.take() {
            Some(held) => held.press,
            None => return None,
        };
        let was_click = self.swipe.end();
        Some((press, was_click))
    }

    /// Cancel any in-progress hold without firing anything — used when the OS
    /// interrupts capture, so a dropped button-up cannot leave a stale hold
    /// that the next stray pointer move turns into a phantom swipe.
    pub fn cancel(&mut self)
        ensures
            final(self).wf(),
            final(self).held() is None,
    {
        self.current = None;
        self.swipe.end();
    }
}

} // verus!
