//! Timed transitions from one value to another.

use std::time::Duration;
use vstd::prelude::*;

use crate::clock::ClockTime;
use crate::clocks::Clocks;
use crate::dsp::Scalar;

verus! {

/// When something should start.
#[derive(Debug, Clone, Copy, PartialEq, Eq, Hash)]
pub enum StartTime {
    /// At once.
    Immediate,
    /// When a clock is running and has counted the given ticks.
    ClockTime(ClockTime),
}

impl StartTime {
    /// At once.
    pub fn default() -> (start_time: StartTime)
        ensures
            start_time == StartTime::Immediate,
    {
        StartTime::Immediate
    }

    /// When `clock` is running and has counted `ticks` ticks.
    pub fn from_clock_time(time: ClockTime) -> (start_time: StartTime)
        ensures
            start_time == StartTime::ClockTime(time),
    {
        StartTime::ClockTime(time)
    }

    /// Whether a transition with this start time may run: at once, or when
    /// the clock exists, is running and has counted the ticks.
    pub open spec fn reached(self, clocks: Clocks) -> bool {
        match self {
            StartTime::Immediate => true,
            StartTime::ClockTime(time) => clocks.has(time.clock) && {
                let clock = clocks@[clocks.place(time.clock)].1;
                clock.ticking && clock.ticks >= time.ticks
            },
        }
    }

    /// Whether `clocks` can be asked about this start time: its clock's
    /// identifier names a slot of `clocks`.
    pub open spec fn known_to(self, clocks: Clocks) -> bool {
        self matches StartTime::ClockTime(time) ==> clocks.in_range(time.clock)
    }
}

/// The curve that a transition follows from its start to its end.
#[derive(Debug, Clone, Copy, PartialEq, Eq, Hash, Structural)]
pub enum Easing {
    /// Progress equals the share of the time that has passed.
    Linear,
    /// Progress is that share raised to the given power: slow start.
    PowIn(u32),
    /// The mirror image of [`Easing::PowIn`]: slow end.
    PowOut(u32),
}

/// A timed transition, optionally held back until a clock has ticked.
#[derive(Debug, Clone, Copy, PartialEq, Eq, Hash)]
pub struct Tween {
    /// When the transition starts.
    pub start_time: StartTime,
    /// How long the transition takes.
    pub duration: Duration,
    /// The curve of the transition.
    pub easing: Easing,
}

/// What a [`Tweenable`] is doing.
#[derive(Debug, Clone, Copy)]
pub enum TweenState {
    /// The value rests.
    Idle,
    /// The value is on its way.
    Tweening {
        /// Where the transition started.
        from: Scalar,
        /// Where the transition ends.
        to: Scalar,
        /// The time spent in the transition, in seconds.
        elapsed: Scalar,
        /// The transition.
        tween: Tween,
        /// Whether the transition still waits for its clock.
        waiting_to_start: bool,
    },
}

/// The value and the state of a [`Tweenable`].
pub struct TweenableView {
    /// The current value.
    pub value: Scalar,
    /// What the value is doing.
    pub state: TweenState,
}

/// What one sample's worth of time does to a running transition: it ends,
/// or it reaches a new elapsed time and a new value.
#[derive(Debug, Clone, Copy, PartialEq, Eq, Structural)]
pub enum TweenAdvance {
    /// The elapsed time has reached the duration.
    Finish,
    /// The transition goes on.
    Progress {
        /// The time spent in the transition, in seconds.
        elapsed: Scalar,
        /// The value at that time.
        value: Scalar,
    },
}

impl TweenableView {
    /// A resting value.
    pub open spec fn resting(value: Scalar) -> TweenableView {
        TweenableView { value, state: TweenState::Idle }
    }

    /// The state after a transition to `target` was asked for: it starts
    /// from the current value at time zero, and waits if it is bound to a
    /// clock.
    pub open spec fn set(self, target: Scalar, tween: Tween) -> TweenableView {
        TweenableView {
            value: self.value,
            state: TweenState::Tweening {
                from: self.value,
                to: target,
                elapsed: Scalar::spec_zero(),
                tween,
                waiting_to_start: tween.start_time is ClockTime,
            },
        }
    }

    /// Whether an update moves the value: a transition is under way and is
    /// not held back by its clock.
    pub open spec fn runs(self, clocks: Clocks) -> bool {
        match self.state {
            TweenState::Idle => false,
            TweenState::Tweening { tween, waiting_to_start, .. } => !waiting_to_start
                || tween.start_time.reached(clocks),
        }
    }

    /// The state after an update. A transition that runs ends at its target
    /// and comes to rest, or goes on to the new time and value; it never
    /// waits again. Anything else stays as it is.
    pub open spec fn updated(self, advance: TweenAdvance, clocks: Clocks) -> TweenableView {
        match self.state {
            TweenState::Idle => self,
            TweenState::Tweening { from, to, elapsed, tween, waiting_to_start } => {
                if !self.runs(clocks) {
                    self
                } else {
                    match advance {
                        TweenAdvance::Finish => TweenableView::resting(to),
                        TweenAdvance::Progress { elapsed, value } => TweenableView {
                            value,
                            state: TweenState::Tweening {
                                from,
                                to,
                                elapsed,
                                tween,
                                waiting_to_start: false,
                            },
                        },
                    }
                }
            },
        }
    }

    /// Whether an update ends a transition.
    pub open spec fn finishes(self, advance: TweenAdvance, clocks: Clocks) -> bool {
        self.runs(clocks) && advance is Finish
    }

    /// Whether `clocks` can be asked about the clock that a waiting
    /// transition is bound to.
    pub open spec fn known_to(self, clocks: Clocks) -> bool {
        self.state matches TweenState::Tweening { tween, waiting_to_start, .. }
            ==> waiting_to_start ==> tween.start_time.known_to(clocks)
    }

    /// The state after the updates `advances`, one after the other.
    pub open spec fn updated_all(self, advances: Seq<TweenAdvance>, clocks: Clocks) -> TweenableView
        decreases advances.len(),
    {
        if advances.len() == 0 {
            self
        } else {
            self.updated_all(advances.drop_last(), clocks).updated(advances.last(), clocks)
        }
    }

    /// How many of the updates `advances` end a transition.
    pub open spec fn finished_count(self, advances: Seq<TweenAdvance>, clocks: Clocks) -> nat
        decreases advances.len(),
    {
        if advances.len() == 0 {
            0
        } else {
            let before = self.updated_all(advances.drop_last(), clocks);
            self.finished_count(advances.drop_last(), clocks) + (if before.finishes(
                advances.last(),
                clocks,
            ) {
                1nat
            } else {
                0nat
            })
        }
    }
}

/// A value that can be smoothly transitioned to other values
/// using [`Tween`]s.
#[derive(Debug, Clone, Copy)]
pub struct Tweenable {
    state: TweenState,
    value: Scalar,
}

impl View for Tweenable {
    type V = TweenableView;

    closed spec fn view(&self) -> TweenableView {
        TweenableView { value: self.value, state: self.state }
    }
}

impl Tweenable {
    /// Creates a new [`Tweenable`] with an initial value.
    pub fn new(initial_value: Scalar) -> (tweenable: Tweenable)
        ensures
            tweenable@ == TweenableView::resting(initial_value),
    {
        Self { state: TweenState::Idle, value: initial_value }
    }

    /// Returns the current value of the [`Tweenable`].
    pub fn get(&self) -> (value: Scalar)
        ensures
            value == self@.value,
    {
        self.value
    }

    /// Returns what the [`Tweenable`] is doing.
    pub fn state(&self) -> (state: TweenState)
        ensures
            state == self@.state,
    {
        self.state
    }

    /// Starts transitioning the [`Tweenable`] to the target
    /// value with the given tween.
    pub fn set(&mut self, target: Scalar, tween: Tween)
        ensures
            final(self)@ == old(self)@.set(target, tween),
    {
        let waiting_to_start = match tween.start_time {
            StartTime::Immediate => false,
            StartTime::ClockTime(_) => true,
        };
        self.state = TweenState::Tweening {
            from: self.value,
            to: target,
            elapsed: Scalar::zero(),
            tween,
            waiting_to_start,
        };
    }

    /// Updates the [`Tweenable`] and returns `true` if it just finished
    /// a tween that was in progress.
    ///
    /// `advance` says where one more sample takes the transition that is
    /// under way. It is used only if the transition runs: if it does not
    /// wait for a clock, or the clock exists, is running and has counted the
    /// ticks asked for.
    pub fn update(&mut self, advance: TweenAdvance, clocks: &Clocks) -> (just_finished: bool)
        requires
            clocks.wf(),
            old(self)@.known_to(*clocks),
        ensures
            final(self)@ == old(self)@.updated(advance, *clocks),
            just_finished == old(self)@.finishes(advance, *clocks),
    {
        match self.state {
            TweenState::Idle => false,
            TweenState::Tweening { from, to, elapsed, tween, waiting_to_start } => {
                let mut waiting = waiting_to_start;
                if waiting {
                    match tween.start_time {
                        StartTime::ClockTime(time) => {
                            if let Some(clock) = clocks.get(time.clock) {
                                if clock.ticking() && clock.ticks() >= time.ticks {
                                    waiting = false;
                                }
                            }
                        },
                        StartTime::Immediate => {
                            waiting = false;
                        },
                    }
                }
                if waiting {
                    return false;
                }
                match advance {
                    TweenAdvance::Finish => {
                        self.value = to;
                        self.state = TweenState::Idle;
                        true
                    },
                    TweenAdvance::Progress { elapsed, value } => {
                        self.value = value;
                        self.state = TweenState::Tweening {
                            from,
                            to,
                            elapsed,
                            tween,
                            waiting_to_start: false,
                        };
                        false
                    },
                }
            },
        }
    }
}

/// Whether one of `advances` ends the transition.
pub open spec fn has_finish(advances: Seq<TweenAdvance>) -> bool {
    exists|i: int| 0 <= i < advances.len() && #[trigger] advances[i] is Finish
}

/// A transition that starts at once ends exactly once, at its target.
///
/// Take any value, ask for a transition to `target` that does not wait for a
/// clock, and update any number of times. If one of the updates reports that
/// the duration was reached, then exactly one update returns `true`, and
/// afterwards the value rests at `target`, whatever the later updates say.
/// If none does, no update returns `true` and the transition is still under
/// way to `target`.
pub proof fn lemma_immediate_tween_finishes_once(
    start: TweenableView,
    target: Scalar,
    tween: Tween,
    advances: Seq<TweenAdvance>,
    clocks: Clocks,
)
    requires
        tween.start_time is Immediate,
    ensures
        has_finish(advances) ==> {
            &&& start.set(target, tween).updated_all(advances, clocks) == TweenableView::resting(
                target,
            )
            &&& start.set(target, tween).finished_count(advances, clocks) == 1
        },
        !has_finish(advances) ==> {
            &&& start.set(target, tween).updated_all(advances, clocks).state matches TweenState::Tweening {
                to,
                waiting_to_start,
                ..
            } && to == target && !waiting_to_start
            &&& start.set(target, tween).finished_count(advances, clocks) == 0
        },
    decreases advances.len(),
{
    let begun = start.set(target, tween);
    if advances.len() > 0 {
        let earlier = advances.drop_last();
        lemma_immediate_tween_finishes_once(start, target, tween, earlier, clocks);
        if has_finish(earlier) {
            let i = choose|i: int| 0 <= i < earlier.len() && #[trigger] earlier[i] is Finish;
            assert(advances[i] is Finish);
        } else if advances.last() is Finish {
            assert(advances[advances.len() - 1] is Finish);
        } else {
            if has_finish(advances) {
                let i = choose|i: int| 0 <= i < advances.len() && #[trigger] advances[i] is Finish;
                assert(earlier[i] is Finish);
            }
        }
    }
}

/// A transition bound to a clock stays where it is until the clock has
/// counted the ticks, and then runs like any other.
///
/// As long as the clock is missing, stopped or short of the ticks, an update
/// changes nothing and returns `false`. The first update that finds the
/// clock running at or past the ticks moves the value, and from then on the
/// clock is not asked again: later updates run even if the clock has been
/// stopped or removed.
pub proof fn lemma_clock_gated_tween(
    start: TweenableView,
    target: Scalar,
    tween: Tween,
    advance: TweenAdvance,
    later: TweenAdvance,
    clocks: Clocks,
    later_clocks: Clocks,
)
    requires
        tween.start_time is ClockTime,
    ensures
        !tween.start_time.reached(clocks) ==> {
            &&& start.set(target, tween).updated(advance, clocks) == start.set(target, tween)
            &&& !start.set(target, tween).finishes(advance, clocks)
        },
        tween.start_time.reached(clocks) && advance is Progress ==> {
            &&& start.set(target, tween).updated(advance, clocks).value == advance->value
            &&& start.set(target, tween).updated(advance, clocks).runs(later_clocks)
        },
        tween.start_time.reached(clocks) && advance is Finish ==> {
            &&& start.set(target, tween).updated(advance, clocks) == TweenableView::resting(
                target,
            )
            &&& start.set(target, tween).finishes(advance, clocks)
        },
{
}

} // verus!
