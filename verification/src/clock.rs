//! Tick-counting timebases for scheduled starts.

use atomic_arena::{Controller, Key};
use std::sync::atomic::{AtomicBool, AtomicU64, Ordering};
use std::sync::Arc;
use vstd::prelude::*;

use crate::arena::{capacity, controller_capacity, key_index, try_reserve};
use crate::shared::share;
use crate::dsp::Scalar;
use crate::value::{CachedValue, Value};

verus! {

/// A unique identifier for a clock.
#[derive(Debug, Clone, Copy, PartialEq, Eq, Hash)]
pub struct ClockId(pub Key);

/// A moment in a clock's life: the clock and a tick count.
#[derive(Debug, Clone, Copy, PartialEq, Eq, Hash)]
pub struct ClockTime {
    /// The clock.
    pub clock: ClockId,
    /// The tick count.
    pub ticks: u64,
}

/// What a clock's handle and the renderer share: mirrors of the clock's state
/// for control code to read, and the flag by which a dropped handle asks for
/// the clock's removal.
pub struct ClockShared {
    ticking: AtomicBool,
    ticks: AtomicU64,
    removed: AtomicBool,
}

impl ClockId {
    /// Reserves an identifier for a new clock, or returns `None` when every
    /// slot of the collection is taken. The identifier names a slot of the
    /// collection that the controller belongs to.
    pub fn reserve(controller: &Controller) -> (id: Option<ClockId>)
        ensures
            controller_capacity(*controller) == 0 ==> id is None,
            id matches Some(id) ==> key_index(id.0) < controller_capacity(*controller),
    {
        if capacity(controller) == 0 {
            return None;
        }
        match try_reserve(controller) {
            Some(key) => Some(ClockId(key)),
            None => None,
        }
    }
}

impl ClockShared {
    /// Creates the shared state of a stopped clock that nobody asked to
    /// remove.
    pub fn new() -> Self {
        Self {
            ticking: AtomicBool::new(false),
            ticks: AtomicU64::new(0),
            removed: AtomicBool::new(false),
        }
    }

    /// Whether the clock was ticking when the renderer last wrote the mirror.
    pub fn ticking(&self) -> bool {
        self.ticking.load(Ordering::SeqCst)
    }

    /// The tick count that the renderer last wrote to the mirror.
    pub fn ticks(&self) -> u64 {
        self.ticks.load(Ordering::SeqCst)
    }

    /// Whether the clock's removal was asked for.
    pub fn is_marked_for_removal(&self) -> bool {
        self.removed.load(Ordering::SeqCst)
    }

    /// Asks for the clock's removal.
    pub fn mark_for_removal(&self) {
        self.removed.store(true, Ordering::SeqCst);
    }
}

/// The renderer's own state of a clock.
pub struct ClockView {
    /// Whether the clock is running.
    pub ticking: bool,
    /// The ticks counted since the clock was last stopped.
    pub ticks: u64,
    /// The setting that the interval follows.
    pub interval_setting: Value<Scalar>,
    /// The time from one tick to the next, in seconds, as last sampled.
    pub interval: Scalar,
    /// The part of the current interval that has passed.
    pub fractional: Scalar,
}

/// What one sample's worth of time does to a running clock: the whole ticks
/// that passed and the part of the next interval reached.
#[derive(Debug, Clone, Copy, PartialEq, Eq, Structural)]
pub struct ClockAdvance {
    /// The number of interval boundaries crossed.
    pub ticks: u64,
    /// The part of the current interval that has passed afterwards.
    pub fractional: Scalar,
}

/// A user-controlled tick counter.
pub struct Clock {
    shared: Arc<ClockShared>,
    ticking: bool,
    ticks: u64,
    interval: CachedValue<Scalar>,
    fractional: Scalar,
}

impl View for Clock {
    type V = ClockView;

    closed spec fn view(&self) -> ClockView {
        ClockView {
            ticking: self.ticking,
            ticks: self.ticks,
            interval_setting: self.interval.setting(),
            interval: self.interval.raw(),
            fractional: self.fractional,
        }
    }
}

impl ClockView {
    /// The state after the interval was sampled: an interval that follows a
    /// parameter takes `mapped`, the mapped value of that parameter, where
    /// the parameter exists.
    pub open spec fn sampled(self, mapped: Option<Scalar>) -> ClockView {
        match (self.interval_setting, mapped) {
            (Value::Parameter { .. }, Some(sample)) => ClockView { interval: sample, ..self },
            _ => self,
        }
    }

    /// The state after time has passed: a running clock counts the ticks,
    /// stopping at the largest count it can hold, and takes the new
    /// fraction; a clock that is not running stays as it is.
    pub open spec fn advanced(self, advance: ClockAdvance) -> ClockView {
        if self.ticking {
            ClockView {
                ticks: if self.ticks + advance.ticks > u64::MAX {
                    u64::MAX
                } else {
                    (self.ticks + advance.ticks) as u64
                },
                fractional: advance.fractional,
                ..self
            }
        } else {
            self
        }
    }
}

impl ClockView {
    /// The state after the samples `advances`, one after the other.
    pub open spec fn advanced_all(self, advances: Seq<ClockAdvance>) -> ClockView
        decreases advances.len(),
    {
        if advances.len() == 0 {
            self
        } else {
            self.advanced_all(advances.drop_last()).advanced(advances.last())
        }
    }
}

/// The interval boundaries crossed in all of `advances` together.
pub open spec fn total_ticks(advances: Seq<ClockAdvance>) -> nat
    decreases advances.len(),
{
    if advances.len() == 0 {
        0
    } else {
        total_ticks(advances.drop_last()) + advances.last().ticks as nat
    }
}

/// A running clock counts every interval boundary that is crossed.
///
/// However the time that passes is cut into samples, a clock that runs
/// without a pause has counted, on top of the ticks it had, the number of
/// boundaries crossed in all the samples together, up to the largest count
/// it can hold. It is still running, and it never counts backwards.
pub proof fn lemma_running_clock_counts_ticks(clock: ClockView, advances: Seq<ClockAdvance>)
    requires
        clock.ticking,
    ensures
        clock.advanced_all(advances).ticking,
        clock.advanced_all(advances).ticks == (if clock.ticks + total_ticks(advances) > u64::MAX {
            u64::MAX as int
        } else {
            clock.ticks + total_ticks(advances)
        }),
        clock.advanced_all(advances).ticks >= clock.ticks,
        clock.advanced_all(advances).interval == clock.interval,
        clock.advanced_all(advances).interval_setting == clock.interval_setting,
    decreases advances.len(),
{
    if advances.len() > 0 {
        lemma_running_clock_counts_ticks(clock, advances.drop_last());
    }
}

/// A clock that does not run keeps its count.
///
/// Time that passes while a clock is paused or stopped changes nothing:
/// neither the ticks nor the part of the interval that has passed.
pub proof fn lemma_resting_clock_keeps_count(clock: ClockView, advances: Seq<ClockAdvance>)
    requires
        !clock.ticking,
    ensures
        clock.advanced_all(advances) == clock,
    decreases advances.len(),
{
    if advances.len() > 0 {
        lemma_resting_clock_keeps_count(clock, advances.drop_last());
    }
}

impl Clock {
    /// The shared state that the clock writes its mirrors to.
    pub closed spec fn handle(self) -> Arc<ClockShared> {
        self.shared
    }

    /// Creates a stopped clock at tick zero. An interval bound to a parameter
    /// reads as one second until the parameter is first sampled.
    pub fn new(interval: Value<Scalar>) -> (clock: Clock)
        ensures
            !clock@.ticking,
            clock@.ticks == 0,
            clock@.fractional == Scalar::spec_zero(),
            clock@.interval_setting == interval,
            clock@.interval == (match interval {
                Value::Fixed(fixed) => fixed,
                Value::Parameter { .. } => Scalar::spec_one(),
            }),
    {
        Clock {
            shared: Arc::new(ClockShared::new()),
            ticking: false,
            ticks: 0,
            interval: CachedValue::new(interval, Scalar::one()),
            fractional: Scalar::zero(),
        }
    }

    /// The state that the clock shares with its handle.
    pub fn shared(&self) -> (shared: Arc<ClockShared>)
        ensures
            shared == self.handle(),
    {
        share(&self.shared)
    }

    /// Whether the handle of this clock asked for its removal.
    pub fn is_marked_for_removal(&self) -> bool {
        self.shared.is_marked_for_removal()
    }

    /// Whether the clock is running.
    pub fn ticking(&self) -> (ticking: bool)
        ensures
            ticking == self@.ticking,
    {
        self.ticking
    }

    /// The ticks counted since the clock was last stopped.
    pub fn ticks(&self) -> (ticks: u64)
        ensures
            ticks == self@.ticks,
    {
        self.ticks
    }

    /// The time from one tick to the next, in seconds, as last sampled.
    pub fn interval(&self) -> (interval: Scalar)
        ensures
            interval == self@.interval,
    {
        self.interval.get()
    }

    /// The part of the current interval that has passed.
    pub fn fractional(&self) -> (fractional: Scalar)
        ensures
            fractional == self@.fractional,
    {
        self.fractional
    }

    /// Changes the interval setting. The sampled interval stays until the
    /// next sampling.
    pub fn set_interval(&mut self, interval: Value<Scalar>)
        ensures
            final(self).handle() == old(self).handle(),
            final(self)@ == (ClockView { interval_setting: interval, ..old(self)@ }),
    {
        self.interval.set(interval);
    }

    /// Samples the interval: `mapped` is the mapped value of the parameter
    /// that the interval follows, if that parameter exists.
    pub fn update_interval(&mut self, mapped: Option<Scalar>)
        ensures
            final(self).handle() == old(self).handle(),
            final(self)@ == old(self)@.sampled(mapped),
    {
        self.interval.update(mapped);
    }

    /// Starts or resumes the clock.
    pub fn start(&mut self)
        ensures
            final(self).handle() == old(self).handle(),
            final(self)@ == (ClockView { ticking: true, ..old(self)@ }),
    {
        self.ticking = true;
        self.shared.ticking.store(true, Ordering::SeqCst);
    }

    /// Pauses the clock, keeping the tick count and the fraction.
    pub fn pause(&mut self)
        ensures
            final(self).handle() == old(self).handle(),
            final(self)@ == (ClockView { ticking: false, ..old(self)@ }),
    {
        self.ticking = false;
        self.shared.ticking.store(false, Ordering::SeqCst);
    }

    /// Stops the clock and resets the tick count and the fraction to zero.
    pub fn stop(&mut self)
        ensures
            final(self).handle() == old(self).handle(),
            final(self)@ == (ClockView {
                ticking: false,
                ticks: 0,
                fractional: Scalar::spec_zero(),
                ..old(self)@
            }),
    {
        self.ticking = false;
        self.ticks = 0;
        self.fractional = Scalar::zero();
        self.shared.ticking.store(false, Ordering::SeqCst);
        self.shared.ticks.store(0, Ordering::SeqCst);
    }

    /// Lets time pass: see [`ClockView::advanced`]. The tick mirror is
    /// written whenever ticks were counted.
    pub fn update(&mut self, advance: ClockAdvance)
        ensures
            final(self).handle() == old(self).handle(),
            final(self)@ == old(self)@.advanced(advance),
    {
        if self.ticking {
            self.ticks = self.ticks.saturating_add(advance.ticks);
            self.fractional = advance.fractional;
            if advance.ticks > 0 {
                self.shared.ticks.store(self.ticks, Ordering::SeqCst);
            }
        }
    }
}

} // verus!
