//! Timers: a count of elapsed nanoseconds against a duration.

use vstd::prelude::*;

verus! {

/// Whether a timer runs once or in cycles.
#[derive(Clone, Copy, Debug, PartialEq, Eq, Structural)]
pub enum TimerMode {
    /// The timer fires once and stays fired.
    Once,
    /// The timer fires, is reset, and runs again.
    Repeating,
}

/// A timer as a mathematical value.
pub struct TimerView {
    pub elapsed: nat,
    pub duration: nat,
    pub mode: TimerMode,
}

impl TimerView {
    /// The elapsed time never passes the duration.
    pub open spec fn wf(self) -> bool {
        self.elapsed <= self.duration
    }

    /// A timer of the given duration on which no time has passed.
    pub open spec fn fresh(duration: nat, mode: TimerMode) -> TimerView {
        TimerView { elapsed: 0, duration, mode }
    }

    /// The timer has fired once the elapsed time has reached the duration.
    pub open spec fn fired(self) -> bool {
        self.elapsed >= self.duration
    }

    /// The time still to pass before the timer fires.
    pub open spec fn remaining(self) -> nat {
        if self.elapsed >= self.duration {
            0
        } else {
            (self.duration - self.elapsed) as nat
        }
    }

    /// The timer after `delta` more nanoseconds. The elapsed time stops at the
    /// duration: what goes beyond it is not kept.
    pub open spec fn advance(self, delta: nat) -> TimerView {
        TimerView {
            elapsed: if self.elapsed + delta >= self.duration {
                self.duration
            } else {
                self.elapsed + delta
            },
            ..self
        }
    }

    /// The timer after a reset. A repeating timer starts its next cycle at
    /// zero. A timer that runs once goes back to zero only while it has not
    /// fired: once fired, it stays fired.
    pub open spec fn reset(self) -> TimerView {
        if self.mode == TimerMode::Once && self.fired() {
            self
        } else {
            TimerView { elapsed: 0, ..self }
        }
    }

    /// The timer after every delta of `deltas` in turn.
    pub open spec fn advance_all(self, deltas: Seq<nat>) -> TimerView
        decreases deltas.len(),
    {
        if deltas.len() == 0 {
            self
        } else {
            self.advance_all(deltas.drop_last()).advance(deltas.last())
        }
    }

    /// How many of the deltas of `deltas`, taken in turn, bring the timer from
    /// not fired to fired.
    pub open spec fn firings(self, deltas: Seq<nat>) -> nat
        decreases deltas.len(),
    {
        if deltas.len() == 0 {
            0
        } else {
            let before = self.advance_all(deltas.drop_last());
            let now: nat = if !before.fired() && before.advance(deltas.last()).fired() {
                1
            } else {
                0
            };
            self.firings(deltas.drop_last()) + now
        }
    }
}

/// The sum of a sequence of deltas.
pub open spec fn total(deltas: Seq<nat>) -> nat
    decreases deltas.len(),
{
    if deltas.len() == 0 {
        0
    } else {
        total(deltas.drop_last()) + deltas.last()
    }
}

/// A timer, counted in nanoseconds.
#[derive(Clone, Copy, Debug, PartialEq, Eq)]
pub struct Timer {
    elapsed: u64,
    duration: u64,
    mode: TimerMode,
}

impl View for Timer {
    type V = TimerView;

    closed spec fn view(&self) -> TimerView {
        TimerView {
            elapsed: self.elapsed as nat,
            duration: self.duration as nat,
            mode: self.mode,
        }
    }
}

impl Timer {
    /// The elapsed time never passes the duration.
    pub open spec fn wf(&self) -> bool {
        self@.wf()
    }

    /// A timer of `duration` nanoseconds on which no time has passed.
    pub fn new(duration: u64, mode: TimerMode) -> (t: Timer)
        ensures
            t.wf(),
            t@ == TimerView::fresh(duration as nat, mode),
    {
        Timer { elapsed: 0, duration, mode }
    }

    /// The nanoseconds that have passed, at most the duration.
    pub fn elapsed(&self) -> (ns: u64)
        ensures
            ns == self@.elapsed,
    {
        self.elapsed
    }

    /// The nanoseconds after which the timer fires.
    pub fn duration(&self) -> (ns: u64)
        ensures
            ns == self@.duration,
    {
        self.duration
    }

    /// Whether the timer runs once or in cycles.
    pub fn mode(&self) -> (mode: TimerMode)
        ensures
            mode == self@.mode,
    {
        self.mode
    }

    /// The nanoseconds still to pass before the timer fires.
    pub fn remaining(&self) -> (ns: u64)
        ensures
            ns == self@.remaining(),
    {
        if self.elapsed >= self.duration {
            0
        } else {
            self.duration - self.elapsed
        }
    }

    /// Whether the elapsed time has reached the duration.
    pub fn fired(&self) -> (fired: bool)
        ensures
            fired == self@.fired(),
    {
        self.elapsed >= self.duration
    }

    /// Lets `delta` nanoseconds pass.
    pub fn advance(&mut self, delta: u64)
        requires
            old(self).wf(),
        ensures
            final(self).wf(),
            final(self)@ == old(self)@.advance(delta as nat),
    {
        if delta >= self.duration - self.elapsed {
            self.elapsed = self.duration;
        } else {
            self.elapsed = self.elapsed + delta;
        }
    }

    /// Starts the next cycle of a repeating timer, or starts over a timer that
    /// runs once and has not fired. A timer that runs once and has fired is
    /// left as it is.
    pub fn reset(&mut self)
        requires
            old(self).wf(),
        ensures
            final(self).wf(),
            final(self)@ == old(self)@.reset(),
    {
        match self.mode {
            TimerMode::Once => {
                if self.elapsed < self.duration {
                    self.elapsed = 0;
                }
            },
            TimerMode::Repeating => {
                self.elapsed = 0;
            },
        }
    }
}

/// Advancing keeps a timer well formed, and never takes time back.
pub proof fn lemma_advance_keeps_wf(t: TimerView, delta: nat)
    requires
        t.wf(),
    ensures
        t.advance(delta).wf(),
        t.advance(delta).elapsed >= t.elapsed,
        t.advance(delta).duration == t.duration,
        t.advance(delta).mode == t.mode,
        t.advance(delta).fired() <==> delta >= t.remaining(),
{
}

/// Time delivered in many ticks counts as the same time delivered in one.
pub proof fn lemma_many_ticks_as_one(t: TimerView, deltas: Seq<nat>)
    requires
        t.wf(),
    ensures
        t.advance_all(deltas) == t.advance(total(deltas)),
        t.advance_all(deltas).wf(),
    decreases deltas.len(),
{
    if deltas.len() > 0 {
        lemma_many_ticks_as_one(t, deltas.drop_last());
    }
}

/// Over any run of ticks a timer goes from not fired to fired exactly once if
/// it had not fired before and the ticks sum to at least the time that was
/// left, and never otherwise. Once it has fired it is fired after every later
/// tick.
pub proof fn lemma_fires_exactly_once(t: TimerView, deltas: Seq<nat>)
    requires
        t.wf(),
    ensures
        t.firings(deltas) == if !t.fired() && total(deltas) >= t.remaining() {
            1nat
        } else {
            0nat
        },
        t.advance_all(deltas).fired() <==> t.fired() || total(deltas) >= t.remaining(),
    decreases deltas.len(),
{
    if deltas.len() > 0 {
        lemma_fires_exactly_once(t, deltas.drop_last());
        lemma_many_ticks_as_one(t, deltas.drop_last());
        lemma_many_ticks_as_one(t, deltas);
    }
}

/// A timer that runs once and has fired stays fired, whether it is advanced
/// or reset.
pub proof fn lemma_once_fired_stays_fired(t: TimerView, delta: nat)
    requires
        t.wf(),
        t.mode == TimerMode::Once,
        t.fired(),
    ensures
        t.advance(delta) == t,
        t.reset() == t,
{
}

/// A repeating timer fires when a full duration has passed, and its reset
/// puts it where it began: it fires again after another full duration and
/// not before.
pub proof fn lemma_repeating_cycle(duration: nat, delta: nat)
    requires
        duration > 0,
    ensures
        !TimerView::fresh(duration, TimerMode::Repeating).fired(),
        TimerView::fresh(duration, TimerMode::Repeating).advance(duration).fired(),
        TimerView::fresh(duration, TimerMode::Repeating).firings(seq![duration]) == 1,
        TimerView::fresh(duration, TimerMode::Repeating).advance(duration).reset()
            == TimerView::fresh(duration, TimerMode::Repeating),
        TimerView::fresh(duration, TimerMode::Repeating).advance(duration).reset().advance(
            delta,
        ).fired() <==> delta >= duration,
{
    let t = TimerView::fresh(duration, TimerMode::Repeating);
    let one = seq![duration];
    assert(one.drop_last() =~= Seq::<nat>::empty());
    assert(one.last() == duration);
    assert(t.advance_all(one.drop_last()) == t);
    assert(t.firings(one.drop_last()) == 0);
}

} // verus!
