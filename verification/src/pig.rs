//! Pigs: what a pig carries, and how one pig ages and wanders.

use crate::timer::{Timer, TimerMode, TimerView};
use vstd::prelude::*;

verus! {

/// How long a pig lives, in nanoseconds.
pub const PIG_LIFETIME: u64 = 5_000_000_000;

/// The time between two steps of a pig, in nanoseconds.
pub const PIG_STEP_TIME: u64 = 100_000_000;

/// The farthest a pig goes along one axis in one step, in thousandths of a
/// world unit.
pub const PIG_MAX_STEP: i64 = 5_000;

/// A coordinate brought back into the range of the map.
pub open spec fn clamp_coord(v: int) -> i64 {
    if v < i64::MIN {
        i64::MIN
    } else if v > i64::MAX {
        i64::MAX
    } else {
        v as i64
    }
}

/// A place on the map, in thousandths of a world unit.
#[derive(Clone, Copy, Debug, PartialEq, Eq, Structural)]
pub struct Position {
    pub x: i64,
    pub y: i64,
}

impl Position {
    /// The place `dx` to the right of this one and `dy` above it, held at the
    /// edge of the map.
    pub open spec fn shifted(self, dx: int, dy: int) -> Position {
        Position { x: clamp_coord(self.x + dx), y: clamp_coord(self.y + dy) }
    }

    /// The place `dx` to the right of this one and `dy` above it, held at the
    /// edge of the map.
    pub fn shift(self, dx: i64, dy: i64) -> (p: Position)
        ensures
            p == self.shifted(dx as int, dy as int),
    {
        Position { x: add_clamped(self.x, dx), y: add_clamped(self.y, dy) }
    }
}

/// The sum of two coordinates, held at the edge of the map.
pub fn add_clamped(a: i64, b: i64) -> (sum: i64)
    ensures
        sum == clamp_coord(a + b),
{
    let wide: i128 = a as i128 + b as i128;
    if wide < i64::MIN as i128 {
        i64::MIN
    } else if wide > i64::MAX as i128 {
        i64::MAX
    } else {
        wide as i64
    }
}

/// The two timers of a pig as mathematical values.
pub struct PigView {
    pub lifetime: TimerView,
    pub movement_timer: TimerView,
}

impl PigView {
    /// A pig as it is bought: no time has passed on either timer.
    pub open spec fn fresh() -> PigView {
        PigView {
            lifetime: TimerView::fresh(PIG_LIFETIME as nat, TimerMode::Once),
            movement_timer: TimerView::fresh(PIG_STEP_TIME as nat, TimerMode::Repeating),
        }
    }

    /// Both timers are those of a pig of the farm, the pig is alive and is not
    /// due for a step.
    pub open spec fn wf(self) -> bool {
        &&& self.lifetime.duration == PIG_LIFETIME
        &&& self.lifetime.mode == TimerMode::Once
        &&& self.lifetime.elapsed < self.lifetime.duration
        &&& self.movement_timer.duration == PIG_STEP_TIME
        &&& self.movement_timer.mode == TimerMode::Repeating
        &&& self.movement_timer.elapsed < self.movement_timer.duration
    }
}

/// What makes an entity a pig: the timer of its life and the timer of its
/// steps.
#[derive(Clone, Copy, Debug, PartialEq, Eq)]
pub struct Pig {
    pub lifetime: Timer,
    pub movement_timer: Timer,
}

impl View for Pig {
    type V = PigView;

    open spec fn view(&self) -> PigView {
        PigView { lifetime: self.lifetime@, movement_timer: self.movement_timer@ }
    }
}

impl Pig {
    /// A pig as it is bought: it lives `PIG_LIFETIME` and takes a step every
    /// `PIG_STEP_TIME`.
    pub fn new() -> (pig: Pig)
        ensures
            pig@ == PigView::fresh(),
            pig@.wf(),
    {
        Pig {
            lifetime: Timer::new(PIG_LIFETIME, TimerMode::Once),
            movement_timer: Timer::new(PIG_STEP_TIME, TimerMode::Repeating),
        }
    }
}

/// A pig on the map as a mathematical value.
pub struct PigEntityView {
    pub id: u64,
    pub position: Position,
    pub pig: PigView,
}

impl PigEntityView {
    /// A pig as it is bought, at `position`.
    pub open spec fn fresh(id: u64, position: Position) -> PigEntityView {
        PigEntityView { id, position, pig: PigView::fresh() }
    }

    /// The pig after `delta` nanoseconds of its life.
    pub open spec fn aged(self, delta: nat) -> PigEntityView {
        PigEntityView {
            pig: PigView { lifetime: self.pig.lifetime.advance(delta), ..self.pig },
            ..self
        }
    }

    /// The life of the pig is over.
    pub open spec fn expired(self) -> bool {
        self.pig.lifetime.fired()
    }

    /// The life of the pig is over once `delta` more nanoseconds have passed.
    pub open spec fn expires_within(self, delta: nat) -> bool {
        self.aged(delta).expired()
    }

    /// A step is due once `delta` more nanoseconds have passed.
    pub open spec fn step_due(self, delta: nat) -> bool {
        self.pig.movement_timer.advance(delta).fired()
    }

    /// The pig after `delta` nanoseconds of wandering. Where a step is due,
    /// the pig moves by `dx` and `dy` and the wait for the next step begins;
    /// where none is due, the pig only waits.
    pub open spec fn wandered(self, delta: nat, dx: int, dy: int) -> PigEntityView {
        let waited = self.pig.movement_timer.advance(delta);
        if waited.fired() {
            PigEntityView {
                position: self.position.shifted(dx, dy),
                pig: PigView { movement_timer: waited.reset(), ..self.pig },
                ..self
            }
        } else {
            PigEntityView { pig: PigView { movement_timer: waited, ..self.pig }, ..self }
        }
    }

    /// `after` is this pig after `delta` nanoseconds of wandering, with some
    /// step of at most `PIG_MAX_STEP` along each axis.
    pub open spec fn may_wander_to(self, after: PigEntityView, delta: nat) -> bool {
        exists|dx: int, dy: int|
            -PIG_MAX_STEP <= dx <= PIG_MAX_STEP && -PIG_MAX_STEP <= dy <= PIG_MAX_STEP && after
                == #[trigger] self.wandered(delta, dx, dy)
    }
}

/// A pig on the map: its identifier, its place and its timers.
#[derive(Clone, Copy, Debug, PartialEq, Eq)]
pub struct PigEntity {
    pub id: u64,
    pub position: Position,
    pub pig: Pig,
}

impl View for PigEntity {
    type V = PigEntityView;

    open spec fn view(&self) -> PigEntityView {
        PigEntityView { id: self.id, position: self.position, pig: self.pig@ }
    }
}

impl PigEntity {
    /// A pig as it is bought, at `position`.
    pub fn new(id: u64, position: Position) -> (e: PigEntity)
        ensures
            e@ == PigEntityView::fresh(id, position),
            e@.pig.wf(),
    {
        PigEntity { id, position, pig: Pig::new() }
    }

    /// Lets `delta` nanoseconds of the pig's life pass, and says whether its
    /// life is over.
    pub fn age(&mut self, delta: u64) -> (expired: bool)
        requires
            old(self).pig.lifetime.wf(),
        ensures
            final(self)@ == old(self)@.aged(delta as nat),
            final(self).pig.lifetime.wf(),
            final(self).pig.movement_timer == old(self).pig.movement_timer,
            expired == old(self)@.expires_within(delta as nat),
    {
        self.pig.lifetime.advance(delta);
        self.pig.lifetime.fired()
    }

    /// Whether a step is due once `delta` more nanoseconds have passed.
    pub fn step_due(&self, delta: u64) -> (due: bool)
        requires
            self.pig.movement_timer.wf(),
        ensures
            due == self@.step_due(delta as nat),
    {
        delta >= self.pig.movement_timer.remaining()
    }

    /// Lets `delta` nanoseconds of wandering pass, and says whether the pig
    /// took a step. Where a step is due, the pig moves by `dx` and `dy` and
    /// the wait for the next step begins; where none is due, `dx` and `dy`
    /// are not used.
    pub fn wander(&mut self, delta: u64, dx: i64, dy: i64) -> (stepped: bool)
        requires
            old(self).pig.movement_timer.wf(),
        ensures
            final(self)@ == old(self)@.wandered(delta as nat, dx as int, dy as int),
            final(self).pig.movement_timer.wf(),
            final(self).pig.lifetime == old(self).pig.lifetime,
            stepped == old(self)@.step_due(delta as nat),
    {
        self.pig.movement_timer.advance(delta);
        if self.pig.movement_timer.fired() {
            self.position = self.position.shift(dx, dy);
            self.pig.movement_timer.reset();
            true
        } else {
            false
        }
    }
}

/// Wandering leaves a pig of the farm a pig of the farm: alive as before,
/// and with a full wait before its next step whenever it took one.
pub proof fn lemma_wandered_stays_wf(p: PigEntityView, delta: nat, dx: int, dy: int)
    requires
        p.pig.wf(),
    ensures
        p.wandered(delta, dx, dy).pig.wf(),
        p.wandered(delta, dx, dy).id == p.id,
        p.wandered(delta, dx, dy).pig.lifetime == p.pig.lifetime,
        p.step_due(delta) ==> p.wandered(delta, dx, dy).pig.movement_timer == TimerView::fresh(
            PIG_STEP_TIME as nat,
            TimerMode::Repeating,
        ),
        !p.step_due(delta) ==> p.wandered(delta, dx, dy).position == p.position,
{
}

/// A step of at most `PIG_MAX_STEP` along each axis leaves a pig that far
/// from where it was, or nearer where the edge of the map stops it.
pub proof fn lemma_step_is_short(p: Position, dx: int, dy: int)
    requires
        -PIG_MAX_STEP <= dx <= PIG_MAX_STEP,
        -PIG_MAX_STEP <= dy <= PIG_MAX_STEP,
    ensures
        p.x - PIG_MAX_STEP <= p.shifted(dx, dy).x <= p.x + PIG_MAX_STEP,
        p.y - PIG_MAX_STEP <= p.shifted(dx, dy).y <= p.y + PIG_MAX_STEP,
{
}

/// A pig that has just been bought lives through any time shorter than
/// `PIG_LIFETIME` and no longer: its life is over exactly when the time that
/// has passed reaches `PIG_LIFETIME`, in one tick or in many.
pub proof fn lemma_pig_lives_five_seconds(id: u64, position: Position, deltas: Seq<nat>)
    ensures
        PigEntityView::fresh(id, position).pig.lifetime.advance_all(deltas).fired()
            <==> crate::timer::total(deltas) >= PIG_LIFETIME,
        PigEntityView::fresh(id, position).pig.lifetime.firings(deltas) == if crate::timer::total(
            deltas,
        ) >= PIG_LIFETIME {
            1nat
        } else {
            0nat
        },
{
    crate::timer::lemma_fires_exactly_once(PigEntityView::fresh(id, position).pig.lifetime, deltas);
}

} // verus!
