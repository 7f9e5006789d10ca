//! The frame: what happens to the farm, and in which order, each time the
//! game steps.

use crate::input::KeyEdge;
use crate::world::{sales, Sale, SpawnOutcome, World, WorldError, WorldView};
use vstd::prelude::*;

verus! {

/// What one frame did: what came of the command to buy a pig, and the pigs
/// sold.
#[derive(Debug, PartialEq, Eq)]
pub struct Frame {
    pub spawn: SpawnOutcome,
    pub sales: Vec<Sale>,
}

/// Why a frame cannot run on `w`, if it cannot: the command to buy a pig
/// finds no player or no parent or no identifier, or the pigs have no parent.
pub open spec fn frame_error(w: WorldView, command: bool) -> Option<WorldError> {
    match w.spawn_result(command) {
        Err(e) => Some(e),
        Ok(_) => if w.parent is None {
            Some(WorldError::MissingParent)
        } else {
            None
        },
    }
}

/// `after` and `sold` are what a frame of `delta` nanoseconds makes of
/// `before`. The command to buy a pig is carried out first, on the purse as
/// the frame found it. Then the pigs that the frame found wander, and then
/// they age and those whose life is over are sold. A pig bought in this frame
/// is left as it was bought.
pub open spec fn may_step_to(
    before: WorldView,
    after: WorldView,
    command: bool,
    delta: nat,
    sold: Seq<Sale>,
) -> bool {
    let n = before.pigs.len();
    exists|moved: WorldView|
        {
            &&& #[trigger] before.after_spawn(command).may_move_oldest_to(n, moved, delta)
            &&& after == moved.after_lifetime_of(n, delta)
            &&& sold == sales(moved.pigs.take(n as int), delta, moved.balance)
        }
}

/// The pigs' part of the game: what it sets up at the start, and what it does
/// in each frame.
#[derive(Clone, Copy, Debug, PartialEq, Eq, Structural)]
pub struct PigPlugin;

impl PigPlugin {
    /// Sets the farm up for pigs: makes their parent and hands back its
    /// identifier. See `World::spawn_pig_parent`.
    pub fn build(&self, world: &mut World) -> (r: Result<u64, WorldError>)
        requires
            old(world).wf(),
        ensures
            final(world).wf(),
            match r {
                Ok(id) => {
                    &&& old(world)@.parent is None
                    &&& old(world)@.next_id < u64::MAX
                    &&& id == old(world)@.next_id
                    &&& final(world)@ == old(world)@.with_parent()
                },
                Err(e) => {
                    &&& final(world)@ == old(world)@
                    &&& e == if old(world)@.parent is Some {
                        WorldError::ParentExists
                    } else {
                        WorldError::OutOfIds
                    }
                    &&& old(world)@.parent is Some || old(world)@.next_id >= u64::MAX
                },
            },
    {
        world.spawn_pig_parent()
    }

    /// Runs one frame of `delta` nanoseconds for a game that reads the key
    /// itself: `down` says whether this frame finds the key that buys a pig
    /// down, and the pig is asked for only in the frame in which the key goes
    /// down, however long it is held. The frame then runs as `update` says.
    pub fn update_on_key(&self, world: &mut World, key: &mut KeyEdge, down: bool, delta: u64) -> (r:
        Result<Frame, WorldError>)
        requires
            old(world).wf(),
        ensures
            final(world).wf(),
            final(key).held == down,
            match r {
                Ok(frame) => {
                    &&& frame_error(old(world)@, down && !old(key).held) is None
                    &&& old(world)@.spawn_result(down && !old(key).held) == Ok::<
                        SpawnOutcome,
                        WorldError,
                    >(frame.spawn)
                    &&& may_step_to(
                        old(world)@,
                        final(world)@,
                        down && !old(key).held,
                        delta as nat,
                        frame.sales@,
                    )
                },
                Err(e) => {
                    &&& frame_error(old(world)@, down && !old(key).held) == Some(e)
                    &&& final(world)@ == old(world)@
                },
            },
    {
        let command = key.update(down);
        self.update(world, command, delta)
    }

    /// Runs one frame of `delta` nanoseconds: the command to buy a pig, then
    /// the wandering of the pigs, then their ageing and sale. A frame that
    /// cannot run, see `frame_error`, leaves the farm as it was.
    pub fn update(&self, world: &mut World, command: bool, delta: u64) -> (r: Result<
        Frame,
        WorldError,
    >)
        requires
            old(world).wf(),
        ensures
            final(world).wf(),
            match r {
                Ok(frame) => {
                    &&& frame_error(old(world)@, command) is None
                    &&& old(world)@.spawn_result(command) == Ok::<SpawnOutcome, WorldError>(
                        frame.spawn,
                    )
                    &&& may_step_to(
                        old(world)@,
                        final(world)@,
                        command,
                        delta as nat,
                        frame.sales@,
                    )
                },
                Err(e) => {
                    &&& frame_error(old(world)@, command) == Some(e)
                    &&& final(world)@ == old(world)@
                },
            },
    {
        let count = world.pig_count();
        let spawn = match world.spawn_pig(command) {
            Ok(outcome) => outcome,
            Err(e) => {
                return Err(e);
            },
        };
        if world.parent_id().is_none() {
            return Err(WorldError::MissingParent);
        }
        world.wander_oldest(count, delta);
        let ghost moved = world@;
        match world.age_oldest(count, delta) {
            Ok(sold) => {
                assert(old(world)@.after_spawn(command).may_move_oldest_to(
                    count as nat,
                    moved,
                    delta as nat,
                ));
                Ok(Frame { spawn, sales: sold })
            },
            Err(e) => Err(e),
        }
    }
}

} // verus!
