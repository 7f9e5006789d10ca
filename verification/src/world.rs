//! The farm: the purse, the player, the parent of the pigs and the pigs, and
//! the three things that happen to them in a frame.

use crate::money::{after_credit, Money, MONEY_CAP, PIG_PRICE, PIG_SALE};
use crate::parent::{lemma_remove_from_unique, PigParent};
use crate::pig::{lemma_wandered_stays_wf, PigEntity, PigEntityView, Position};
use crate::player::{Direction, Player};
use crate::random::random_step;
use vstd::prelude::*;

verus! {

/// Why the farm could not do what was asked.
#[derive(Clone, Copy, Debug, PartialEq, Eq, Structural)]
pub enum WorldError {
    /// There is no player whose place a pig could take.
    MissingPlayer,
    /// There is no parent that a pig could be attached to.
    MissingParent,
    /// The parent of the pigs has been made already.
    ParentExists,
    /// Every identifier has been handed out.
    OutOfIds,
}

/// What came of a frame's command to buy a pig.
#[derive(Clone, Copy, Debug, PartialEq, Eq, Structural)]
pub enum SpawnOutcome {
    /// No pig was asked for.
    NoCommand,
    /// A pig was bought: its identifier, its place, and the balance left.
    Bought { id: u64, position: Position, balance: u64 },
    /// The purse did not cover the price: the balance, which is unchanged.
    InsufficientFunds { balance: u64 },
}

/// One pig sold: its identifier, and the balance once it was paid for.
#[derive(Clone, Copy, Debug, PartialEq, Eq, Structural)]
pub struct Sale {
    pub id: u64,
    pub balance: u64,
}

/// The identifiers of `pigs`, in their order.
pub open spec fn pig_ids(pigs: Seq<PigEntityView>) -> Seq<u64> {
    Seq::new(pigs.len(), |k: int| pigs[k].id)
}

/// Ageing by `delta`, as a function on pigs.
pub open spec fn aging(delta: nat) -> spec_fn(PigEntityView) -> PigEntityView {
    |p: PigEntityView| p.aged(delta)
}

/// Being alive, as a test on pigs.
pub open spec fn alive() -> spec_fn(PigEntityView) -> bool {
    |p: PigEntityView| !p.expired()
}

/// Having at most `delta` left to live, as a test on pigs.
pub open spec fn expiring(delta: nat) -> spec_fn(PigEntityView) -> bool {
    |p: PigEntityView| p.expires_within(delta)
}

/// The pigs of `pigs` that are alive after `delta`, aged by it, in their
/// order.
pub open spec fn survivors(pigs: Seq<PigEntityView>, delta: nat) -> Seq<PigEntityView> {
    pigs.map_values(aging(delta)).filter(alive())
}

/// The pigs of `pigs` whose life ends within `delta`, in their order.
pub open spec fn sold(pigs: Seq<PigEntityView>, delta: nat) -> Seq<PigEntityView> {
    pigs.filter(expiring(delta))
}

/// The balance after `n` pigs were sold.
pub open spec fn credited(balance: int, n: nat) -> int {
    if balance + n * PIG_SALE <= MONEY_CAP {
        balance + n * PIG_SALE
    } else {
        MONEY_CAP as int
    }
}

/// The sales that `delta` brings: one for each pig whose life ends, in the
/// pigs' order, each with the balance that it left.
pub open spec fn sales(pigs: Seq<PigEntityView>, delta: nat, balance: int) -> Seq<Sale> {
    let gone = sold(pigs, delta);
    Seq::new(
        gone.len(),
        |k: int| (Sale { id: gone[k].id, balance: credited(balance, (k + 1) as nat) as u64 }),
    )
}

/// The farm as a mathematical value.
#[verifier::ext_equal]
pub struct WorldView {
    /// The balance of the purse, in cents.
    pub balance: int,
    /// The player, if there is one.
    pub player: Option<Player>,
    /// The identifier of the parent of the pigs, if it has been made.
    pub parent: Option<u64>,
    /// The identifiers of the children of that parent.
    pub children: Set<u64>,
    /// The pigs, oldest first.
    pub pigs: Seq<PigEntityView>,
    /// The identifier that the next entity gets.
    pub next_id: nat,
}

impl WorldView {
    /// What holds of every farm: the balance is in range, no two pigs share an
    /// identifier, every pig is alive and is a child of the parent, and the
    /// parent has no other children.
    pub open spec fn wf(self) -> bool {
        &&& 0 <= self.balance <= MONEY_CAP
        &&& self.next_id <= u64::MAX
        &&& pig_ids(self.pigs).no_duplicates()
        &&& forall|k: int|
            0 <= k < self.pigs.len() ==> (#[trigger] self.pigs[k]).pig.wf() && self.pigs[k].id
                < self.next_id
        &&& self.children == pig_ids(self.pigs).to_set()
        &&& match self.parent {
            Some(id) => id < self.next_id && !self.children.contains(id),
            None => self.pigs.len() == 0,
        }
    }

    /// A farm with `balance` in the purse and nothing else.
    pub open spec fn empty(balance: int) -> WorldView {
        WorldView {
            balance,
            player: None,
            parent: None,
            children: Set::empty(),
            pigs: Seq::empty(),
            next_id: 0,
        }
    }

    /// Whether a pig with identifier `id` is on the farm.
    pub open spec fn has_pig(self, id: u64) -> bool {
        pig_ids(self.pigs).contains(id)
    }

    /// The farm once the parent of the pigs has been made.
    pub open spec fn with_parent(self) -> WorldView {
        WorldView {
            parent: Some(self.next_id as u64),
            next_id: self.next_id + 1,
            ..self
        }
    }

    /// The farm after the player walked for `delta` in the direction of the
    /// keys held.
    pub open spec fn after_walk(self, direction: Option<Direction>, delta: nat) -> WorldView {
        WorldView {
            player: match self.player {
                Some(p) => Some(p.walked(direction, delta)),
                None => None,
            },
            ..self
        }
    }

    /// What comes of a frame's command to buy a pig. Nothing is asked of the
    /// farm without the command. With it, the player and the parent must be
    /// there; then the purse decides, and last the identifiers.
    pub open spec fn spawn_result(self, command: bool) -> Result<SpawnOutcome, WorldError> {
        if !command {
            Ok(SpawnOutcome::NoCommand)
        } else if self.player is None {
            Err(WorldError::MissingPlayer)
        } else if self.parent is None {
            Err(WorldError::MissingParent)
        } else if self.balance < PIG_PRICE {
            Ok(SpawnOutcome::InsufficientFunds { balance: self.balance as u64 })
        } else if self.next_id >= u64::MAX {
            Err(WorldError::OutOfIds)
        } else {
            Ok(
                SpawnOutcome::Bought {
                    id: self.next_id as u64,
                    position: self.player->0.position,
                    balance: (self.balance - PIG_PRICE) as u64,
                },
            )
        }
    }

    /// The farm after a frame's command to buy a pig: one pig more, at the
    /// player's place and attached to the parent, for the price of a pig; or
    /// the farm as it was, where no pig was bought.
    pub open spec fn after_spawn(self, command: bool) -> WorldView {
        match self.spawn_result(command) {
            Ok(SpawnOutcome::Bought { id, position, balance }) => WorldView {
                balance: self.balance - PIG_PRICE,
                pigs: self.pigs.push(PigEntityView::fresh(id, position)),
                children: self.children.insert(id),
                next_id: self.next_id + 1,
                ..self
            },
            _ => self,
        }
    }

    /// `after` is this farm after `delta` of wandering of its `count` oldest
    /// pigs: each of them has waited, and has taken a step of at most
    /// `PIG_MAX_STEP` along each axis if one was due. Nothing else has
    /// changed.
    pub open spec fn may_move_oldest_to(self, count: nat, after: WorldView, delta: nat) -> bool {
        &&& after.balance == self.balance
        &&& after.player == self.player
        &&& after.parent == self.parent
        &&& after.children == self.children
        &&& after.next_id == self.next_id
        &&& after.pigs.len() == self.pigs.len()
        &&& forall|k: int|
            0 <= k < self.pigs.len() ==> if k < count {
                self.pigs[k].may_wander_to(#[trigger] after.pigs[k], delta)
            } else {
                after.pigs[k] == self.pigs[k]
            }
    }

    /// `after` is this farm after `delta` of wandering of all its pigs.
    pub open spec fn may_move_to(self, after: WorldView, delta: nat) -> bool {
        self.may_move_oldest_to(self.pigs.len(), after, delta)
    }

    /// The farm without the pig at `index`: the pig is gone from the farm and
    /// from the children of the parent.
    pub open spec fn after_despawn(self, index: int) -> WorldView {
        WorldView {
            pigs: self.pigs.remove(index),
            children: self.children.remove(self.pigs[index].id),
            ..self
        }
    }

    /// The farm after `delta` of the lives of its `count` oldest pigs: each of
    /// them whose life ended is sold and gone, from the farm and from the
    /// children of the parent, and the others of them are older by `delta`.
    /// The younger pigs are as they were.
    pub open spec fn after_lifetime_of(self, count: nat, delta: nat) -> WorldView {
        let pigs = survivors(self.pigs.take(count as int), delta) + self.pigs.skip(count as int);
        WorldView {
            balance: credited(self.balance, sold(self.pigs.take(count as int), delta).len()),
            pigs,
            children: pig_ids(pigs).to_set(),
            ..self
        }
    }

    /// The farm after `delta` of the lives of all its pigs: every pig whose
    /// life ended is sold and gone, from the farm and from the children of
    /// the parent, and the others are older by `delta`.
    pub open spec fn after_lifetime(self, delta: nat) -> WorldView {
        WorldView {
            balance: credited(self.balance, sold(self.pigs, delta).len()),
            pigs: survivors(self.pigs, delta),
            children: pig_ids(survivors(self.pigs, delta)).to_set(),
            ..self
        }
    }
}

/// The view of a pig, as a function on pigs.
pub open spec fn viewing() -> spec_fn(PigEntity) -> PigEntityView {
    |p: PigEntity| p@
}

/// The farm.
pub struct World {
    money: Money,
    player: Option<Player>,
    parent: Option<PigParent>,
    pigs: Vec<PigEntity>,
    next_id: u64,
}

impl View for World {
    type V = WorldView;

    closed spec fn view(&self) -> WorldView {
        WorldView {
            balance: self.money@,
            player: self.player,
            parent: match self.parent {
                Some(p) => Some(p@.id),
                None => None,
            },
            children: match self.parent {
                Some(p) => p@.children,
                None => Set::empty(),
            },
            pigs: self.pigs@.map_values(viewing()),
            next_id: self.next_id as nat,
        }
    }
}

impl World {
    /// What holds of every farm, see `WorldView::wf`.
    pub closed spec fn wf(&self) -> bool {
        &&& self@.wf()
        &&& self.parent matches Some(p) ==> p.wf()
    }

    /// A farm that is well formed is so as a mathematical value: what
    /// `WorldView::wf` says holds of it.
    pub proof fn lemma_wf_of_view(&self)
        requires
            self.wf(),
        ensures
            self@.wf(),
    {
    }

    /// A farm with `cents` in the purse and nothing else: no player, no
    /// parent, no pig.
    pub fn new(cents: u64) -> (w: World)
        ensures
            w.wf(),
            w@ == WorldView::empty(cents as int),
    {
        let w = World {
            money: Money::new(cents),
            player: None,
            parent: None,
            pigs: Vec::new(),
            next_id: 0,
        };
        assert(w@.pigs =~= Seq::empty());
        assert(pig_ids(w@.pigs) =~= Seq::empty());
        assert(pig_ids(w@.pigs).to_set() =~= Set::empty());
        assert(w@ =~= WorldView::empty(cents as int));
        w
    }

    /// The balance of the purse, in cents.
    pub fn balance(&self) -> (cents: u64)
        ensures
            cents == self@.balance,
    {
        self.money.balance()
    }

    /// The player, if there is one.
    pub fn player(&self) -> (p: Option<Player>)
        ensures
            p == self@.player,
    {
        self.player
    }

    /// The identifier of the parent of the pigs, if it has been made.
    pub fn parent_id(&self) -> (id: Option<u64>)
        ensures
            id == self@.parent,
    {
        match &self.parent {
            Some(p) => Some(p.id()),
            None => None,
        }
    }

    /// Whether `id` is a child of the parent of the pigs.
    pub fn is_child(&self, id: u64) -> (yes: bool)
        ensures
            yes == self@.children.contains(id),
    {
        match &self.parent {
            Some(p) => p.has_child(id),
            None => false,
        }
    }

    /// The number of pigs on the farm.
    pub fn pig_count(&self) -> (n: usize)
        ensures
            n == self@.pigs.len(),
    {
        self.pigs.len()
    }

    /// The pig at `index`, counted from the oldest, if there are that many.
    pub fn pig(&self, index: usize) -> (p: Option<PigEntity>)
        ensures
            match p {
                Some(e) => index < self@.pigs.len() && e@ == self@.pigs[index as int],
                None => index >= self@.pigs.len(),
            },
    {
        if index < self.pigs.len() {
            Some(self.pigs[index])
        } else {
            None
        }
    }

    /// The pig with identifier `id`, if it is on the farm.
    pub fn pig_by_id(&self, id: u64) -> (p: Option<PigEntity>)
        ensures
            match p {
                Some(e) => e.id == id && self@.pigs.contains(e@),
                None => !self@.has_pig(id),
            },
    {
        let mut i: usize = 0;
        while i < self.pigs.len()
            invariant
                i <= self.pigs.len(),
                forall|k: int| 0 <= k < i ==> self@.pigs[k].id != id,
            decreases self.pigs.len() - i,
        {
            if self.pigs[i].id == id {
                assert(self@.pigs[i as int] == self.pigs[i as int]@);
                return Some(self.pigs[i]);
            }
            i = i + 1;
        }
        assert(!pig_ids(self@.pigs).contains(id)) by {
            if pig_ids(self@.pigs).contains(id) {
                let k = choose|k: int| 0 <= k < self@.pigs.len() && pig_ids(self@.pigs)[k] == id;
                assert(self@.pigs[k].id != id);
            }
        }
        None
    }

    /// Puts `player` on the farm, in the place of the player that was there,
    /// who is handed back.
    pub fn set_player(&mut self, player: Player) -> (before: Option<Player>)
        requires
            old(self).wf(),
        ensures
            final(self).wf(),
            before == old(self)@.player,
            final(self)@ == (WorldView { player: Some(player), ..old(self)@ }),
    {
        let before = self.player;
        self.player = Some(player);
        assert(self@ =~= (WorldView { player: Some(player), ..old(self)@ }));
        before
    }

    /// Makes the parent of the pigs and hands back its identifier. It is made
    /// once: a second call fails with `ParentExists`, and a farm that has no
    /// identifier left fails with `OutOfIds`; either way nothing changes.
    pub fn spawn_pig_parent(&mut self) -> (r: Result<u64, WorldError>)
        requires
            old(self).wf(),
        ensures
            final(self).wf(),
            match r {
                Ok(id) => {
                    &&& old(self)@.parent is None
                    &&& old(self)@.next_id < u64::MAX
                    &&& id == old(self)@.next_id
                    &&& final(self)@ == old(self)@.with_parent()
                },
                Err(e) => {
                    &&& final(self)@ == old(self)@
                    &&& e == if old(self)@.parent is Some {
                        WorldError::ParentExists
                    } else {
                        WorldError::OutOfIds
                    }
                    &&& old(self)@.parent is Some || old(self)@.next_id >= u64::MAX
                },
            },
    {
        if self.parent.is_some() {
            return Err(WorldError::ParentExists);
        }
        if self.next_id == u64::MAX {
            return Err(WorldError::OutOfIds);
        }
        let id: u64 = self.next_id;
        self.parent = Some(PigParent::new(id));
        self.next_id = id + 1;
        assert(self@ =~= old(self)@.with_parent());
        Ok(id)
    }

    /// Lets the player walk for `delta` nanoseconds in the direction of the
    /// keys held; of several keys one counts, see `Direction::chosen`. A farm
    /// without a player stays as it is.
    pub fn character_movement(&mut self, up: bool, down: bool, right: bool, left: bool, delta: u64)
        requires
            old(self).wf(),
        ensures
            final(self).wf(),
            final(self)@ == old(self)@.after_walk(
                Direction::chosen(up, down, right, left),
                delta as nat,
            ),
    {
        let direction = Direction::from_keys(up, down, right, left);
        match self.player {
            Some(mut p) => {
                p.walk(direction, delta);
                self.player = Some(p);
            },
            None => {},
        }
        assert(self@ =~= old(self)@.after_walk(direction, delta as nat));
    }

    /// Carries out a frame's command to buy a pig. With `command` false it
    /// does nothing. With `command` true it needs the player and the parent,
    /// and fails without either; then it takes the price of a pig from the
    /// purse and puts a pig at the player's place, attached to the parent. A
    /// purse that does not cover the price stays as it is, and no pig comes.
    pub fn spawn_pig(&mut self, command: bool) -> (r: Result<SpawnOutcome, WorldError>)
        requires
            old(self).wf(),
        ensures
            final(self).wf(),
            r == old(self)@.spawn_result(command),
            final(self)@ == old(self)@.after_spawn(command),
    {
        if !command {
            return Ok(SpawnOutcome::NoCommand);
        }
        let position = match self.player {
            Some(p) => p.position,
            None => {
                return Err(WorldError::MissingPlayer);
            },
        };
        if self.parent.is_none() {
            return Err(WorldError::MissingParent);
        }
        if !self.money.can_afford(PIG_PRICE) {
            return Ok(SpawnOutcome::InsufficientFunds { balance: self.money.balance() });
        }
        if self.next_id == u64::MAX {
            return Err(WorldError::OutOfIds);
        }
        let id: u64 = self.next_id;
        let ghost ids = pig_ids(self@.pigs);
        self.money.try_spend(PIG_PRICE);
        self.next_id = id + 1;
        self.pigs.push(PigEntity::new(id, position));
        let mut parent = self.parent.take().unwrap();
        parent.attach(id);
        self.parent = Some(parent);
        proof {
            let after = old(self)@.after_spawn(command);
            assert(self@.pigs =~= old(self)@.pigs.push(PigEntityView::fresh(id, position)));
            assert(pig_ids(self@.pigs) =~= ids.push(id));
            assert(!ids.contains(id)) by {
                if ids.contains(id) {
                    let k = choose|k: int| 0 <= k < ids.len() && ids[k] == id;
                    assert(old(self)@.pigs[k].id == id);
                }
            }
            assert(ids.push(id).no_duplicates());
            ids.lemma_push_to_set_commute(id);
            assert(self@ =~= after);
        }
        Ok(SpawnOutcome::Bought { id, position, balance: self.money.balance() })
    }

    /// Puts `pig` in the place of the pig at `index`, which has the same
    /// identifier.
    fn put(&mut self, index: usize, pig: PigEntity)
        requires
            old(self).wf(),
            index < old(self).pigs.len(),
            pig.id == old(self).pigs[index as int].id,
            pig@.pig.wf(),
        ensures
            final(self).wf(),
            final(self).pigs.len() == old(self).pigs.len(),
            final(self)@ == (WorldView {
                pigs: old(self)@.pigs.update(index as int, pig@),
                ..old(self)@
            }),
    {
        self.pigs.set(index, pig);
        proof {
            assert(self@.pigs =~= old(self)@.pigs.update(index as int, pig@));
            assert(pig_ids(self@.pigs) =~= pig_ids(old(self)@.pigs));
            assert forall|k: int| 0 <= k < self@.pigs.len() implies (#[trigger] self@.pigs[k]).pig.wf()
                && self@.pigs[k].id < self@.next_id by {
                assert(old(self)@.pigs[k].pig.wf() && old(self)@.pigs[k].id < self@.next_id);
            }
            assert(self@ =~= (WorldView {
                pigs: old(self)@.pigs.update(index as int, pig@),
                ..old(self)@
            }));
        }
    }

    /// Takes the pig at `index` off the farm and out of the children of the
    /// parent, and hands it back. With no pig at `index` nothing changes.
    fn despawn(&mut self, index: usize) -> (gone: Option<PigEntity>)
        requires
            old(self).wf(),
        ensures
            final(self).wf(),
            match gone {
                Some(e) => {
                    &&& index < old(self)@.pigs.len()
                    &&& e@ == old(self)@.pigs[index as int]
                    &&& final(self)@ == old(self)@.after_despawn(index as int)
                },
                None => index >= old(self)@.pigs.len() && final(self)@ == old(self)@,
            },
    {
        if index >= self.pigs.len() {
            return None;
        }
        let ghost ids = pig_ids(self@.pigs);
        let pig: PigEntity = self.pigs.remove(index);
        let mut parent = self.parent.take().unwrap();
        parent.detach(pig.id);
        self.parent = Some(parent);
        proof {
            assert(self@.pigs =~= old(self)@.pigs.remove(index as int));
            assert(pig_ids(self@.pigs) =~= ids.remove(index as int));
            lemma_remove_from_unique(ids, index as int);
            assert(ids[index as int] == pig.id);
            assert(self@ =~= old(self)@.after_despawn(index as int));
        }
        Some(pig)
    }

    /// Lets `delta` nanoseconds of wandering pass for every pig. A pig whose
    /// step is due moves by an offset drawn for it along each axis, of at most
    /// `PIG_MAX_STEP` either way, and begins the wait for its next step; the
    /// others only wait. The purse and the set of pigs stay as they are.
    pub fn pig_random_movement(&mut self, delta: u64)
        requires
            old(self).wf(),
        ensures
            final(self).wf(),
            old(self)@.may_move_to(final(self)@, delta as nat),
    {
        let count = self.pigs.len();
        self.wander_oldest(count, delta);
    }

    /// Lets `delta` nanoseconds of wandering pass for the `count` oldest pigs,
    /// as `pig_random_movement` does for all; the younger pigs are not
    /// touched.
    pub(crate) fn wander_oldest(&mut self, count: usize, delta: u64)
        requires
            old(self).wf(),
            count <= old(self)@.pigs.len(),
        ensures
            final(self).wf(),
            old(self)@.may_move_oldest_to(count as nat, final(self)@, delta as nat),
    {
        let ghost before = self@;
        let mut i: usize = 0;
        while i < count
            invariant
                self.wf(),
                before.wf(),
                i <= count <= self.pigs.len(),
                self@.pigs.len() == before.pigs.len(),
                self@.balance == before.balance,
                self@.player == before.player,
                self@.parent == before.parent,
                self@.children == before.children,
                self@.next_id == before.next_id,
                forall|k: int|
                    0 <= k < i ==> before.pigs[k].may_wander_to(
                        #[trigger] self@.pigs[k],
                        delta as nat,
                    ),
                forall|k: int| i <= k < self.pigs.len() ==> self@.pigs[k] == before.pigs[k],
            decreases count - i,
        {
            let ghost now = self@;
            let mut pig: PigEntity = self.pigs[i];
            assert(pig@ == before.pigs[i as int]);
            let due = pig.step_due(delta);
            let step: (i64, i64) = if due {
                random_step()
            } else {
                (0, 0)
            };
            pig.wander(delta, step.0, step.1);
            proof {
                lemma_wandered_stays_wf(
                    before.pigs[i as int],
                    delta as nat,
                    step.0 as int,
                    step.1 as int,
                );
                assert(pig@ == before.pigs[i as int].wandered(
                    delta as nat,
                    step.0 as int,
                    step.1 as int,
                ));
                assert(before.pigs[i as int].may_wander_to(pig@, delta as nat));
            }
            self.put(i, pig);
            proof {
                assert forall|k: int| 0 <= k < i + 1 implies before.pigs[k].may_wander_to(
                    #[trigger] self@.pigs[k],
                    delta as nat,
                ) by {
                    if k < i {
                        assert(self@.pigs[k] == now.pigs[k]);
                    }
                }
            }
            i = i + 1;
        }
    }

    /// Lets `delta` nanoseconds of every pig's life pass. Each pig whose life
    /// is over is sold for `PIG_SALE`, taken out of the children of the parent
    /// and off the farm; the sales are handed back in the pigs' order. The
    /// other pigs are older by `delta`. Without the parent nothing is done.
    pub fn pig_lifetime(&mut self, delta: u64) -> (r: Result<Vec<Sale>, WorldError>)
        requires
            old(self).wf(),
        ensures
            final(self).wf(),
            match r {
                Ok(s) => {
                    &&& old(self)@.parent is Some
                    &&& final(self)@ == old(self)@.after_lifetime(delta as nat)
                    &&& s@ == sales(old(self)@.pigs, delta as nat, old(self)@.balance)
                },
                Err(e) => {
                    &&& e == WorldError::MissingParent
                    &&& old(self)@.parent is None
                    &&& final(self)@ == old(self)@
                },
            },
    {
        let count = self.pigs.len();
        let r = self.age_oldest(count, delta);
        proof {
            let pigs = old(self)@.pigs;
            assert(pigs.take(pigs.len() as int) =~= pigs);
            assert(pigs.skip(pigs.len() as int) =~= Seq::empty());
            if r is Ok {
                assert(self@.pigs =~= survivors(pigs, delta as nat));
                assert(self@ =~= old(self)@.after_lifetime(delta as nat));
            }
        }
        r
    }

    /// Lets `delta` nanoseconds of life pass for the `count` oldest pigs, as
    /// `pig_lifetime` does for all; the younger pigs are not touched.
    pub(crate) fn age_oldest(&mut self, count: usize, delta: u64) -> (r: Result<Vec<Sale>, WorldError>)
        requires
            old(self).wf(),
            count <= old(self)@.pigs.len(),
        ensures
            final(self).wf(),
            match r {
                Ok(s) => {
                    &&& old(self)@.parent is Some
                    &&& final(self)@ == old(self)@.after_lifetime_of(count as nat, delta as nat)
                    &&& s@ == sales(
                        old(self)@.pigs.take(count as int),
                        delta as nat,
                        old(self)@.balance,
                    )
                },
                Err(e) => {
                    &&& e == WorldError::MissingParent
                    &&& old(self)@.parent is None
                    &&& final(self)@ == old(self)@
                },
            },
    {
        if self.parent.is_none() {
            return Err(WorldError::MissingParent);
        }
        let ghost before = self@;
        let ghost d = delta as nat;
        let mut out: Vec<Sale> = Vec::new();
        let mut i: usize = 0;
        let mut seen: usize = 0;
        proof {
            assert(before.pigs.take(0) =~= Seq::empty());
            assert(survivors(before.pigs.take(0), d) =~= Seq::empty());
            assert(sold(before.pigs.take(0), d) =~= Seq::empty());
            assert(before.pigs.skip(0) =~= before.pigs);
            assert(out@ =~= sales(before.pigs.take(0), d, before.balance));
        }
        while seen < count
            invariant
                self.wf(),
                before.wf(),
                d == delta as nat,
                seen <= count <= before.pigs.len(),
                i <= self.pigs.len(),
                i == survivors(before.pigs.take(seen as int), d).len(),
                self@.pigs =~= survivors(before.pigs.take(seen as int), d) + before.pigs.skip(
                    seen as int,
                ),
                self@.balance == credited(
                    before.balance,
                    sold(before.pigs.take(seen as int), d).len(),
                ),
                out@ =~= sales(before.pigs.take(seen as int), d, before.balance),
                self@.player == before.player,
                self@.parent == before.parent,
                self@.next_id == before.next_id,
            decreases count - seen,
        {
            let ghost kept = survivors(before.pigs.take(seen as int), d);
            assert(self@.pigs[i as int] == before.pigs.skip(seen as int)[0]);
            let mut pig: PigEntity = self.pigs[i];
            assert(pig@ == before.pigs[seen as int]);
            let expired = pig.age(delta);
            proof {
                lemma_lifetime_step(before.pigs, seen as int, d, before.balance);
            }
            if expired {
                self.despawn(i);
                self.money.credit(PIG_SALE);
                out.push(Sale { id: pig.id, balance: self.money.balance() });
                assert(self@.pigs =~= kept + before.pigs.skip(seen + 1));
            } else {
                self.put(i, pig);
                i = i + 1;
                assert(self@.pigs =~= kept.push(pig@) + before.pigs.skip(seen + 1));
            }
            seen = seen + 1;
        }
        proof {
            assert(self@ =~= before.after_lifetime_of(count as nat, d));
        }
        Ok(out)
    }
}

/// How the survivors, the pigs sold and the sales grow when one more pig is
/// looked at.
pub proof fn lemma_lifetime_step(pigs: Seq<PigEntityView>, done: int, delta: nat, balance: int)
    requires
        0 <= done < pigs.len(),
    ensures
        survivors(pigs.take(done + 1), delta) == if pigs[done].expires_within(delta) {
            survivors(pigs.take(done), delta)
        } else {
            survivors(pigs.take(done), delta).push(pigs[done].aged(delta))
        },
        sold(pigs.take(done + 1), delta) == if pigs[done].expires_within(delta) {
            sold(pigs.take(done), delta).push(pigs[done])
        } else {
            sold(pigs.take(done), delta)
        },
        sales(pigs.take(done + 1), delta, balance) == if pigs[done].expires_within(delta) {
            sales(pigs.take(done), delta, balance).push(
                Sale {
                    id: pigs[done].id,
                    balance: credited(
                        balance,
                        (sold(pigs.take(done), delta).len() + 1) as nat,
                    ) as u64,
                },
            )
        } else {
            sales(pigs.take(done), delta, balance)
        },
{
    let head = pigs.take(done);
    let p = pigs[done];
    assert(pigs.take(done + 1) =~= head.push(p));
    head.lemma_push_map_commute(aging(delta), p);
    head.map_values(aging(delta)).lemma_filter_push(p.aged(delta), alive());
    head.lemma_filter_push(p, expiring(delta));
    if p.expires_within(delta) {
        assert(sales(head.push(p), delta, balance) =~= sales(head, delta, balance).push(
            Sale {
                id: p.id,
                balance: credited(balance, (sold(head, delta).len() + 1) as nat) as u64,
            },
        ));
    }
}

} // verus!
