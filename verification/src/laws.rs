//! What holds of the sale of pigs, whatever the farm and whatever the time
//! that passes.

use crate::money::{MONEY_CAP, PIG_SALE};
use crate::pig::PigEntityView;
use crate::plugin::may_step_to;
use crate::world::{
    aging, alive, credited, expiring, lemma_lifetime_step, pig_ids, sold, survivors, Sale,
    SpawnOutcome, WorldView,
};
use vstd::prelude::*;

verus! {

/// The survivors are the pigs whose life does not end, each aged: nothing
/// else is among them, and none of those is missing.
pub proof fn lemma_survivors_are_the_living(pigs: Seq<PigEntityView>, delta: nat, x: PigEntityView)
    ensures
        survivors(pigs, delta).contains(x) <==> exists|i: int|
            0 <= i < pigs.len() && !pigs[i].expires_within(delta) && x == (#[trigger] pigs[i]).aged(
                delta,
            ),
{
    let aged = pigs.map_values(aging(delta));
    if survivors(pigs, delta).contains(x) {
        aged.lemma_filter_contains_rev(alive(), x);
        let i = choose|i: int| 0 <= i < aged.len() && aged[i] == x;
        let j = choose|j: int| 0 <= j < aged.filter(alive()).len() && aged.filter(alive())[j] == x;
        aged.lemma_filter_pred(alive(), j);
        assert(x == pigs[i].aged(delta));
    }
    if exists|i: int|
        0 <= i < pigs.len() && !pigs[i].expires_within(delta) && x == (#[trigger] pigs[i]).aged(
            delta,
        ) {
        let i = choose|i: int|
            0 <= i < pigs.len() && !pigs[i].expires_within(delta) && x == (#[trigger] pigs[i]).aged(
                delta,
            );
        assert(aged[i] == x);
        aged.lemma_filter_contains(alive(), i);
    }
}

/// A pig whose life ends is sold and gone: no pig of the farm has its
/// identifier afterwards, and the parent has no such child. Each pig sold
/// brings `PIG_SALE`, exactly, as long as the purse is not full.
pub proof fn lemma_expired_pig_is_gone(w: WorldView, delta: nat, k: int)
    requires
        w.wf(),
        0 <= k < w.pigs.len(),
        w.pigs[k].expires_within(delta),
    ensures
        !w.after_lifetime(delta).has_pig(w.pigs[k].id),
        !w.after_lifetime(delta).children.contains(w.pigs[k].id),
        sold(w.pigs, delta).contains(w.pigs[k]),
        sold(w.pigs, delta).len() >= 1,
        w.balance + sold(w.pigs, delta).len() * PIG_SALE <= MONEY_CAP ==> w.after_lifetime(
            delta,
        ).balance == w.balance + sold(w.pigs, delta).len() * PIG_SALE,
{
    let after = w.after_lifetime(delta);
    let id = w.pigs[k].id;
    if after.has_pig(id) {
        let j = choose|j: int| 0 <= j < after.pigs.len() && pig_ids(after.pigs)[j] == id;
        assert(after.pigs.contains(after.pigs[j]));
        lemma_survivors_are_the_living(w.pigs, delta, after.pigs[j]);
        let i = choose|i: int|
            0 <= i < w.pigs.len() && !w.pigs[i].expires_within(delta) && after.pigs[j] == (
            #[trigger] w.pigs[i]).aged(delta);
        assert(pig_ids(w.pigs)[i] == pig_ids(w.pigs)[k]);
    }
    w.pigs.lemma_filter_contains(expiring(delta), k);
}

/// A pig whose life does not end stays: it is on the farm afterwards, older
/// by the time that passed and otherwise as it was, and it is still a child
/// of the parent.
pub proof fn lemma_living_pig_stays(w: WorldView, delta: nat, k: int)
    requires
        w.wf(),
        0 <= k < w.pigs.len(),
        !w.pigs[k].expires_within(delta),
    ensures
        w.after_lifetime(delta).pigs.contains(w.pigs[k].aged(delta)),
        w.after_lifetime(delta).has_pig(w.pigs[k].id),
        w.after_lifetime(delta).children.contains(w.pigs[k].id),
        !sold(w.pigs, delta).contains(w.pigs[k]),
{
    let after = w.after_lifetime(delta);
    lemma_survivors_are_the_living(w.pigs, delta, w.pigs[k].aged(delta));
    let j = choose|j: int| 0 <= j < after.pigs.len() && after.pigs[j] == w.pigs[k].aged(delta);
    assert(pig_ids(after.pigs)[j] == w.pigs[k].id);
    if sold(w.pigs, delta).contains(w.pigs[k]) {
        let i = choose|i: int|
            0 <= i < sold(w.pigs, delta).len() && sold(w.pigs, delta)[i] == w.pigs[k];
        w.pigs.lemma_filter_pred(expiring(delta), i);
    }
}

/// The balance after a sale of pigs is the balance before it and `PIG_SALE`
/// for each pig sold, up to the cap of the purse.
pub proof fn lemma_sale_pays_for_each_pig(balance: int, n: nat)
    requires
        0 <= balance <= MONEY_CAP,
    ensures
        balance <= credited(balance, n) <= MONEY_CAP,
        balance + n * PIG_SALE <= MONEY_CAP ==> credited(balance, n) == balance + n * 1_500,
        credited(balance, 0) == balance,
        credited(balance, 1) == crate::money::after_credit(balance, PIG_SALE as int),
        credited(balance, n + 1) == crate::money::after_credit(
            credited(balance, n),
            PIG_SALE as int,
        ),
{
}

/// Among the survivors of pigs that differ in their identifiers no two share
/// an identifier.
proof fn lemma_survivors_are_unique(pigs: Seq<PigEntityView>, delta: nat, n: int)
    requires
        pig_ids(pigs).no_duplicates(),
        0 <= n <= pigs.len(),
    ensures
        pig_ids(survivors(pigs.take(n), delta)).no_duplicates(),
    decreases n,
{
    if n == 0 {
        assert(pigs.take(0) =~= Seq::empty());
        assert(survivors(pigs.take(0), delta) =~= Seq::empty());
    } else {
        let head = pigs.take(n - 1);
        let kept = survivors(head, delta);
        let q = pigs[n - 1].aged(delta);
        lemma_survivors_are_unique(pigs, delta, n - 1);
        lemma_lifetime_step(pigs, n - 1, delta, 0);
        if !pigs[n - 1].expires_within(delta) {
            assert(pig_ids(kept.push(q)) =~= pig_ids(kept).push(q.id));
            if pig_ids(kept).contains(q.id) {
                let j = choose|j: int| 0 <= j < kept.len() && pig_ids(kept)[j] == q.id;
                assert(kept.contains(kept[j]));
                lemma_survivors_are_the_living(head, delta, kept[j]);
                let i = choose|i: int|
                    0 <= i < head.len() && !head[i].expires_within(delta) && kept[j] == (
                    #[trigger] head[i]).aged(delta);
                assert(pig_ids(pigs)[i] == pig_ids(pigs)[n - 1]);
            }
        }
    }
}

/// The sale of pigs leaves a farm a farm: afterwards every pig on it is
/// alive, no two share an identifier, and the children of the parent are the
/// pigs that are left. No pig whose life is over is ever left on the farm.
pub proof fn lemma_lifetime_keeps_farm_wf(w: WorldView, delta: nat)
    requires
        w.wf(),
    ensures
        w.after_lifetime(delta).wf(),
        forall|j: int|
            0 <= j < w.after_lifetime(delta).pigs.len() ==> !(#[trigger] w.after_lifetime(
                delta,
            ).pigs[j]).expired(),
        w.after_lifetime(delta).pigs.len() + sold(w.pigs, delta).len() == w.pigs.len(),
{
    let after = w.after_lifetime(delta);
    lemma_survivors_are_unique(w.pigs, delta, w.pigs.len() as int);
    assert(w.pigs.take(w.pigs.len() as int) =~= w.pigs);
    assert forall|j: int| 0 <= j < after.pigs.len() implies (#[trigger] after.pigs[j]).pig.wf()
        && after.pigs[j].id < after.next_id && !after.pigs[j].expired() && w.children.contains(
        after.pigs[j].id,
    ) by {
        assert(after.pigs.contains(after.pigs[j]));
        lemma_survivors_are_the_living(w.pigs, delta, after.pigs[j]);
        let i = choose|i: int|
            0 <= i < w.pigs.len() && !w.pigs[i].expires_within(delta) && after.pigs[j] == (
            #[trigger] w.pigs[i]).aged(delta);
        assert(pig_ids(w.pigs)[i] == after.pigs[j].id);
    }
    if w.parent is Some && after.children.contains(w.parent->0) {
        let j = choose|j: int|
            0 <= j < after.pigs.len() && pig_ids(after.pigs)[j] == w.parent->0;
        assert(w.children.contains(after.pigs[j].id));
    }
    w.pigs.lemma_filter_len(expiring(delta));
    lemma_counts_add_up(w.pigs, delta, w.pigs.len() as int);
}

/// Every pig is either sold or left.
proof fn lemma_counts_add_up(pigs: Seq<PigEntityView>, delta: nat, n: int)
    requires
        0 <= n <= pigs.len(),
    ensures
        survivors(pigs.take(n), delta).len() + sold(pigs.take(n), delta).len() == n,
    decreases n,
{
    if n == 0 {
        assert(pigs.take(0) =~= Seq::empty());
        assert(survivors(pigs.take(0), delta) =~= Seq::empty());
        assert(sold(pigs.take(0), delta) =~= Seq::empty());
    } else {
        lemma_counts_add_up(pigs, delta, n - 1);
        lemma_lifetime_step(pigs, n - 1, delta, 0);
    }
}

/// Filtering a sequence and then forgetting the order gives what forgetting
/// the order and then filtering gives.
proof fn lemma_filter_forgets_order(s: Seq<PigEntityView>, p: spec_fn(PigEntityView) -> bool)
    ensures
        s.filter(p).to_multiset() == s.to_multiset().filter(p),
    decreases s.len(),
{
    broadcast use vstd::multiset::group_multiset_axioms;

    if s.len() == 0 {
        assert(s.filter(p) =~= Seq::empty());
        s.to_multiset_ensures();
        s.filter(p).to_multiset_ensures();
        assert(s.to_multiset().len() == 0);
        assert(s.filter(p).to_multiset().len() == 0);
        assert(s.to_multiset() =~= vstd::multiset::Multiset::empty());
        assert(s.filter(p).to_multiset() =~= s.to_multiset().filter(p));
    } else {
        let rest = s.drop_last();
        let a = s.last();
        assert(s =~= rest.push(a));
        lemma_filter_forgets_order(rest, p);
        rest.lemma_filter_push(a, p);
        vstd::seq_lib::to_multiset_build(rest, a);
        if p(a) {
            vstd::seq_lib::to_multiset_build(rest.filter(p), a);
        }
        assert(s.filter(p).to_multiset() =~= s.to_multiset().filter(p));
    }
}

/// The order in which the pigs are looked at makes no difference to a sale:
/// two farms with the same purse and the same pigs, in whatever order, sell
/// the same pigs for the same money, keep the same pigs, and leave the parent
/// the same children.
pub proof fn lemma_sale_does_not_depend_on_order(a: WorldView, b: WorldView, delta: nat)
    requires
        a.balance == b.balance,
        a.pigs.to_multiset() == b.pigs.to_multiset(),
    ensures
        sold(a.pigs, delta).to_multiset() == sold(b.pigs, delta).to_multiset(),
        sold(a.pigs, delta).len() == sold(b.pigs, delta).len(),
        a.after_lifetime(delta).balance == b.after_lifetime(delta).balance,
        a.after_lifetime(delta).pigs.len() == b.after_lifetime(delta).pigs.len(),
        a.after_lifetime(delta).pigs.to_set() == b.after_lifetime(delta).pigs.to_set(),
        a.after_lifetime(delta).children == b.after_lifetime(delta).children,
{
    lemma_filter_forgets_order(a.pigs, expiring(delta));
    lemma_filter_forgets_order(b.pigs, expiring(delta));
    sold(a.pigs, delta).to_multiset_ensures();
    sold(b.pigs, delta).to_multiset_ensures();
    a.pigs.to_multiset_ensures();
    b.pigs.to_multiset_ensures();
    lemma_counts_add_up(a.pigs, delta, a.pigs.len() as int);
    lemma_counts_add_up(b.pigs, delta, b.pigs.len() as int);
    assert(a.pigs.take(a.pigs.len() as int) =~= a.pigs);
    assert(b.pigs.take(b.pigs.len() as int) =~= b.pigs);
    let left_a = survivors(a.pigs, delta);
    let left_b = survivors(b.pigs, delta);
    assert forall|x: PigEntityView| left_a.contains(x) <==> left_b.contains(x) by {
        lemma_survivors_are_the_living(a.pigs, delta, x);
        lemma_survivors_are_the_living(b.pigs, delta, x);
        if left_a.contains(x) {
            let i = choose|i: int|
                0 <= i < a.pigs.len() && !a.pigs[i].expires_within(delta) && x == (
                #[trigger] a.pigs[i]).aged(delta);
            assert(a.pigs.contains(a.pigs[i]));
            assert(b.pigs.to_multiset().count(a.pigs[i]) > 0);
            let j = choose|j: int| 0 <= j < b.pigs.len() && b.pigs[j] == a.pigs[i];
            assert(x == b.pigs[j].aged(delta));
        }
        if left_b.contains(x) {
            let i = choose|i: int|
                0 <= i < b.pigs.len() && !b.pigs[i].expires_within(delta) && x == (
                #[trigger] b.pigs[i]).aged(delta);
            assert(b.pigs.contains(b.pigs[i]));
            assert(a.pigs.to_multiset().count(b.pigs[i]) > 0);
            let j = choose|j: int| 0 <= j < a.pigs.len() && a.pigs[j] == b.pigs[i];
            assert(x == a.pigs[j].aged(delta));
        }
    }
    assert(left_a.to_set() =~= left_b.to_set());
    assert forall|id: u64| pig_ids(left_a).contains(id) <==> pig_ids(left_b).contains(id) by {
        if pig_ids(left_a).contains(id) {
            let j = choose|j: int| 0 <= j < left_a.len() && pig_ids(left_a)[j] == id;
            assert(left_a.contains(left_a[j]));
            let k = choose|k: int| 0 <= k < left_b.len() && left_b[k] == left_a[j];
            assert(pig_ids(left_b)[k] == id);
        }
        if pig_ids(left_b).contains(id) {
            let j = choose|j: int| 0 <= j < left_b.len() && pig_ids(left_b)[j] == id;
            assert(left_b.contains(left_b[j]));
            let k = choose|k: int| 0 <= k < left_a.len() && left_a[k] == left_b[j];
            assert(pig_ids(left_a)[k] == id);
        }
    }
    assert(pig_ids(left_a).to_set() =~= pig_ids(left_b).to_set());
}

/// A pig is not touched by the frame that buys it: at the end of the frame
/// it is on the farm as it was bought, with both timers at zero, and it is
/// the youngest child of the parent. No frame, however long, sells the pig
/// it bought.
pub proof fn lemma_new_pig_outlives_its_frame(
    before: WorldView,
    after: WorldView,
    delta: nat,
    sold_now: Seq<Sale>,
)
    requires
        before.wf(),
        before.spawn_result(true) matches Ok(SpawnOutcome::Bought { .. }),
        may_step_to(before, after, true, delta, sold_now),
    ensures
        after.pigs.len() >= 1,
        before.spawn_result(true) matches Ok(SpawnOutcome::Bought { id, position, balance })
            && after.pigs.last() == PigEntityView::fresh(id, position) && after.has_pig(id)
            && after.children.contains(id),
        forall|k: int| 0 <= k < sold_now.len() ==> (#[trigger] sold_now[k]).id != before.next_id,
{
    let n = before.pigs.len();
    let bought = before.after_spawn(true);
    let moved = choose|moved: WorldView|
        {
            &&& #[trigger] bought.may_move_oldest_to(n, moved, delta)
            &&& after == moved.after_lifetime_of(n, delta)
            &&& sold_now == crate::world::sales(moved.pigs.take(n as int), delta, moved.balance)
        };
    let id = before.next_id as u64;
    let newborn = bought.pigs[n as int];
    assert(moved.pigs[n as int] == newborn);
    assert(moved.pigs.skip(n as int) =~= Seq::empty().push(newborn));
    assert(after.pigs.last() == newborn);
    assert(pig_ids(after.pigs)[after.pigs.len() - 1] == id);
    let gone = sold(moved.pigs.take(n as int), delta);
    assert forall|k: int| 0 <= k < sold_now.len() implies (#[trigger] sold_now[k]).id
        != before.next_id by {
        assert(sold_now[k].id == gone[k].id);
        assert(gone.contains(gone[k]));
        moved.pigs.take(n as int).lemma_filter_contains_rev(expiring(delta), gone[k]);
        let i = choose|i: int| 0 <= i < n && moved.pigs.take(n as int)[i] == gone[k];
        assert(before.pigs[i].may_wander_to(moved.pigs[i], delta));
        assert(moved.pigs[i].id == before.pigs[i].id);
    }
}

} // verus!
