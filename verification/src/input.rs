//! The key that asks for a pig: it counts when it goes down, not while it is
//! held.

use vstd::prelude::*;

verus! {

/// How many times a key goes from up to down over `downs`, the states in
/// which successive frames find it, when it was `held` before the first.
pub open spec fn presses(held: bool, downs: Seq<bool>) -> nat
    decreases downs.len(),
{
    if downs.len() == 0 {
        0
    } else {
        let before = if downs.len() == 1 {
            held
        } else {
            downs[downs.len() - 2]
        };
        let now: nat = if downs.last() && !before {
            1
        } else {
            0
        };
        presses(held, downs.drop_last()) + now
    }
}

/// A key, remembered from one frame to the next.
#[derive(Clone, Copy, Debug, PartialEq, Eq, Structural)]
pub struct KeyEdge {
    /// Whether the last frame found the key down.
    pub held: bool,
}

impl KeyEdge {
    /// A key that has not been touched.
    pub fn new() -> (k: KeyEdge)
        ensures
            !k.held,
    {
        KeyEdge { held: false }
    }

    /// Takes note of the state in which this frame finds the key, and says
    /// whether the key has just gone down.
    pub fn update(&mut self, down: bool) -> (pressed: bool)
        ensures
            pressed == (down && !old(self).held),
            final(self).held == down,
    {
        let pressed = down && !self.held;
        self.held = down;
        pressed
    }
}

/// A key that is held down through any number of frames counts once.
pub proof fn lemma_held_key_counts_once(downs: Seq<bool>)
    requires
        downs.len() > 0,
        forall|k: int| 0 <= k < downs.len() ==> downs[k],
    ensures
        presses(false, downs) == 1,
    decreases downs.len(),
{
    if downs.len() > 1 {
        lemma_held_key_counts_once(downs.drop_last());
    } else {
        assert(presses(false, downs.drop_last()) == 0);
    }
}

} // verus!
