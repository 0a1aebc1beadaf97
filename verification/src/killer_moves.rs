//! The killer heuristic: for each search depth, the last two distinct quiet
//! moves that refuted a line. Adding the move already in front changes
//! nothing; adding a new one shifts the front move back.

use vstd::prelude::*;
use crate::moves::Mv;

verus! {

/// The two remembered moves of one depth, newest first.
#[derive(Clone, Copy, PartialEq, Eq, Structural, Debug)]
pub struct KillerSlot {
    pub primary: Option<Mv>,
    pub secondary: Option<Mv>,
}

pub struct KillerMoves {
    pub killers: Vec<KillerSlot>,
}

/// What one `add_killer` call leaves in the table.
pub open spec fn spec_add_killer(s: Seq<KillerSlot>, depth: int, m: Mv) -> Seq<KillerSlot> {
    if 0 <= depth < s.len() {
        if s[depth].primary == Some(m) {
            s
        } else {
            s.update(depth, KillerSlot { primary: Some(m), secondary: s[depth].primary })
        }
    } else {
        s
    }
}

/// Whether a move sits in either slot of its depth.
pub open spec fn spec_is_killer(s: Seq<KillerSlot>, depth: int, m: Mv) -> bool {
    0 <= depth < s.len() && (s[depth].primary == Some(m) || s[depth].secondary == Some(m))
}

impl KillerMoves {
    pub fn new(max_depth: usize) -> (r: Self)
        ensures
            r.killers@.len() == max_depth,
            forall|i: int|
                0 <= i < max_depth ==> #[trigger] r.killers@[i] == (KillerSlot {
                    primary: None,
                    secondary: None,
                }),
    {
        let mut killers: Vec<KillerSlot> = Vec::new();
        let mut i: usize = 0;
        while i < max_depth
            invariant
                i <= max_depth,
                killers@.len() == i,
                forall|j: int|
                    0 <= j < i ==> #[trigger] killers@[j] == (KillerSlot {
                        primary: None,
                        secondary: None,
                    }),
            decreases max_depth - i,
        {
            killers.push(KillerSlot { primary: None, secondary: None });
            i = i + 1;
        }
        KillerMoves { killers }
    }

    /// Remembers a refuting move at its depth. A move already in front is
    /// left alone; otherwise it takes the front and the front move becomes
    /// the second. A depth beyond the table changes nothing.
    pub fn add_killer(&mut self, depth: u8, mv: Mv)
        ensures
            final(self).killers@ == spec_add_killer(old(self).killers@, depth as int, mv),
    {
        let d = depth as usize;
        if d < self.killers.len() {
            let slot = self.killers[d];
            let same = match slot.primary {
                Some(p) => p.data == mv.data,
                None => false,
            };
            if !same {
                self.killers[d] = KillerSlot { primary: Some(mv), secondary: slot.primary };
            }
        }
    }

    /// Whether the move sits in either slot of its depth.
    pub fn is_killer(&self, depth: u8, mv: Mv) -> (r: bool)
        ensures
            r == spec_is_killer(self.killers@, depth as int, mv),
    {
        let d = depth as usize;
        if d < self.killers.len() {
            let slot = self.killers[d];
            let in_primary = match slot.primary {
                Some(p) => p.data == mv.data,
                None => false,
            };
            let in_secondary = match slot.secondary {
                Some(p) => p.data == mv.data,
                None => false,
            };
            in_primary || in_secondary
        } else {
            false
        }
    }
}

/// Adding the same move twice in a row is the same as adding it once: the
/// second call finds it in front and changes nothing, so in particular the
/// second slot keeps the value the first call gave it.
pub proof fn lemma_add_killer_twice(s: Seq<KillerSlot>, depth: int, m: Mv)
    ensures
        spec_add_killer(spec_add_killer(s, depth, m), depth, m) == spec_add_killer(s, depth, m),
        0 <= depth < s.len() ==> spec_add_killer(spec_add_killer(s, depth, m), depth, m)[depth]
            .secondary == spec_add_killer(s, depth, m)[depth].secondary,
{
    let once = spec_add_killer(s, depth, m);
    if 0 <= depth < s.len() {
        assert(once[depth].primary == Some(m));
        assert(spec_add_killer(once, depth, m) == once);
    }
}

} // verus!
