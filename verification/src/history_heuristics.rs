//! The history heuristic: a per-move counter raised by the square of the
//! search depth whenever the move improves the score, saturating at the
//! counter's ceiling. A move's score never goes down.

use vstd::prelude::*;
use crate::fixed_map::FixedSizeHashMap;
use crate::moves::Mv;

verus! {

pub struct HistoryHeuristic {
    history: FixedSizeHashMap<u16>,
}

impl HistoryHeuristic {
    /// The counter stored for a raw move word, zero when none is.
    pub closed spec fn score_of(self, data: u16) -> int {
        if self.history@.contains_key(data as u64) {
            self.history@[data as u64] as int
        } else {
            0
        }
    }

    pub closed spec fn inv(self) -> bool {
        self.history.inv()
    }

    pub fn new() -> (r: Self)
        ensures
            r.inv(),
            forall|d: u16| #[trigger] r.score_of(d) == 0,
    {
        // A move handle is two bytes; the table gets 32 MiB worth of slots.
        let slots: usize = 32 * 1024 * 1024 / 2;
        HistoryHeuristic { history: FixedSizeHashMap::new(slots) }
    }

    /// Credits a move that improved the score at `depth`: its counter grows
    /// by `depth * depth`, saturating at the ceiling; every other move's
    /// counter stands. The growth clause is the heuristic's law: a score
    /// never decreases across updates.
    pub fn update(&mut self, mv: Mv, depth: u8)
        requires
            old(self).inv(),
        ensures
            final(self).inv(),
            final(self).score_of(mv.data) == if old(self).score_of(mv.data) + (depth as int)
                * (depth as int) <= u16::MAX {
                old(self).score_of(mv.data) + (depth as int) * (depth as int)
            } else {
                u16::MAX as int
            },
            final(self).score_of(mv.data) >= old(self).score_of(mv.data),
            forall|d: u16| d != mv.data ==> final(self).score_of(d) == old(self).score_of(d),
    {
        let key = mv.data as u64;
        let cur: u16 = self.history.entry(key, 0);
        let d = depth as u16;
        proof {
            assert(d <= 255 ==> d * d <= 65025) by (nonlinear_arith);
        }
        let gain: u16 = d * d;
        let updated: u16 = if cur > u16::MAX - gain {
            u16::MAX
        } else {
            cur + gain
        };
        self.history.insert(key, updated);
    }

    /// The counter for a move, zero when it was never credited.
    pub fn get_score(&self, mv: Mv) -> (r: i32)
        ensures
            r == self.score_of(mv.data),
            0 <= r <= u16::MAX,
    {
        match self.history.get(mv.data as u64) {
            Some(v) => *v as i32,
            None => 0,
        }
    }
}

} // verus!
