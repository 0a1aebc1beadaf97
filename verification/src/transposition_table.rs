//! The transposition table: a bounded map from a position's zobrist key to
//! the result of an earlier search of it. Mate scores are stored relative
//! to the node they were found from, so an entry's mate distance is
//! corrected by the searching ply on the way in and out.

use vstd::prelude::*;
use crate::board::Position;
use crate::fixed_map::FixedSizeHashMap;
use crate::moves::Mv;
use crate::search::{spec_is_mate_eval, IMMEDIATE_MATE_SCORE, INFINITY, NEGATIVE_INFINITY};

verus! {

/// How a cached score relates to the true score of its node.
#[derive(Clone, Copy, PartialEq, Eq, Structural, Debug)]
pub enum EvalType {
    UpperBound,
    Exact,
    LowerBound,
}

#[derive(Clone, Copy, PartialEq, Eq, Structural, Debug)]
pub struct TranspositionTableEntry {
    pub hash_key: u64,
    pub best_move: Mv,
    pub depth: u8,
    pub eval: i32,
    pub eval_type: EvalType,
}

/// The mate-distance correction applied when a score is stored: a mate
/// score is moved `ply` further away, so that it reads as a distance from
/// the root rather than from the node.
pub open spec fn spec_store_correct(eval: int, ply: int) -> int {
    if spec_is_mate_eval(eval) {
        eval + ply
    } else {
        eval
    }
}

/// The inverse correction applied on retrieval at a (possibly different)
/// ply.
pub open spec fn spec_retrieve_correct(eval: int, ply: int) -> int {
    if spec_is_mate_eval(eval) {
        eval - ply
    } else {
        eval
    }
}

/// What a lookup finds: the entry under the key, if it is at least as deep
/// as asked, its corrected score filtered by the window.
pub open spec fn spec_lookup(
    m: Map<u64, TranspositionTableEntry>,
    key: u64,
    depth: int,
    ply: int,
    alpha: int,
    beta: int,
) -> Option<int> {
    if !m.contains_key(key) {
        None
    } else {
        let e = m[key];
        if (e.depth as int) < depth {
            None
        } else {
            let v = spec_retrieve_correct(e.eval as int, ply);
            if e.eval_type is Exact {
                Some(v)
            } else if e.eval_type is UpperBound && v <= alpha {
                Some(v)
            } else if e.eval_type is LowerBound && v >= beta {
                Some(v)
            } else {
                None
            }
        }
    }
}

pub struct TranspositionTable {
    entries: FixedSizeHashMap<TranspositionTableEntry>,
}

impl TranspositionTable {
    pub closed spec fn view(self) -> Map<u64, TranspositionTableEntry> {
        self.entries@
    }

    /// How many entries are stored.
    pub closed spec fn spec_count(self) -> nat {
        self.entries.spec_count()
    }

    /// The soft capacity the table was made with.
    pub closed spec fn spec_cap(self) -> usize {
        self.entries.spec_cap()
    }

    /// Every entry sits under its own key with a score inside the
    /// representable band.
    pub closed spec fn inv(self) -> bool {
        &&& self.entries.inv()
        &&& forall|k: u64|
            #[trigger] self@.contains_key(k) ==> self@[k].hash_key == k && NEGATIVE_INFINITY
                < self@[k].eval < INFINITY
    }

    pub fn new() -> (r: TranspositionTable)
        ensures
            r.inv(),
            r@ == Map::<u64, TranspositionTableEntry>::empty(),
    {
        // 64 MiB of sixteen-byte entries.
        let capacity: usize = 64 * 1024 * 1024 / 16;
        TranspositionTable { entries: FixedSizeHashMap::new(capacity) }
    }

    /// How many entries are stored.
    pub fn get_size(&self) -> (r: usize)
        requires
            self.inv(),
    {
        self.entries.get_size()
    }

    /// Caches a search result for the position unless a strictly deeper
    /// entry already sits under its key. The score goes in with the
    /// mate-distance correction; other keys are untouched but for a
    /// possible random eviction.
    pub fn store(
        &mut self,
        board: &Position,
        depth: u8,
        ply_searched: u8,
        eval: i32,
        eval_type: EvalType,
        best_move: Mv,
    )
        requires
            old(self).inv(),
            NEGATIVE_INFINITY < eval < INFINITY,
        ensures
            final(self).inv(),
            final(self).spec_cap() == old(self).spec_cap(),
            old(self)@.contains_key(board.spec_key()) && old(self)@[board.spec_key()].depth > depth
                ==> final(self)@ == old(self)@ && final(self).spec_count()
                == old(self).spec_count(),
            !(old(self)@.contains_key(board.spec_key()) && old(self)@[board.spec_key()].depth
                > depth) ==> {
                let ent = TranspositionTableEntry {
                    hash_key: board.spec_key(),
                    best_move,
                    depth,
                    eval: spec_store_correct(eval as int, ply_searched as int) as i32,
                    eval_type,
                };
                &&& final(self)@.contains_pair(board.spec_key(), ent)
                &&& old(self)@.contains_key(board.spec_key()) ==> final(self)@
                    == old(self)@.insert(board.spec_key(), ent) && final(self).spec_count()
                    == old(self).spec_count()
                &&& !old(self)@.contains_key(board.spec_key()) && old(self).spec_count()
                    < old(self).spec_cap() ==> final(self)@ == old(self)@.insert(
                    board.spec_key(),
                    ent,
                ) && final(self).spec_count() == old(self).spec_count() + 1
                &&& !old(self)@.contains_key(board.spec_key()) && old(self).spec_count()
                    >= old(self).spec_cap() ==> final(self).spec_count() == old(self).spec_count()
                    && exists|e: u64|
                    (#[trigger] old(self)@.contains_key(e)) && e != board.spec_key() && final(self)@
                        == old(self)@.remove(e).insert(board.spec_key(), ent)
            },
    {
        let hash_key = board.zobrist();
        let corrected = Self::correct_mate_eval_store(eval, ply_searched);
        let entry = TranspositionTableEntry {
            hash_key,
            best_move,
            depth,
            eval: corrected,
            eval_type,
        };
        match self.entries.get(hash_key) {
            Some(t) => {
                if t.depth > depth {
                    return ;
                }
            },
            None => {},
        }
        self.entries.insert(hash_key, entry);
    }

    /// Looks the position up for a search of the given depth and window:
    /// a hit returns the cached score, corrected back to this ply, when the
    /// entry is deep enough and its bound kind settles the window.
    pub fn lookup_eval(
        &self,
        board: &Position,
        depth: u8,
        ply_from_root: u8,
        alpha: i32,
        beta: i32,
    ) -> (r: Option<i32>)
        requires
            self.inv(),
        ensures
            r is Some ==> spec_lookup(
                self@,
                board.spec_key(),
                depth as int,
                ply_from_root as int,
                alpha as int,
                beta as int,
            ) == Some(r->Some_0 as int),
            r is None ==> spec_lookup(
                self@,
                board.spec_key(),
                depth as int,
                ply_from_root as int,
                alpha as int,
                beta as int,
            ) is None,
            r matches Some(v) ==> NEGATIVE_INFINITY < v < INFINITY,
    {
        match self.entries.get(board.zobrist()) {
            Some(entry) => {
                if entry.depth >= depth {
                    let eval = Self::correct_mate_eval_retrive(entry.eval, ply_from_root);
                    if matches!(entry.eval_type, EvalType::Exact) {
                        return Some(eval);
                    }
                    if matches!(entry.eval_type, EvalType::UpperBound) && eval <= alpha {
                        return Some(eval);
                    }
                    if matches!(entry.eval_type, EvalType::LowerBound) && eval >= beta {
                        return Some(eval);
                    }
                }
                None
            },
            None => None,
        }
    }

    /// The move cached for this position, whatever depth it was found at.
    pub fn get_stored_move(&self, board: &Position) -> (r: Option<Mv>)
        requires
            self.inv(),
        ensures
            self@.contains_key(board.spec_key()) ==> r == Some(self@[board.spec_key()].best_move),
            !self@.contains_key(board.spec_key()) ==> r is None,
    {
        match self.entries.get(board.zobrist()) {
            Some(e) => Some(e.best_move),
            None => None,
        }
    }

    /// Applies the storing mate-distance correction.
    pub fn correct_mate_eval_store(eval: i32, ply_searched: u8) -> (r: i32)
        requires
            NEGATIVE_INFINITY <= eval <= INFINITY,
        ensures
            r == spec_store_correct(eval as int, ply_searched as int),
            NEGATIVE_INFINITY <= r <= INFINITY,
            NEGATIVE_INFINITY < eval < INFINITY ==> NEGATIVE_INFINITY < r < INFINITY,
    {
        if is_mate_band(eval) {
            eval + ply_searched as i32
        } else {
            eval
        }
    }

    /// Applies the retrieving mate-distance correction.
    pub fn correct_mate_eval_retrive(eval: i32, ply_searched: u8) -> (r: i32)
        requires
            NEGATIVE_INFINITY <= eval <= INFINITY,
        ensures
            r == spec_retrieve_correct(eval as int, ply_searched as int),
            NEGATIVE_INFINITY <= r <= INFINITY,
            NEGATIVE_INFINITY < eval < INFINITY ==> NEGATIVE_INFINITY < r < INFINITY,
    {
        if is_mate_band(eval) {
            eval - ply_searched as i32
        } else {
            eval
        }
    }
}

fn is_mate_band(eval: i32) -> (r: bool)
    requires
        NEGATIVE_INFINITY <= eval <= INFINITY,
    ensures
        r == spec_is_mate_eval(eval as int),
{
    crate::search::is_mate_eval(eval)
}

/// Mate-distance round trip: a score stored at a ply and retrieved at the
/// same ply comes back unchanged, for every ply up to the table's depth
/// range and every score no higher than an immediate mate.
pub proof fn lemma_mate_correction_round_trip(eval: int, ply: int)
    requires
        0 <= ply <= 64,
        NEGATIVE_INFINITY <= eval <= IMMEDIATE_MATE_SCORE,
    ensures
        spec_retrieve_correct(spec_store_correct(eval, ply), ply) == eval,
{
}

/// Transposition round trip: after an exact entry for a position is
/// stored at some depth and ply, a lookup at that same depth and ply with
/// the widest window returns exactly the stored score.
pub proof fn lemma_tt_round_trip(
    m: Map<u64, TranspositionTableEntry>,
    key: u64,
    mv: Mv,
    depth: u8,
    ply: int,
    eval: int,
)
    requires
        0 <= ply <= 64,
        NEGATIVE_INFINITY <= eval <= IMMEDIATE_MATE_SCORE,
        m.contains_key(key),
        m[key] == (TranspositionTableEntry {
            hash_key: key,
            best_move: mv,
            depth,
            eval: spec_store_correct(eval, ply) as i32,
            eval_type: EvalType::Exact,
        }),
    ensures
        spec_lookup(m, key, depth as int, ply, NEGATIVE_INFINITY as int, INFINITY as int)
            == Some(eval),
{
    lemma_mate_correction_round_trip(eval, ply);
}

} // verus!
