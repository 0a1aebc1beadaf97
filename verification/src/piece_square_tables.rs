//! The positional tables of the classic evaluator: one 64-entry table per
//! non-king piece and a middlegame/endgame pair for the king. Tables are
//! written from black's perspective; a white piece reads entry `63 - square`.
//!
//! The king value is tapered between its two tables by an endgame weight.
//! To stay in integer arithmetic the weight is a numerator out of
//! `ENDGAME_MATERIAL_START` (1620), and king values are returned scaled by
//! that denominator.

use vstd::prelude::*;

verus! {

/// Denominator of the endgame weight: the non-pawn material level
/// (two rooks, a bishop and a knight) at which a side still counts
/// as fully middlegame.
pub const ENDGAME_MATERIAL_START: i32 = 1620;

/// The seven positional tables, each of exactly 64 entries.
pub struct PieceSquareTables {
    pub pawn: Vec<i32>,
    pub knight: Vec<i32>,
    pub bishop: Vec<i32>,
    pub rook: Vec<i32>,
    pub queen: Vec<i32>,
    pub king_mid: Vec<i32>,
    pub king_end: Vec<i32>,
}

/// A well-formed table has 64 entries, each within centipawn range.
pub open spec fn table_wf(t: Seq<i32>) -> bool {
    &&& t.len() == 64
    &&& forall|i: int| 0 <= i < 64 ==> -50 <= #[trigger] t[i] <= 50
}

/// Table entry read for a piece of the given colour standing on `sq`:
/// black reads the square directly, white mirrors it.
pub open spec fn spec_flat_at(t: Seq<i32>, sq: u8, white: bool) -> int
    recommends
        t.len() == 64,
        sq < 64,
{
    if white {
        t[63 - sq] as int
    } else {
        t[sq as int] as int
    }
}

/// King entry for the given colour and endgame weight `w` (numerator out of
/// 1620), scaled by 1620: `1620 * mid + (end - mid) * w`.
pub open spec fn spec_king_at(mid: Seq<i32>, end: Seq<i32>, sq: u8, white: bool, w: int) -> int
    recommends
        mid.len() == 64,
        end.len() == 64,
        sq < 64,
{
    1620 * spec_flat_at(mid, sq, white) + (spec_flat_at(end, sq, white) - spec_flat_at(
        mid,
        sq,
        white,
    )) * w
}


/// The canonical pawn table, from black's perspective.
pub open spec fn spec_pawn_table() -> Seq<i32> {
    seq![
         0i32,  0i32,  0i32,  0i32,  0i32,  0i32,  0i32,  0i32,
        50i32, 50i32, 50i32, 50i32, 50i32, 50i32, 50i32, 50i32,
        10i32, 10i32, 20i32, 30i32, 30i32, 20i32, 10i32, 10i32,
         5i32,  5i32, 10i32, 25i32, 25i32, 10i32,  5i32,  5i32,
         0i32,  0i32,  0i32, 20i32, 20i32,  0i32,  0i32,  0i32,
         5i32, -5i32,-10i32,  0i32,  0i32,-10i32, -5i32,  5i32,
         5i32, 10i32, 10i32,-20i32,-20i32, 10i32, 10i32,  5i32,
         0i32,  0i32,  0i32,  0i32,  0i32,  0i32,  0i32,  0i32,
    ]
}

pub open spec fn spec_knight_table() -> Seq<i32> {
    seq![
        -50i32,-40i32,-30i32,-30i32,-30i32,-30i32,-40i32,-50i32,
        -40i32,-20i32,  0i32,  0i32,  0i32,  0i32,-20i32,-40i32,
        -30i32,  0i32, 10i32, 15i32, 15i32, 10i32,  0i32,-30i32,
        -30i32,  5i32, 15i32, 20i32, 20i32, 15i32,  5i32,-30i32,
        -30i32,  0i32, 15i32, 20i32, 20i32, 15i32,  0i32,-30i32,
        -30i32,  5i32, 10i32, 15i32, 15i32, 10i32,  5i32,-30i32,
        -40i32,-20i32,  0i32,  5i32,  5i32,  0i32,-20i32,-40i32,
        -50i32,-40i32,-30i32,-30i32,-30i32,-30i32,-40i32,-50i32,
    ]
}

pub open spec fn spec_bishop_table() -> Seq<i32> {
    seq![
        -20i32,-10i32,-10i32,-10i32,-10i32,-10i32,-10i32,-20i32,
        -10i32,  0i32,  0i32,  0i32,  0i32,  0i32,  0i32,-10i32,
        -10i32,  0i32,  5i32, 10i32, 10i32,  5i32,  0i32,-10i32,
        -10i32,  5i32,  5i32, 10i32, 10i32,  5i32,  5i32,-10i32,
        -10i32,  0i32, 10i32, 10i32, 10i32, 10i32,  0i32,-10i32,
        -10i32, 10i32, 10i32, 10i32, 10i32, 10i32, 10i32,-10i32,
        -10i32,  5i32,  0i32,  0i32,  0i32,  0i32,  5i32,-10i32,
        -20i32,-10i32,-10i32,-10i32,-10i32,-10i32,-10i32,-20i32,
    ]
}

pub open spec fn spec_rook_table() -> Seq<i32> {
    seq![
         0i32,  0i32,  0i32,  0i32,  0i32,  0i32,  0i32,  0i32,
         5i32, 10i32, 10i32, 10i32, 10i32, 10i32, 10i32,  5i32,
        -5i32,  0i32,  0i32,  0i32,  0i32,  0i32,  0i32, -5i32,
        -5i32,  0i32,  0i32,  0i32,  0i32,  0i32,  0i32, -5i32,
        -5i32,  0i32,  0i32,  0i32,  0i32,  0i32,  0i32, -5i32,
        -5i32,  0i32,  0i32,  0i32,  0i32,  0i32,  0i32, -5i32,
        -5i32,  0i32,  0i32,  0i32,  0i32,  0i32,  0i32, -5i32,
         0i32,  0i32,  0i32,  5i32,  5i32,  0i32,  0i32,  0i32,
    ]
}

pub open spec fn spec_queen_table() -> Seq<i32> {
    seq![
        -20i32,-10i32,-10i32, -5i32, -5i32,-10i32,-10i32,-20i32,
        -10i32,  0i32,  0i32,  0i32,  0i32,  0i32,  0i32,-10i32,
        -10i32,  0i32,  5i32,  5i32,  5i32,  5i32,  0i32,-10i32,
         -5i32,  0i32,  5i32,  5i32,  5i32,  5i32,  0i32, -5i32,
          0i32,  0i32,  5i32,  5i32,  5i32,  5i32,  0i32, -5i32,
        -10i32,  5i32,  5i32,  5i32,  5i32,  5i32,  0i32,-10i32,
        -10i32,  0i32,  5i32,  0i32,  0i32,  0i32,  0i32,-10i32,
        -20i32,-10i32,-10i32, -5i32, -5i32,-10i32,-10i32,-20i32,
    ]
}

pub open spec fn spec_king_mid_table() -> Seq<i32> {
    seq![
        -30i32,-40i32,-40i32,-50i32,-50i32,-40i32,-40i32,-30i32,
        -30i32,-40i32,-40i32,-50i32,-50i32,-40i32,-40i32,-30i32,
        -30i32,-40i32,-40i32,-50i32,-50i32,-40i32,-40i32,-30i32,
        -30i32,-40i32,-40i32,-50i32,-50i32,-40i32,-40i32,-30i32,
        -20i32,-30i32,-30i32,-40i32,-40i32,-30i32,-30i32,-20i32,
        -10i32,-20i32,-20i32,-20i32,-20i32,-20i32,-20i32,-10i32,
         20i32, 20i32,  0i32,  0i32,  0i32,  0i32, 20i32, 20i32,
         20i32, 30i32, 10i32,  0i32,  0i32, 10i32, 30i32, 20i32,
    ]
}

pub open spec fn spec_king_end_table() -> Seq<i32> {
    seq![
        -50i32,-40i32,-30i32,-20i32,-20i32,-30i32,-40i32,-50i32,
        -30i32,-20i32,-10i32,  0i32,  0i32,-10i32,-20i32,-30i32,
        -30i32,-10i32, 20i32, 30i32, 30i32, 20i32,-10i32,-30i32,
        -30i32,-10i32, 30i32, 40i32, 40i32, 30i32,-10i32,-30i32,
        -30i32,-10i32, 30i32, 40i32, 40i32, 30i32,-10i32,-30i32,
        -30i32,-10i32, 20i32, 30i32, 30i32, 20i32,-10i32,-30i32,
        -30i32,-30i32,  0i32,  0i32,  0i32,  0i32,-30i32,-30i32,
        -50i32,-30i32,-30i32,-30i32,-30i32,-30i32,-30i32,-50i32,
    ]
}

/// The seven tables hold their canonical values.
pub open spec fn canonical(t: PieceSquareTables) -> bool {
    &&& t.pawn@ == spec_pawn_table()
    &&& t.knight@ == spec_knight_table()
    &&& t.bishop@ == spec_bishop_table()
    &&& t.rook@ == spec_rook_table()
    &&& t.queen@ == spec_queen_table()
    &&& t.king_mid@ == spec_king_mid_table()
    &&& t.king_end@ == spec_king_end_table()
}

impl PieceSquareTables {
    pub open spec fn wf(self) -> bool {
        &&& table_wf(self.pawn@)
        &&& table_wf(self.knight@)
        &&& table_wf(self.bishop@)
        &&& table_wf(self.rook@)
        &&& table_wf(self.queen@)
        &&& table_wf(self.king_mid@)
        &&& table_wf(self.king_end@)
    }

    /// Reads one non-king table for a piece of the given colour.
    pub fn flat_at(t: &Vec<i32>, sq: u8, white: bool) -> (r: i32)
        requires
            table_wf(t@),
            sq < 64,
        ensures
            r == spec_flat_at(t@, sq, white),
            -50 <= r <= 50,
    {
        if white {
            t[(63 - sq) as usize]
        } else {
            t[sq as usize]
        }
    }

    /// Reads the tapered king value, scaled by 1620.
    pub fn eval_king(&self, sq: u8, white: bool, w: i32) -> (r: i64)
        requires
            self.wf(),
            sq < 64,
            0 <= w <= 1620,
        ensures
            r == spec_king_at(self.king_mid@, self.king_end@, sq, white, w as int),
            -243000 <= r <= 243000,
    {
        let mid = Self::flat_at(&self.king_mid, sq, white);
        let end = Self::flat_at(&self.king_end, sq, white);
        proof {
            let d = end - mid;
            assert(-100 <= d <= 100 && 0 <= w <= 1620 ==> -162000 <= d * w <= 162000)
                by (nonlinear_arith);
        }
        1620i64 * (mid as i64) + ((end as i64) - (mid as i64)) * (w as i64)
    }

    pub fn new() -> (r: Self)
        ensures
            r.wf(),
            canonical(r),
    {
        let pawn: Vec<i32> = vec![
             0,  0,  0,  0,  0,  0,  0,  0,
            50, 50, 50, 50, 50, 50, 50, 50,
            10, 10, 20, 30, 30, 20, 10, 10,
             5,  5, 10, 25, 25, 10,  5,  5,
             0,  0,  0, 20, 20,  0,  0,  0,
             5, -5,-10,  0,  0,-10, -5,  5,
             5, 10, 10,-20,-20, 10, 10,  5,
             0,  0,  0,  0,  0,  0,  0,  0,
        ];
        let knight: Vec<i32> = vec![
            -50,-40,-30,-30,-30,-30,-40,-50,
            -40,-20,  0,  0,  0,  0,-20,-40,
            -30,  0, 10, 15, 15, 10,  0,-30,
            -30,  5, 15, 20, 20, 15,  5,-30,
            -30,  0, 15, 20, 20, 15,  0,-30,
            -30,  5, 10, 15, 15, 10,  5,-30,
            -40,-20,  0,  5,  5,  0,-20,-40,
            -50,-40,-30,-30,-30,-30,-40,-50,
        ];
        let bishop: Vec<i32> = vec![
            -20,-10,-10,-10,-10,-10,-10,-20,
            -10,  0,  0,  0,  0,  0,  0,-10,
            -10,  0,  5, 10, 10,  5,  0,-10,
            -10,  5,  5, 10, 10,  5,  5,-10,
            -10,  0, 10, 10, 10, 10,  0,-10,
            -10, 10, 10, 10, 10, 10, 10,-10,
            -10,  5,  0,  0,  0,  0,  5,-10,
            -20,-10,-10,-10,-10,-10,-10,-20,
        ];
        let rook: Vec<i32> = vec![
             0,  0,  0,  0,  0,  0,  0,  0,
             5, 10, 10, 10, 10, 10, 10,  5,
            -5,  0,  0,  0,  0,  0,  0, -5,
            -5,  0,  0,  0,  0,  0,  0, -5,
            -5,  0,  0,  0,  0,  0,  0, -5,
            -5,  0,  0,  0,  0,  0,  0, -5,
            -5,  0,  0,  0,  0,  0,  0, -5,
             0,  0,  0,  5,  5,  0,  0,  0,
        ];
        let queen: Vec<i32> = vec![
            -20,-10,-10, -5, -5,-10,-10,-20,
            -10,  0,  0,  0,  0,  0,  0,-10,
            -10,  0,  5,  5,  5,  5,  0,-10,
             -5,  0,  5,  5,  5,  5,  0, -5,
              0,  0,  5,  5,  5,  5,  0, -5,
            -10,  5,  5,  5,  5,  5,  0,-10,
            -10,  0,  5,  0,  0,  0,  0,-10,
            -20,-10,-10, -5, -5,-10,-10,-20,
        ];
        let king_mid: Vec<i32> = vec![
            -30,-40,-40,-50,-50,-40,-40,-30,
            -30,-40,-40,-50,-50,-40,-40,-30,
            -30,-40,-40,-50,-50,-40,-40,-30,
            -30,-40,-40,-50,-50,-40,-40,-30,
            -20,-30,-30,-40,-40,-30,-30,-20,
            -10,-20,-20,-20,-20,-20,-20,-10,
             20, 20,  0,  0,  0,  0, 20, 20,
             20, 30, 10,  0,  0, 10, 30, 20,
        ];
        let king_end: Vec<i32> = vec![
            -50,-40,-30,-20,-20,-30,-40,-50,
            -30,-20,-10,  0,  0,-10,-20,-30,
            -30,-10, 20, 30, 30, 20,-10,-30,
            -30,-10, 30, 40, 40, 30,-10,-30,
            -30,-10, 30, 40, 40, 30,-10,-30,
            -30,-10, 20, 30, 30, 20,-10,-30,
            -30,-30,  0,  0,  0,  0,-30,-30,
            -50,-30,-30,-30,-30,-30,-30,-50,
        ];
        proof {
            assert(pawn@ =~= spec_pawn_table());
            assert(knight@ =~= spec_knight_table());
            assert(bishop@ =~= spec_bishop_table());
            assert(rook@ =~= spec_rook_table());
            assert(queen@ =~= spec_queen_table());
            assert(king_mid@ =~= spec_king_mid_table());
            assert(king_end@ =~= spec_king_end_table());
        }
        PieceSquareTables { pawn, knight, bishop, rook, queen, king_mid, king_end }
    }
}

} // verus!
