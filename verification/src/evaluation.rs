//! The classic static evaluator: material plus piece-square terms, with the
//! king tapered between middlegame and endgame tables by a per-side phase
//! weight, all from the side to move's perspective.
//!
//! The arithmetic is exact: positional sums are kept scaled by the weight
//! denominator (1620) and rounded once, half away from zero, when the
//! doubled piece-square score is added to material.

use vstd::prelude::*;
use crate::board::{code_to_kind, piece_at_of, piece_bits_of, white_of, PieceKind, Position};
use crate::piece_square_tables::{
    spec_flat_at, spec_king_at, table_wf, PieceSquareTables, ENDGAME_MATERIAL_START,
};

verus! {

pub const PAWN_VALUE: i32 = 100;

pub const KNIGHT_VALUE: i32 = 300;

pub const BISHOP_VALUE: i32 = 320;

pub const ROOK_VALUE: i32 = 500;

pub const QUEEN_VALUE: i32 = 900;

/// The squares (0 to 63) occupied by one side, one list per piece kind.
pub struct SideSquares {
    pub pawns: Vec<u8>,
    pub knights: Vec<u8>,
    pub bishops: Vec<u8>,
    pub rooks: Vec<u8>,
    pub queens: Vec<u8>,
    pub kings: Vec<u8>,
}

pub ghost struct SideView {
    pub pawns: Seq<u8>,
    pub knights: Seq<u8>,
    pub bishops: Seq<u8>,
    pub rooks: Seq<u8>,
    pub queens: Seq<u8>,
    pub kings: Seq<u8>,
}

impl View for SideSquares {
    type V = SideView;

    open spec fn view(&self) -> SideView {
        SideView {
            pawns: self.pawns@,
            knights: self.knights@,
            bishops: self.bishops@,
            rooks: self.rooks@,
            queens: self.queens@,
            kings: self.kings@,
        }
    }
}

/// At most one man per square, every square on the board.
pub open spec fn sqs_wf(s: Seq<u8>) -> bool {
    &&& s.len() <= 64
    &&& forall|i: int| 0 <= i < s.len() ==> #[trigger] s[i] < 64
}

pub open spec fn side_wf(s: SideView) -> bool {
    &&& sqs_wf(s.pawns)
    &&& sqs_wf(s.knights)
    &&& sqs_wf(s.bishops)
    &&& sqs_wf(s.rooks)
    &&& sqs_wf(s.queens)
    &&& sqs_wf(s.kings)
}

/// Sum of one positional table over a list of squares.
pub open spec fn spec_sum_flat(t: Seq<i32>, sqs: Seq<u8>, white: bool) -> int
    decreases sqs.len(),
{
    if sqs.len() == 0 {
        0
    } else {
        spec_sum_flat(t, sqs.drop_last(), white) + spec_flat_at(t, sqs.last(), white)
    }
}

/// Sum of the tapered king value (scaled by 1620) over a list of squares.
pub open spec fn spec_sum_king(
    mid: Seq<i32>,
    end: Seq<i32>,
    sqs: Seq<u8>,
    white: bool,
    w: int,
) -> int
    decreases sqs.len(),
{
    if sqs.len() == 0 {
        0
    } else {
        spec_sum_king(mid, end, sqs.drop_last(), white, w) + spec_king_at(
            mid,
            end,
            sqs.last(),
            white,
            w,
        )
    }
}

/// Material in centipawns; kings count nothing.
pub open spec fn spec_material(s: SideView) -> int {
    100 * (s.pawns.len() as int) + 300 * (s.knights.len() as int) + 320 * (s.bishops.len() as int)
        + 500 * (s.rooks.len() as int) + 900 * (s.queens.len() as int)
}

/// Material with the pawns left out; drives the endgame taper.
pub open spec fn spec_nonpawn_material(s: SideView) -> int {
    300 * (s.knights.len() as int) + 320 * (s.bishops.len() as int) + 500 * (s.rooks.len() as int)
        + 900 * (s.queens.len() as int)
}

/// Endgame weight as a numerator out of 1620: full at no material, zero
/// from the endgame threshold up.
pub open spec fn spec_weight(nonpawn: int) -> int {
    if nonpawn >= 1620 {
        0
    } else {
        1620 - nonpawn
    }
}

/// The whole piece-square score of one side, scaled by 1620.
pub open spec fn spec_psq_scaled(t: PieceSquareTables, s: SideView, white: bool) -> int {
    1620 * (spec_sum_flat(t.pawn@, s.pawns, white) + spec_sum_flat(t.knight@, s.knights, white)
        + spec_sum_flat(t.bishop@, s.bishops, white) + spec_sum_flat(t.rook@, s.rooks, white)
        + spec_sum_flat(t.queen@, s.queens, white)) + spec_sum_king(
        t.king_mid@,
        t.king_end@,
        s.kings,
        white,
        spec_weight(spec_nonpawn_material(s)),
    )
}

/// `round(2 * (num / 1620))`, half away from zero.
pub open spec fn spec_round_psq(num: int) -> int {
    if num >= 0 {
        (2 * num + 810) / 1620
    } else {
        -((2 * (-num) + 810) / 1620)
    }
}

/// One side's full score: material plus the rounded, doubled positional sum.
pub open spec fn spec_side_score(t: PieceSquareTables, s: SideView, white: bool) -> int {
    spec_material(s) + spec_round_psq(spec_psq_scaled(t, s, white))
}

/// The evaluation: white's score less black's, seen from the mover.
pub open spec fn spec_evaluate(
    t: PieceSquareTables,
    white_side: SideView,
    black_side: SideView,
    white_to_move: bool,
) -> int {
    (spec_side_score(t, white_side, true) - spec_side_score(t, black_side, false)) * (
    if white_to_move {
        1int
    } else {
        -1int
    })
}

/// Centipawn value of a piece kind; kings and empty squares count nothing.
pub open spec fn spec_piece_value(k: PieceKind) -> int {
    match k {
        PieceKind::Pawn => 100,
        PieceKind::Knight => 300,
        PieceKind::Bishop => 320,
        PieceKind::Rook => 500,
        PieceKind::Queen => 900,
        _ => 0,
    }
}

/// The squares below `n` whose bits are set in an occupancy word, in
/// ascending order.
pub open spec fn spec_squares(bits: u64, n: int) -> Seq<u8>
    decreases n,
{
    if n <= 0 {
        Seq::empty()
    } else if bits & (1u64 << ((n - 1) as u64)) != 0 {
        spec_squares(bits, n - 1).push((n - 1) as u8)
    } else {
        spec_squares(bits, n - 1)
    }
}

proof fn lemma_spec_squares_wf(bits: u64, n: int)
    requires
        0 <= n <= 64,
    ensures
        sqs_wf(spec_squares(bits, n)),
        spec_squares(bits, n).len() <= n,
    decreases n,
{
    if n > 0 {
        lemma_spec_squares_wf(bits, n - 1);
    }
}

/// Exactly the squares whose bits are set in a 64-bit occupancy word, in
/// ascending order.
pub fn squares_of(bits: u64) -> (r: Vec<u8>)
    ensures
        r@ == spec_squares(bits, 64),
        sqs_wf(r@),
{
    let mut out: Vec<u8> = Vec::new();
    let mut sq: u8 = 0;
    while sq < 64
        invariant
            sq <= 64,
            out@ == spec_squares(bits, sq as int),
            out@.len() <= sq,
            forall|i: int| 0 <= i < out@.len() ==> #[trigger] out@[i] < 64,
        decreases 64 - sq,
    {
        if bits & (1u64 << sq) != 0 {
            out.push(sq);
        }
        sq = sq + 1;
    }
    out
}

/// One side's square lists as the board's occupancy words describe them.
pub open spec fn spec_side(origin: Seq<char>, hist: Seq<u16>, white: bool) -> SideView {
    SideView {
        pawns: spec_squares(piece_bits_of(origin, hist, white, 1), 64),
        knights: spec_squares(piece_bits_of(origin, hist, white, 2), 64),
        bishops: spec_squares(piece_bits_of(origin, hist, white, 3), 64),
        rooks: spec_squares(piece_bits_of(origin, hist, white, 4), 64),
        queens: spec_squares(piece_bits_of(origin, hist, white, 5), 64),
        kings: spec_squares(piece_bits_of(origin, hist, white, 6), 64),
    }
}

/// The whole evaluation of the position at `(origin, hist)` under the
/// given tables, from the mover's point of view.
pub open spec fn spec_board_eval(t: PieceSquareTables, origin: Seq<char>, hist: Seq<u16>) -> int {
    spec_evaluate(
        t,
        spec_side(origin, hist, true),
        spec_side(origin, hist, false),
        white_of(origin, hist),
    )
}

/// Sums one positional table over a list of squares.
fn sum_flat(t: &Vec<i32>, sqs: &Vec<u8>, white: bool) -> (r: i64)
    requires
        table_wf(t@),
        sqs_wf(sqs@),
    ensures
        r == spec_sum_flat(t@, sqs@, white),
        -3200 <= r <= 3200,
{
    let mut total: i64 = 0;
    let mut i: usize = 0;
    while i < sqs.len()
        invariant
            table_wf(t@),
            sqs_wf(sqs@),
            i <= sqs@.len(),
            total == spec_sum_flat(t@, sqs@.take(i as int), white),
            -50 * (i as int) <= total <= 50 * (i as int),
        decreases sqs@.len() - i,
    {
        proof {
            assert(sqs@.take(i + 1).drop_last() == sqs@.take(i as int));
            assert(sqs@.take(i + 1).last() == sqs@[i as int]);
        }
        let v = PieceSquareTables::flat_at(t, sqs[i], white);
        total = total + v as i64;
        i = i + 1;
    }
    proof {
        assert(sqs@.take(sqs@.len() as int) == sqs@);
    }
    total
}

/// Sums the tapered king value (scaled by 1620) over a list of squares.
fn sum_king(t: &PieceSquareTables, sqs: &Vec<u8>, white: bool, w: i32) -> (r: i64)
    requires
        t.wf(),
        sqs_wf(sqs@),
        0 <= w <= 1620,
    ensures
        r == spec_sum_king(t.king_mid@, t.king_end@, sqs@, white, w as int),
        -15552000 <= r <= 15552000,
{
    let mut total: i64 = 0;
    let mut i: usize = 0;
    while i < sqs.len()
        invariant
            t.wf(),
            sqs_wf(sqs@),
            0 <= w <= 1620,
            i <= sqs@.len(),
            total == spec_sum_king(t.king_mid@, t.king_end@, sqs@.take(i as int), white, w as int),
            -243000 * (i as int) <= total <= 243000 * (i as int),
        decreases sqs@.len() - i,
    {
        proof {
            assert(sqs@.take(i + 1).drop_last() == sqs@.take(i as int));
            assert(sqs@.take(i + 1).last() == sqs@[i as int]);
        }
        let v = t.eval_king(sqs[i], white, w);
        total = total + v;
        i = i + 1;
    }
    proof {
        assert(sqs@.take(sqs@.len() as int) == sqs@);
    }
    total
}

/// The classic evaluator; it owns its positional tables.
pub struct ClassicEvaluator {
    pub tables: PieceSquareTables,
}

/// A leaf scorer for the search: any implementation promises a bounded
/// score and keeps its own well-formedness.
pub trait Evaluator: Sized {
    spec fn wf(&self) -> bool;

    fn evaluate_board(&mut self, pos: &Position) -> (r: i32)
        requires
            old(self).wf(),
        ensures
            final(self).wf(),
            -400000 <= r <= 400000,
    ;
}

impl ClassicEvaluator {
    pub fn new() -> (r: Self)
        ensures
            r.wf(),
            crate::piece_square_tables::canonical(r.tables),
    {
        ClassicEvaluator { tables: PieceSquareTables::new() }
    }

    /// Value of the piece a move lands on (0 for an empty square): the
    /// "victim" term of capture ordering.
    pub fn capture_value(board: &Position, m: crate::moves::Mv) -> (r: i32)
        ensures
            r == spec_piece_value(
                code_to_kind(
                    piece_at_of(
                        board.origin(),
                        board.hist(),
                        crate::moves::spec_dest(m.data) as u8,
                    ),
                ),
            ),
            0 <= r <= 900,
    {
        Self::piece_value(board.piece_kind_at(m.get_dest()))
    }

    /// Centipawn value of a piece kind.
    pub fn piece_value(piece: PieceKind) -> (r: i32)
        ensures
            r == spec_piece_value(piece),
            0 <= r <= 900,
    {
        match piece {
            PieceKind::Pawn => PAWN_VALUE,
            PieceKind::Knight => KNIGHT_VALUE,
            PieceKind::Bishop => BISHOP_VALUE,
            PieceKind::Rook => ROOK_VALUE,
            PieceKind::Queen => QUEEN_VALUE,
            _ => 0,
        }
    }

    /// Endgame weight for a side's non-pawn material, as a numerator out
    /// of 1620: 1620 (fully endgame) at no material, 0 from the threshold
    /// `ENDGAME_MATERIAL_START` up, decreasing linearly in between.
    pub fn endgame_phase_weight(material_count_without_pawns: i32) -> (w: i32)
        requires
            material_count_without_pawns >= 0,
        ensures
            w == spec_weight(material_count_without_pawns as int),
            0 <= w <= 1620,
            material_count_without_pawns == 0 ==> w == 1620,
            material_count_without_pawns >= ENDGAME_MATERIAL_START ==> w == 0,
    {
        if material_count_without_pawns >= ENDGAME_MATERIAL_START {
            0
        } else {
            ENDGAME_MATERIAL_START - material_count_without_pawns
        }
    }

    /// The evaluation over extracted square lists: exactly the specified
    /// material plus doubled, rounded piece-square score, from the mover's
    /// point of view.
    pub fn evaluate_squares(
        &self,
        white_side: &SideSquares,
        black_side: &SideSquares,
        white_to_move: bool,
    ) -> (r: i32)
        requires
            self.wf(),
            side_wf(white_side@),
            side_wf(black_side@),
        ensures
            r == spec_evaluate(self.tables, white_side@, black_side@, white_to_move),
            -400000 <= r <= 400000,
    {
        let w = self.side_score(white_side, true);
        let b = self.side_score(black_side, false);
        proof {
            let d = spec_side_score(self.tables, white_side@, true) - spec_side_score(
                self.tables,
                black_side@,
                false,
            );
            assert(d * 1int == d);
            assert(d * -1int == -d);
        }
        if white_to_move {
            (w - b) as i32
        } else {
            (b - w) as i32
        }
    }

    /// One side's piece-square score, scaled by 1620: the plain tables
    /// summed over the side's men, plus the tapered king term for the
    /// side's own endgame weight.
    pub fn evaluate_piece_square(&self, side: &SideSquares, white: bool) -> (r: i64)
        requires
            self.wf(),
            side_wf(side@),
        ensures
            r == spec_psq_scaled(self.tables, side@, white),
            -42000000 <= r <= 42000000,
    {
        let knights = side.knights.len() as i64;
        let bishops = side.bishops.len() as i64;
        let rooks = side.rooks.len() as i64;
        let queens = side.queens.len() as i64;
        let nonpawn: i64 = 300 * knights + 320 * bishops + 500 * rooks + 900 * queens;
        let w: i32 = Self::endgame_phase_weight(if nonpawn >= 1620 {
            1620
        } else {
            nonpawn as i32
        });
        proof {
            assert(spec_weight(spec_nonpawn_material(side@)) == w as int);
        }
        let flats: i64 = sum_flat(&self.tables.pawn, &side.pawns, white) + sum_flat(
            &self.tables.knight,
            &side.knights,
            white,
        ) + sum_flat(&self.tables.bishop, &side.bishops, white) + sum_flat(
            &self.tables.rook,
            &side.rooks,
            white,
        ) + sum_flat(&self.tables.queen, &side.queens, white);
        let kings: i64 = sum_king(&self.tables, &side.kings, white, w);
        1620 * flats + kings
    }

    /// One side's full score.
    fn side_score(&self, side: &SideSquares, white: bool) -> (r: i64)
        requires
            self.wf(),
            side_wf(side@),
        ensures
            r == spec_side_score(self.tables, side@, white),
            -200000 <= r <= 200000,
    {
        let pawns = side.pawns.len() as i64;
        let knights = side.knights.len() as i64;
        let bishops = side.bishops.len() as i64;
        let rooks = side.rooks.len() as i64;
        let queens = side.queens.len() as i64;
        let material: i64 = 100 * pawns + 300 * knights + 320 * bishops + 500 * rooks + 900
            * queens;
        let scaled: i64 = self.evaluate_piece_square(side, white);
        material + round_psq(scaled)
    }

    /// Lists each side's occupied squares as the board reports them.
    fn extract_side(pos: &Position, white: bool) -> (r: SideSquares)
        ensures
            r@ == spec_side(pos.origin(), pos.hist(), white),
            side_wf(r@),
    {
        SideSquares {
            pawns: squares_of(pos.piece_bits(white, PieceKind::Pawn)),
            knights: squares_of(pos.piece_bits(white, PieceKind::Knight)),
            bishops: squares_of(pos.piece_bits(white, PieceKind::Bishop)),
            rooks: squares_of(pos.piece_bits(white, PieceKind::Rook)),
            queens: squares_of(pos.piece_bits(white, PieceKind::Queen)),
            kings: squares_of(pos.piece_bits(white, PieceKind::King)),
        }
    }
}

impl ClassicEvaluator {
    /// The static evaluation of a position: exactly the specified
    /// material-plus-positional score over the board's occupancy words,
    /// from the mover's point of view. Reading a position changes nothing.
    pub fn evaluate_position(&self, pos: &Position) -> (r: i32)
        requires
            self.wf(),
        ensures
            r == spec_board_eval(self.tables, pos.origin(), pos.hist()),
            -400000 <= r <= 400000,
    {
        let white_side = Self::extract_side(pos, true);
        let black_side = Self::extract_side(pos, false);
        let white_to_move = pos.white_to_move();
        self.evaluate_squares(&white_side, &black_side, white_to_move)
    }
}

impl Evaluator for ClassicEvaluator {
    open spec fn wf(&self) -> bool {
        self.tables.wf()
    }

    fn evaluate_board(&mut self, pos: &Position) -> (r: i32)
        ensures
            *final(self) == *old(self),
            r == spec_board_eval(old(self).tables, pos.origin(), pos.hist()),
    {
        self.evaluate_position(pos)
    }
}

/// `round(2 * (num / 1620))`, half away from zero, for a scaled sum.
fn round_psq(num: i64) -> (r: i64)
    requires
        -42000000 <= num <= 42000000,
    ensures
        r == spec_round_psq(num as int),
        -52000 <= r <= 52000,
{
    if num >= 0 {
        (2 * num + 810) / 1620
    } else {
        -((2 * (-num) + 810) / 1620)
    }
}

/// Each square carried to the one the other side sees it from.
pub open spec fn mirror_sqs(s: Seq<u8>) -> Seq<u8> {
    s.map(|i: int, x: u8| (63 - x) as u8)
}

pub open spec fn mirror_side(s: SideView) -> SideView {
    SideView {
        pawns: mirror_sqs(s.pawns),
        knights: mirror_sqs(s.knights),
        bishops: mirror_sqs(s.bishops),
        rooks: mirror_sqs(s.rooks),
        queens: mirror_sqs(s.queens),
        kings: mirror_sqs(s.kings),
    }
}

proof fn lemma_sum_flat_mirror(t: Seq<i32>, sqs: Seq<u8>, white: bool)
    requires
        table_wf(t),
        sqs_wf(sqs),
    ensures
        spec_sum_flat(t, mirror_sqs(sqs), !white) == spec_sum_flat(t, sqs, white),
    decreases sqs.len(),
{
    if sqs.len() == 0 {
        assert(mirror_sqs(sqs) =~= Seq::<u8>::empty());
    } else {
        assert(mirror_sqs(sqs).drop_last() =~= mirror_sqs(sqs.drop_last()));
        lemma_sum_flat_mirror(t, sqs.drop_last(), white);
        assert(mirror_sqs(sqs).last() == (63 - sqs.last()) as u8);
    }
}

proof fn lemma_sum_king_mirror(mid: Seq<i32>, end: Seq<i32>, sqs: Seq<u8>, white: bool, w: int)
    requires
        table_wf(mid),
        table_wf(end),
        sqs_wf(sqs),
    ensures
        spec_sum_king(mid, end, mirror_sqs(sqs), !white, w) == spec_sum_king(
            mid,
            end,
            sqs,
            white,
            w,
        ),
    decreases sqs.len(),
{
    if sqs.len() == 0 {
        assert(mirror_sqs(sqs) =~= Seq::<u8>::empty());
    } else {
        assert(mirror_sqs(sqs).drop_last() =~= mirror_sqs(sqs.drop_last()));
        lemma_sum_king_mirror(mid, end, sqs.drop_last(), white, w);
        assert(mirror_sqs(sqs).last() == (63 - sqs.last()) as u8);
    }
}

proof fn lemma_side_score_mirror(t: PieceSquareTables, s: SideView, white: bool)
    requires
        t.wf(),
        side_wf(s),
    ensures
        spec_side_score(t, mirror_side(s), !white) == spec_side_score(t, s, white),
{
    lemma_sum_flat_mirror(t.pawn@, s.pawns, white);
    lemma_sum_flat_mirror(t.knight@, s.knights, white);
    lemma_sum_flat_mirror(t.bishop@, s.bishops, white);
    lemma_sum_flat_mirror(t.rook@, s.rooks, white);
    lemma_sum_flat_mirror(t.queen@, s.queens, white);
    lemma_sum_king_mirror(
        t.king_mid@,
        t.king_end@,
        s.kings,
        white,
        spec_weight(spec_nonpawn_material(s)),
    );
}

/// Mirror symmetry of the evaluator: carrying each side's men to the
/// squares the other side sees them from, and swapping the two sides,
/// negates the evaluation, exactly, for either side to move.
pub proof fn lemma_evaluate_mirror(
    t: PieceSquareTables,
    white_side: SideView,
    black_side: SideView,
    white_to_move: bool,
)
    requires
        t.wf(),
        side_wf(white_side),
        side_wf(black_side),
    ensures
        spec_evaluate(t, mirror_side(black_side), mirror_side(white_side), white_to_move)
            == -spec_evaluate(t, white_side, black_side, white_to_move),
{
    lemma_side_score_mirror(t, black_side, false);
    lemma_side_score_mirror(t, white_side, true);
    let d = spec_side_score(t, white_side, true) - spec_side_score(t, black_side, false);
    assert(d * 1int == d);
    assert(d * -1int == -d);
    assert((-d) * 1int == -d);
    assert((-d) * -1int == d);
}

} // verus!
