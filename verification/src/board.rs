//! The board collaborator. A `Position` wraps the outside board type and
//! keeps, beside it, what the verified search logic needs to reason about:
//!
//!  * the zobrist key of the current position and of every position still
//!    on the undo stack (executable state, used for the transposition table
//!    and for repetition detection);
//!  * a ghost model: the FEN string the position was built from (`origin`),
//!    the raw words of the moves applied since (`hist`), and a bound on the
//!    men on the board (`forcing`) that shrinks on every capture or
//!    promotion and so bounds quiescence recursion.
//!
//! A board value is a deterministic function of `(origin, hist)`, so each
//! read of it gets a name: an uninterpreted spec function of those two,
//! applied in the `ensures` of the wrapper that makes the outside call.
//! Every function whose body calls into the outside crate is marked
//! `external_body` and carries the contract this library relies on.

use vstd::prelude::*;
use crate::moves::Mv;

verus! {

/// Piece kinds as plain values; `Empty` stands for an empty square.
#[derive(Clone, Copy, PartialEq, Eq, Structural, Debug)]
pub enum PieceKind {
    Empty,
    Pawn,
    Knight,
    Bishop,
    Rook,
    Queen,
    King,
}

/// The numeric code of a piece kind, as the board names use it.
pub open spec fn kind_code(k: PieceKind) -> u8 {
    match k {
        PieceKind::Empty => 0,
        PieceKind::Pawn => 1,
        PieceKind::Knight => 2,
        PieceKind::Bishop => 3,
        PieceKind::Rook => 4,
        PieceKind::Queen => 5,
        PieceKind::King => 6,
    }
}

/// The piece kind behind a numeric code; codes past the kings are empty.
pub open spec fn code_to_kind(c: u8) -> PieceKind {
    if c == 1 {
        PieceKind::Pawn
    } else if c == 2 {
        PieceKind::Knight
    } else if c == 3 {
        PieceKind::Bishop
    } else if c == 4 {
        PieceKind::Rook
    } else if c == 5 {
        PieceKind::Queen
    } else if c == 6 {
        PieceKind::King
    } else {
        PieceKind::Empty
    }
}

#[verifier::external_type_specification]
#[verifier::external_body]
pub struct ExBoard(pleco::Board);

/// The legal moves the board generates at `(origin, hist)`, in the
/// generator's order, as raw move words.
pub uninterp spec fn legal_of(origin: Seq<char>, hist: Seq<u16>) -> Seq<u16>;

/// The forcing moves (captures and promotions) the board generates at
/// `(origin, hist)` when its mover is not in check, in order.
pub uninterp spec fn caps_of(origin: Seq<char>, hist: Seq<u16>) -> Seq<u16>;

/// Whether the mover at `(origin, hist)` is checkmated.
pub uninterp spec fn checkmate_of(origin: Seq<char>, hist: Seq<u16>) -> bool;

/// Whether the board reports stalemate at `(origin, hist)`.
pub uninterp spec fn stalemate_of(origin: Seq<char>, hist: Seq<u16>) -> bool;

/// The board's count of reversible half-moves at `(origin, hist)`.
pub uninterp spec fn rule50_of(origin: Seq<char>, hist: Seq<u16>) -> i16;

/// Whether the mover at `(origin, hist)` stands in check.
pub uninterp spec fn in_check_of(origin: Seq<char>, hist: Seq<u16>) -> bool;

/// Whether white is to move at `(origin, hist)`.
pub uninterp spec fn white_of(origin: Seq<char>, hist: Seq<u16>) -> bool;

/// The occupancy word (one bit per square) of the given side's pieces of
/// the given kind code at `(origin, hist)`.
pub uninterp spec fn piece_bits_of(origin: Seq<char>, hist: Seq<u16>, white: bool, kind: u8) -> u64;

/// The kind code of the piece on a square at `(origin, hist)`.
pub uninterp spec fn piece_at_of(origin: Seq<char>, hist: Seq<u16>, sq: u8) -> u8;

/// The FEN string of the position at `(origin, hist)`.
pub uninterp spec fn fen_of(origin: Seq<char>, hist: Seq<u16>) -> Seq<char>;

/// The raw word of the legal move a coordinate string names at
/// `(origin, hist)`, if it names one there.
pub uninterp spec fn uci_move_of(origin: Seq<char>, hist: Seq<u16>, s: Seq<char>) -> Option<u16>;

/// Whether a FEN string is one the board builder accepts: well-formed for
/// its parser and inside this crate's guard (exactly one king a side, only
/// plain castling letters, counters in ranges the builder's arithmetic
/// bears).
pub uninterp spec fn fen_ok(s: Seq<char>) -> bool;

/// The FEN string the standard initial position is built from.
pub open spec fn start_fen() -> Seq<char> {
    "rnbqkbnr/pppppppp/8/8/8/8/PPPPPPPP/RNBQKBNR w KQkq - 0 1"@
}

/// The raw move words of a generated move list.
pub open spec fn move_datas(s: Seq<Mv>) -> Seq<u16> {
    s.map_values(|m: Mv| m.data)
}

/// Ghost model of a position: where it came from, how it was reached, and
/// the forcing bound at each level of the undo stack.
pub ghost struct PosModel {
    pub origin: Seq<char>,
    pub hist: Seq<u16>,
    pub forcing: nat,
    pub stack: Seq<nat>,
}

/// A legal chess position together with its undo history.
pub struct Position {
    board: pleco::Board,
    /// Zobrist keys of the positions beneath the current one, oldest first.
    past: Vec<u64>,
    /// Zobrist key of the current position.
    key: u64,
    model: Ghost<PosModel>,
}

impl Position {
    /// Zobrist key of the current position.
    pub closed spec fn spec_key(self) -> u64 {
        self.key
    }

    /// Keys of the positions still on the undo stack.
    pub closed spec fn spec_past(self) -> Seq<u64> {
        self.past@
    }

    /// The FEN string this position chain was built from.
    pub closed spec fn origin(self) -> Seq<char> {
        self.model@.origin
    }

    /// The raw words of the moves applied since construction, in order.
    pub closed spec fn hist(self) -> Seq<u16> {
        self.model@.hist
    }

    /// Bound on men plus pawns at the current position.
    pub closed spec fn forcing(self) -> nat {
        self.model@.forcing
    }

    /// The forcing bounds of the positions on the undo stack.
    pub closed spec fn frames(self) -> Seq<nat> {
        self.model@.stack
    }

    /// A move the board's generated lists hold for the current position.
    pub open spec fn playable(self, data: u16) -> bool {
        ||| legal_of(self.origin(), self.hist()).contains(data)
        ||| caps_of(self.origin(), self.hist()).contains(data)
    }

    /// The model runs in step with the undo stack and never counts more
    /// than the sixty-four squares can hold.
    pub closed spec fn inv(self) -> bool {
        &&& self.frames().len() == self.past@.len()
        &&& self.hist().len() == self.past@.len()
        &&& self.forcing() <= 128
        &&& forall|i: int| 0 <= i < self.frames().len() ==> #[trigger] self.frames()[i] <= 128
    }

    /// The model's bound on the forcing count, for callers that cannot
    /// see the invariant's body.
    pub proof fn lemma_inv_forcing(&self)
        requires
            self.inv(),
        ensures
            self.forcing() <= 128,
            self.hist().len() == self.spec_past().len(),
    {
    }

    /// Relies on `pleco::Board::start_pos` and `pleco::Board::zobrist`: the
    /// standard initial position beside its zobrist key.
    #[verifier::external_body]
    fn raw_start_pos() -> (pleco::Board, u64) {
        let board = pleco::Board::start_pos();
        let key = board.zobrist();
        (board, key)
    }

    /// Relies on std's string splitting, matching and parsing: whether a
    /// FEN string is inside this crate's guard — exactly one king a side,
    /// only plain castling letters, move counters in ranges the board
    /// builder's arithmetic bears (a little stricter than it needs).
    /// The board's own parser fails, rather than erring, outside these.
    #[verifier::external_body]
    fn fen_precheck(fen: &str) -> bool {
        let f: Vec<&str> = fen.split_whitespace().collect();
        let p = match f.get(0) {
            Some(p) => *p,
            None => return false,
        };
        if p.matches('K').count() != 1 || p.matches('k').count() != 1 {
            return false;
        }
        if f.len() > 2 && !f[2].chars().all(|c| matches!(c, 'K' | 'Q' | 'k' | 'q' | '-')) {
            return false;
        }
        if f.len() > 4 && f[4] != "-" && !matches!(f[4].parse::<i32>(), Ok(0..=1000)) {
            return false;
        }
        f.len() <= 5 || f[5] == "-" || matches!(f[5].parse::<u32>(), Ok(1..=32768))
    }

    /// Relies on `pleco::Board::from_fen` and `pleco::Board::zobrist`:
    /// builds the described position beside its zobrist key; `fen_ok`
    /// names the strings it accepts, which are those inside the
    /// pre-check's guard that the board's parser takes.
    #[verifier::external_body]
    fn raw_from_fen(fen: &str) -> (r: Option<(pleco::Board, u64)>)
        ensures
            r is Some <==> fen_ok(fen@),
    {
        if !Self::fen_precheck(fen) {
            return None;
        }
        match pleco::Board::from_fen(fen) {
            Ok(board) => {
                let key = board.zobrist();
                Some((board, key))
            },
            Err(_) => None,
        }
    }

    /// The standard initial position, with nothing to undo.
    pub fn start_pos() -> (r: Position)
        ensures
            r.inv(),
            r.origin() == start_fen(),
            r.hist() == Seq::<u16>::empty(),
            r.spec_past() == Seq::<u64>::empty(),
            r.frames() == Seq::<nat>::empty(),
    {
        let (board, key) = Self::raw_start_pos();
        Position {
            board,
            past: Vec::new(),
            key,
            model: Ghost(
                PosModel {
                    origin: start_fen(),
                    hist: Seq::empty(),
                    forcing: 128,
                    stack: Seq::empty(),
                },
            ),
        }
    }

    /// The position a FEN string describes — exactly when the string is
    /// one the board builder accepts — or nothing.
    pub fn from_fen(fen: &str) -> (r: Option<Position>)
        ensures
            r is Some <==> fen_ok(fen@),
            r matches Some(p) ==> {
                &&& p.inv()
                &&& p.origin() == fen@
                &&& p.hist() == Seq::<u16>::empty()
                &&& p.spec_past() == Seq::<u64>::empty()
                &&& p.frames() == Seq::<nat>::empty()
            },
    {
        match Self::raw_from_fen(fen) {
            Some((board, key)) => Some(
                Position {
                    board,
                    past: Vec::new(),
                    key,
                    model: Ghost(
                        PosModel {
                            origin: fen@,
                            hist: Seq::empty(),
                            forcing: 128,
                            stack: Seq::empty(),
                        },
                    ),
                },
            ),
            None => None,
        }
    }

    /// Relies on `pleco::Board::fen`: the FEN string of the current
    /// position.
    #[verifier::external_body]
    pub fn fen(&self) -> (r: String)
        ensures
            r@ == fen_of(self.origin(), self.hist()),
    {
        self.board.fen()
    }

    /// Relies on `pleco::Board::turn`.
    #[verifier::external_body]
    pub fn white_to_move(&self) -> (r: bool)
        ensures
            r == white_of(self.origin(), self.hist()),
    {
        self.board.turn() == pleco::Player::White
    }

    /// Relies on `pleco::Board::rule_50`: half-moves since the last capture
    /// or pawn move.
    #[verifier::external_body]
    fn rule_50(&self) -> (r: i16)
        ensures
            r == rule50_of(self.origin(), self.hist()),
    {
        self.board.rule_50()
    }

    /// Relies on `pleco::Board::stalemate`: the side to move has no legal
    /// move and is not in check (the board also reports its fifty-move
    /// counter running out here).
    #[verifier::external_body]
    pub fn stalemate(&self) -> (r: bool)
        ensures
            r == stalemate_of(self.origin(), self.hist()),
    {
        self.board.stalemate()
    }

    /// Relies on `pleco::Board::checkmate`: the side to move is in check
    /// with no legal move.
    #[verifier::external_body]
    pub fn checkmate(&self) -> (r: bool)
        ensures
            r == checkmate_of(self.origin(), self.hist()),
    {
        self.board.checkmate()
    }

    /// Relies on `pleco::Board::in_check`.
    #[verifier::external_body]
    pub fn in_check(&self) -> (r: bool)
        ensures
            r == in_check_of(self.origin(), self.hist()),
    {
        self.board.in_check()
    }

    /// Relies on `pleco::Board::ply`: half-moves played in the game so far.
    #[verifier::external_body]
    pub fn ply(&self) -> (r: u16) {
        self.board.ply()
    }

    /// Relies on `pleco::Board::piece_bb`: the occupancy bits (one per
    /// square, 64 in all) of the given side's pieces of the given kind.
    #[verifier::external_body]
    pub fn piece_bits(&self, white: bool, kind: PieceKind) -> (r: u64)
        ensures
            r == piece_bits_of(self.origin(), self.hist(), white, kind_code(kind)),
    {
        let player = if white { pleco::Player::White } else { pleco::Player::Black };
        let pt = match kind {
            PieceKind::Empty => pleco::PieceType::None,
            PieceKind::Pawn => pleco::PieceType::P,
            PieceKind::Knight => pleco::PieceType::N,
            PieceKind::Bishop => pleco::PieceType::B,
            PieceKind::Rook => pleco::PieceType::R,
            PieceKind::Queen => pleco::PieceType::Q,
            PieceKind::King => pleco::PieceType::K,
        };
        self.board.piece_bb(player, pt).0
    }

    /// Relies on `pleco::Board::piece_at_sq` and `pleco::Piece::type_of`:
    /// the kind of the piece standing on the square, `Empty` for none.
    #[verifier::external_body]
    pub fn piece_kind_at(&self, sq: u8) -> (r: PieceKind)
        requires
            sq < 64,
        ensures
            kind_code(r) == piece_at_of(self.origin(), self.hist(), sq),
    {
        match self.board.piece_at_sq(pleco::SQ(sq)).type_of() {
            pleco::PieceType::P => PieceKind::Pawn,
            pleco::PieceType::N => PieceKind::Knight,
            pleco::PieceType::B => PieceKind::Bishop,
            pleco::PieceType::R => PieceKind::Rook,
            pleco::PieceType::Q => PieceKind::Queen,
            pleco::PieceType::K => PieceKind::King,
            _ => PieceKind::Empty,
        }
    }

    /// Relies on `pleco::Board::generate_moves`: exactly the legal moves
    /// of the current position, each of which may be applied to it. A
    /// generated move is never the null word (its squares differ), and an
    /// empty list means the position is checkmate or stalemate (the board
    /// derives both predicates from this very list).
    #[verifier::external_body]
    pub fn generate_moves(&self) -> (r: Vec<Mv>)
        ensures
            move_datas(r@) == legal_of(self.origin(), self.hist()),
            forall|i: int| 0 <= i < r@.len() ==> (#[trigger] r@[i]).data != 0,
            r@.len() == 0 ==> stalemate_of(self.origin(), self.hist()) || checkmate_of(
                self.origin(),
                self.hist(),
            ),
    {
        let list = self.board.generate_moves();
        let mut out: Vec<Mv> = Vec::with_capacity(list.len());
        for m in list.iter() {
            out.push(Mv { data: m.get_raw() });
        }
        out
    }

    /// Relies on `pleco::Board::generate_moves_of_type` with the capture
    /// kind: every returned move is legal here, and each is a capture or a
    /// promotion, so playing it lowers the count of men plus pawns. The
    /// generator refuses a mover in check, so this wrapper returns the
    /// empty list then (and a caller stands pat) rather than ask it.
    #[verifier::external_body]
    pub fn generate_captures(&self) -> (r: Vec<Mv>)
        ensures
            move_datas(r@) == caps_of(self.origin(), self.hist()),
            forall|i: int| 0 <= i < r@.len() ==> (#[trigger] r@[i]).data != 0,
    {
        if self.board.in_check() {
            return Vec::new();
        }
        let list = self.board.generate_moves_of_type(pleco::core::GenTypes::Captures);
        let mut out: Vec<Mv> = Vec::with_capacity(list.len());
        for m in list.iter() {
            out.push(Mv { data: m.get_raw() });
        }
        out
    }

    /// Relies on `pleco::Board::apply_move`: plays a move from the board's
    /// own generated lists for this position. The prior position goes on
    /// the undo stack; a forcing move removes a man or turns a pawn into a
    /// piece, so the forcing count strictly drops, and no move ever raises
    /// it.
    #[verifier::external_body]
    pub fn apply_move(&mut self, m: Mv)
        requires
            old(self).inv(),
            old(self).playable(m.data),
        ensures
            final(self).inv(),
            final(self).origin() == old(self).origin(),
            final(self).hist() == old(self).hist().push(m.data),
            final(self).spec_past() == old(self).spec_past().push(old(self).spec_key()),
            final(self).frames() == old(self).frames().push(old(self).forcing()),
            final(self).forcing() <= old(self).forcing(),
            caps_of(old(self).origin(), old(self).hist()).contains(m.data)
                ==> final(self).forcing() < old(self).forcing(),
    {
        self.past.push(self.key);
        self.board.apply_move(pleco::BitMove::new(m.data));
        self.key = self.board.zobrist();
    }

    /// Relies on `pleco::Board::apply_uci_move`: plays the move written in
    /// coordinate notation exactly when the string names a legal move of
    /// the current position (`uci_move_of`), and says so; otherwise the
    /// position is untouched. The applied word is one of the board's own
    /// legal moves.
    #[verifier::external_body]
    pub fn apply_uci_move(&mut self, uci: &str) -> (r: bool)
        requires
            old(self).inv(),
        ensures
            final(self).inv(),
            r == (uci_move_of(old(self).origin(), old(self).hist(), uci@) is Some),
            r ==> {
                let w = uci_move_of(old(self).origin(), old(self).hist(), uci@)->Some_0;
                &&& legal_of(old(self).origin(), old(self).hist()).contains(w)
                &&& w != 0
                &&& final(self).hist() == old(self).hist().push(w)
                &&& final(self).origin() == old(self).origin()
                &&& final(self).spec_past() == old(self).spec_past().push(old(self).spec_key())
                &&& final(self).frames() == old(self).frames().push(old(self).forcing())
                &&& final(self).forcing() <= old(self).forcing()
            },
            !r ==> *final(self) == *old(self),
    {
        let prev = self.key;
        if self.board.apply_uci_move(uci) {
            self.past.push(prev);
            self.key = self.board.zobrist();
            true
        } else {
            false
        }
    }

    /// Relies on `pleco::Board::undo_move`: returns to the position on top
    /// of the undo stack.
    #[verifier::external_body]
    pub fn undo_move(&mut self)
        requires
            old(self).inv(),
            old(self).spec_past().len() > 0,
        ensures
            final(self).inv(),
            final(self).origin() == old(self).origin(),
            final(self).hist() == old(self).hist().drop_last(),
            final(self).spec_past() == old(self).spec_past().drop_last(),
            final(self).frames() == old(self).frames().drop_last(),
            final(self).spec_key() == old(self).spec_past().last(),
            final(self).forcing() == old(self).frames().last(),
    {
        self.board.undo_move();
        self.key = self.past.pop().unwrap();
    }

    /// Relies on `pleco::Board::last_move`: the move that reached the
    /// current position — the last entry of the applied-move history — or
    /// nothing right after construction.
    #[verifier::external_body]
    pub fn last_move(&self) -> (r: Option<Mv>)
        ensures
            self.hist().len() > 0 ==> r == Some(Mv { data: self.hist().last() }),
            self.hist().len() == 0 ==> r is None,
    {
        self.board.last_move().map(|m| Mv { data: m.get_raw() })
    }

    /// Generates the legal moves and plays the given one only if it is
    /// among them; says whether it was.
    pub fn try_apply_move(&mut self, m: Mv) -> (r: bool)
        requires
            old(self).inv(),
        ensures
            final(self).inv(),
            r == legal_of(old(self).origin(), old(self).hist()).contains(m.data),
            r ==> {
                &&& final(self).origin() == old(self).origin()
                &&& final(self).hist() == old(self).hist().push(m.data)
                &&& final(self).spec_past() == old(self).spec_past().push(old(self).spec_key())
                &&& final(self).frames() == old(self).frames().push(old(self).forcing())
            },
            !r ==> *final(self) == *old(self),
    {
        let legal = self.generate_moves();
        let mut i: usize = 0;
        while i < legal.len()
            invariant
                *self == *old(self),
                self.inv(),
                move_datas(legal@) == legal_of(self.origin(), self.hist()),
                i <= legal@.len(),
                forall|j: int| 0 <= j < i ==> (#[trigger] legal@[j]).data != m.data,
            decreases legal@.len() - i,
        {
            if legal[i].data == m.data {
                proof {
                    assert(move_datas(legal@)[i as int] == m.data);
                    assert(legal_of(self.origin(), self.hist()).contains(m.data));
                }
                self.apply_move(m);
                return true;
            }
            i = i + 1;
        }
        proof {
            if legal_of(self.origin(), self.hist()).contains(m.data) {
                let md = move_datas(legal@);
                let j = choose|j: int| 0 <= j < md.len() && md[j] == m.data;
                assert(legal@[j].data == m.data);
            }
        }
        false
    }

    /// Zobrist key of the current position (cached when it was reached).
    pub fn zobrist(&self) -> (r: u64)
        ensures
            r == self.spec_key(),
    {
        self.key
    }

    /// The fifty-move rule as the board counts it: fifty reversible
    /// half-moves since the last capture or pawn move.
    pub fn fifty_move_rule(&self) -> (r: bool)
        ensures
            r == (rule50_of(self.origin(), self.hist()) >= 50),
    {
        self.rule_50() >= 50
    }

    /// True when the current position already stands at least twice on the
    /// undo stack, so that playing into it a third time is a draw.
    pub fn threefold_repetition(&self) -> (r: bool)
        ensures
            r == (self.spec_past().filter(|k: u64| k == self.spec_key()).len() >= 2),
    {
        let mut count: u64 = 0;
        let mut i: usize = 0;
        while i < self.past.len()
            invariant
                i <= self.past@.len(),
                count == self.spec_past().take(i as int).filter(
                    |k: u64| k == self.spec_key(),
                ).len(),
                count <= i,
            decreases self.past@.len() - i,
        {
            proof {
                assert(self.spec_past().take(i + 1) == self.spec_past().take(i as int).push(
                    self.spec_past()[i as int],
                ));
                reveal_with_fuel(Seq::filter, 2);
                assert(self.spec_past().take(i as int).push(self.spec_past()[i as int]).drop_last()
                    == self.spec_past().take(i as int));
            }
            if self.past[i] == self.key {
                count = count + 1;
            }
            i = i + 1;
        }
        proof {
            assert(self.spec_past().take(self.past@.len() as int) == self.spec_past());
        }
        count >= 2
    }

    /// Whether the position is an immediate draw: stalemate, the fifty-move
    /// rule, or a third repetition.
    pub open spec fn spec_drawn(self) -> bool {
        ||| stalemate_of(self.origin(), self.hist())
        ||| rule50_of(self.origin(), self.hist()) >= 50
        ||| self.spec_past().filter(|k: u64| k == self.spec_key()).len() >= 2
    }
}

} // verus!
