//! Core of a chess engine: negamax alpha-beta search with quiescence,
//! a transposition table with mate-distance correction, killer/history
//! move-ordering heuristics, a tapered material + piece-square evaluator,
//! and a weighted opening book, all specified and verified against
//! mathematical models of their state.
//!
//! The board itself is provided by the `pleco` crate and is opaque here;
//! `board::Position` wraps it and tracks a ghost model (zobrist key,
//! generated move sets, a bound on the number of pieces) that the verified
//! search logic is proved against.

pub mod moves;
pub mod piece_square_tables;
pub mod evaluation;
pub mod killer_moves;
pub mod fixed_map;
pub mod history_heuristics;
pub mod transposition_table;
pub mod board;
pub mod limiter;
pub mod extensions;
pub mod move_ordering;
pub mod search;
pub mod openings;
pub mod perft;
