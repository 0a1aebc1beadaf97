//! The resource budget handed to a search: a wall-clock allowance, a depth
//! ceiling, or both. Time itself stays behind trusted wrappers; the
//! verified search only ever branches on "has the budget run out".

use vstd::prelude::*;

verus! {

#[verifier::external_type_specification]
#[verifier::external_body]
pub struct ExInstant(std::time::Instant);

/// Relies on `std::time::Instant::now`.
#[verifier::external_body]
pub(crate) fn instant_now() -> std::time::Instant {
    std::time::Instant::now()
}

/// Relies on `std::time::Instant::elapsed` and the order on durations:
/// whether more than `limit` has passed since `start`.
#[verifier::external_body]
pub(crate) fn timed_out(start: &std::time::Instant, limit: &std::time::Duration) -> bool {
    start.elapsed() > *limit
}

/// The wall-clock allowance the front end grants one move under a game
/// clock: the side's remaining time split per expected move, then widened
/// by a factor that shrinks as the game leaves its opening (and stays
/// full while the book still plays).
pub open spec fn spec_time_budget(
    ply: int,
    book_enabled: bool,
    side_millis: int,
    moves_to_go: int,
) -> int {
    let n_moves = if book_enabled {
        0int
    } else {
        if ply - 10 < 10 {
            ply - 10
        } else {
            10int
        }
    };
    let tenth = if n_moves == 10 {
        1int
    } else if n_moves <= -10 {
        -1int
    } else {
        0int
    };
    let factor = 2 - tenth;
    (side_millis / moves_to_go) * factor
}

/// Computes the budget in milliseconds, exactly as specified.
pub fn time_budget_millis(
    ply: u16,
    book_enabled: bool,
    side_time_millis: i64,
    moves_to_go: i64,
) -> (r: i64)
    requires
        1 <= moves_to_go,
        0 <= side_time_millis <= 0x4000000000000,
    ensures
        r == spec_time_budget(
            ply as int,
            book_enabled,
            side_time_millis as int,
            moves_to_go as int,
        ),
        0 <= r <= 3 * side_time_millis,
{
    let mut n_moves: i64 = 0;
    if !book_enabled {
        let p: i64 = ply as i64 - 10;
        n_moves = if p < 10 {
            p
        } else {
            10
        };
    }
    let tenth: i64 = if n_moves == 10 {
        1
    } else if n_moves <= -10 {
        -1
    } else {
        0
    };
    let factor: u64 = (2 - tenth) as u64;
    let q: u64 = (side_time_millis as u64) / (moves_to_go as u64);
    proof {
        let qi = q as int;
        let fi = factor as int;
        let si = side_time_millis as int;
        assert(qi <= si) by (nonlinear_arith)
            requires
                qi == si / (moves_to_go as int),
                moves_to_go as int >= 1,
                si >= 0,
        ;
        assert(0 <= qi * fi <= 3 * si) by (nonlinear_arith)
            requires
                0 <= qi <= si,
                1 <= fi <= 3,
        ;
    }
    (q * factor) as i64
}

/// What limits a search: a time allowance, a depth ceiling, or both.
pub struct Limiter {
    time: Option<std::time::Duration>,
    depth: Option<u8>,
}

impl Limiter {
    pub closed spec fn spec_time_set(self) -> bool {
        self.time is Some
    }

    /// The stored time allowance, if one is.
    pub closed spec fn spec_time(self) -> Option<std::time::Duration> {
        self.time
    }

    pub closed spec fn spec_depth(self) -> Option<u8> {
        self.depth
    }

    /// A budget of wall-clock time alone.
    pub fn time(duration: std::time::Duration) -> (r: Self)
        ensures
            r.spec_time() == Some(duration),
            r.spec_time_set(),
            r.spec_depth() is None,
    {
        Limiter { time: Some(duration), depth: None }
    }

    /// A depth ceiling alone.
    pub fn depth(depth: u8) -> (r: Self)
        ensures
            r.spec_time() is None,
            !r.spec_time_set(),
            r.spec_depth() == Some(depth),
    {
        Limiter { time: None, depth: Some(depth) }
    }

    /// Both a depth ceiling and a time allowance.
    pub fn both(depth: u8, time: std::time::Duration) -> (r: Self)
        ensures
            r.spec_time() == Some(time),
            r.spec_time_set(),
            r.spec_depth() == Some(depth),
    {
        Limiter { time: Some(time), depth: Some(depth) }
    }

    pub fn is_time(&self) -> (r: bool)
        ensures
            r == self.spec_time_set(),
    {
        self.time.is_some()
    }

    pub fn is_depth(&self) -> (r: bool)
        ensures
            r == (self.spec_depth() is Some),
    {
        self.depth.is_some()
    }

    pub fn get_time(&self) -> (r: Option<std::time::Duration>)
        ensures
            r == self.spec_time(),
    {
        match &self.time {
            Some(d) => Some(*d),
            None => None,
        }
    }

    pub fn get_depth(&self) -> (r: Option<u8>)
        ensures
            r == self.spec_depth(),
    {
        self.depth
    }
}

} // verus!
