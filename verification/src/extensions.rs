//! Search extensions: a forcing position after a move may earn the child
//! search one extra ply, under a hard ceiling over the whole path.

use vstd::prelude::*;
use crate::board::{in_check_of, Position};

verus! {

/// No path through the tree gains more than this many extra plies.
pub const MAX_EXTENSIONS: u8 = 16;

/// The extension earned by a child in check, respecting the path ceiling:
/// one ply when the mover is in check and the ceiling leaves room, else
/// nothing — the ceiling is hard, never a partial grant.
pub open spec fn spec_extension(in_check: bool, num_extensions: u8) -> u8 {
    if in_check && num_extensions + 1 <= MAX_EXTENSIONS {
        1
    } else {
        0
    }
}

/// The extension for a position just reached (the board answers whether
/// its mover is in check), given the extensions already spent on the path.
pub fn calculate_extensions(board: &Position, num_extensions: u8) -> (r: u8)
    requires
        num_extensions <= MAX_EXTENSIONS,
    ensures
        r == spec_extension(in_check_of(board.origin(), board.hist()), num_extensions),
        num_extensions + r <= MAX_EXTENSIONS,
        r <= 1,
{
    extension_for(board.in_check(), num_extensions)
}

/// The same policy over a plain check flag.
pub fn extension_for(in_check: bool, num_extensions: u8) -> (r: u8)
    requires
        num_extensions <= MAX_EXTENSIONS,
    ensures
        r == spec_extension(in_check, num_extensions),
        num_extensions + r <= MAX_EXTENSIONS,
        r <= 1,
{
    let mut extensions: u8 = 0;
    if in_check {
        extensions = 1;
    }
    if extensions + num_extensions > MAX_EXTENSIONS {
        extensions = 0;
    }
    extensions
}

} // verus!
