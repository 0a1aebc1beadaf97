//! A chess move as a 16-bit handle, in the encoding used by the board
//! collaborator: bits 0 to 5 hold the source square, bits 6 to 11 the
//! destination square, and the high bits flag promotions, castles and
//! en passant. The all-zero value is the distinguished null move.

use vstd::prelude::*;

verus! {

/// One move, identified by its raw 16-bit encoding.
#[derive(Clone, Copy, PartialEq, Eq, Structural, Debug)]
pub struct Mv {
    pub data: u16,
}

/// Source square (0 to 63) encoded in a raw move word.
pub open spec fn spec_src(data: u16) -> u16 {
    data & 0x3f
}

/// Destination square (0 to 63) encoded in a raw move word.
pub open spec fn spec_dest(data: u16) -> u16 {
    (data >> 6) & 0x3f
}

impl Mv {
    /// The null move: no transition; used as an "absent" marker.
    pub fn null() -> (r: Mv)
        ensures
            r.data == 0,
    {
        Mv { data: 0 }
    }

    pub fn is_null(self) -> (r: bool)
        ensures
            r == (self.data == 0),
    {
        self.data == 0
    }

    /// The square the moving piece leaves.
    pub fn get_src(self) -> (r: u8)
        ensures
            r == spec_src(self.data),
            r < 64,
    {
        proof {
            let d = self.data;
            assert(d & 0x3f < 64) by (bit_vector);
        }
        (self.data & 0x3f) as u8
    }

    /// The square the moving piece arrives on (for a castle, the rook's square).
    pub fn get_dest(self) -> (r: u8)
        ensures
            r == spec_dest(self.data),
            r < 64,
    {
        proof {
            let d = self.data;
            assert((d >> 6) & 0x3f < 64) by (bit_vector);
        }
        ((self.data >> 6) & 0x3f) as u8
    }
}

} // verus!
