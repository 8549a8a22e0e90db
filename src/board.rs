//! The identifiers that index the weight tables: piece types, sides and
//! squares.

use vstd::prelude::*;

verus! {

pub const SQUARES: usize = 64;

pub const FILES: usize = 8;

pub const PIECE_TYPES: usize = 6;

/// Ranks on which a pawn can stand: all but the two outer ones.
pub const PASSED_PAWN_RANKS: usize = 6;

/// The piece types, in the order of the rows of every per-piece table.
#[derive(Clone, Copy, Debug, PartialEq, Eq, Structural)]
pub enum Piece {
    King,
    Queen,
    Rook,
    Bishop,
    Knight,
    Pawn,
}

impl Piece {
    /// The row of this piece type in a per-piece table.
    pub open spec fn ordinal(self) -> nat {
        match self {
            Piece::King => 0,
            Piece::Queen => 1,
            Piece::Rook => 2,
            Piece::Bishop => 3,
            Piece::Knight => 4,
            Piece::Pawn => 5,
        }
    }

    pub fn index(self) -> (r: usize)
        ensures
            r == self.ordinal(),
            r < PIECE_TYPES,
    {
        match self {
            Piece::King => 0,
            Piece::Queen => 1,
            Piece::Rook => 2,
            Piece::Bishop => 3,
            Piece::Knight => 4,
            Piece::Pawn => 5,
        }
    }
}

#[derive(Clone, Copy, Debug, PartialEq, Eq, Structural)]
pub enum Side {
    White,
    Black,
}

/// A square is a number below 64: row `sq / 8` and file `sq % 8` of a table
/// as it is written, with row 0 the rank farthest from White.
pub open spec fn is_square(sq: int) -> bool {
    0 <= sq < 64
}

/// The square on the same file, with the row counted from the other edge.
pub open spec fn mirror(sq: int) -> int {
    (7 - sq / 8) * 8 + sq % 8
}

pub fn flip(sq: u8) -> (r: u8)
    requires
        is_square(sq as int),
    ensures
        r == mirror(sq as int),
        is_square(r as int),
{
    (7 - sq / 8) * 8 + sq % 8
}

/// `flip(sq)` where `condition` holds, `sq` itself otherwise.
pub fn flip_if(condition: bool, sq: u8) -> (r: u8)
    requires
        is_square(sq as int),
    ensures
        r == (if condition {
            mirror(sq as int)
        } else {
            sq as int
        }),
        is_square(r as int),
{
    if condition {
        flip(sq)
    } else {
        sq
    }
}

/// The file and the row of a square.
pub fn from_square(sq: u8) -> (r: (u8, u8))
    requires
        is_square(sq as int),
    ensures
        r.0 == sq % 8,
        r.1 == sq / 8,
        r.0 < 8,
        r.1 < 8,
{
    (sq % 8, sq / 8)
}

/// Mirroring keeps the file, stays on the board and undoes itself.
pub proof fn lemma_mirror_involution(sq: int)
    requires
        is_square(sq),
    ensures
        is_square(mirror(sq)),
        mirror(sq) % 8 == sq % 8,
        mirror(sq) / 8 == 7 - sq / 8,
        mirror(mirror(sq)) == sq,
{
}

} // verus!
