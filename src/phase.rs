//! The game phase: how much of the non-pawn material is left on the board.

use crate::board::{Piece, PIECE_TYPES};
use vstd::prelude::*;

verus! {

/// What each piece type adds to the phase, by piece ordinal:
/// king, queen, rook, bishop, knight, pawn.
pub const GAME_PHASE_INC: [i32; 6] = [0, 4, 2, 1, 1, 0];

/// The phase of a position with all the starting material, and the most any
/// position counts for.
pub const GAME_PHASE_MAX: i32 = 24;

pub open spec fn phase_inc(p: Piece) -> int {
    GAME_PHASE_INC@[p.ordinal() as int] as int
}

/// The sum of the increments of `pieces`, before clamping.
pub open spec fn raw_phase(pieces: Seq<Piece>) -> int
    decreases pieces.len(),
{
    if pieces.len() == 0 {
        0
    } else {
        raw_phase(pieces.drop_last()) + phase_inc(pieces.last())
    }
}

pub open spec fn clamped_phase(pieces: Seq<Piece>) -> int {
    if raw_phase(pieces) > GAME_PHASE_MAX {
        GAME_PHASE_MAX as int
    } else {
        raw_phase(pieces)
    }
}

pub fn phase_increment(p: Piece) -> (r: i32)
    ensures
        r == phase_inc(p),
        0 <= r <= 4,
{
    let i = p.index();
    assert(i < PIECE_TYPES);
    GAME_PHASE_INC[i]
}

/// No multiset of pieces has a negative phase.
pub proof fn lemma_raw_phase_nonnegative(pieces: Seq<Piece>)
    ensures
        raw_phase(pieces) >= 0,
    decreases pieces.len(),
{
    if pieces.len() > 0 {
        lemma_raw_phase_nonnegative(pieces.drop_last());
    }
}

/// The phase of the pieces on the board, kings included or not (they add
/// nothing), clamped to `GAME_PHASE_MAX`.
pub fn game_phase(pieces: &[Piece]) -> (r: i32)
    ensures
        r == clamped_phase(pieces@),
        0 <= r <= GAME_PHASE_MAX,
        raw_phase(pieces@) > GAME_PHASE_MAX ==> r == GAME_PHASE_MAX,
        raw_phase(pieces@) <= GAME_PHASE_MAX ==> r == raw_phase(pieces@),
{
    let mut total: i32 = 0;
    let mut i: usize = 0;
    while i < pieces.len()
        invariant
            i <= pieces@.len(),
            0 <= total <= GAME_PHASE_MAX,
            total == clamped_phase(pieces@.take(i as int)),
        decreases pieces@.len() - i,
    {
        let ghost before = pieces@.take(i as int);
        let inc = phase_increment(pieces[i]);
        total = total + inc;
        if total > GAME_PHASE_MAX {
            total = GAME_PHASE_MAX;
        }
        proof {
            let after = pieces@.take(i + 1);
            assert(after.drop_last() =~= before);
            lemma_raw_phase_nonnegative(before);
        }
        i = i + 1;
    }
    assert(pieces@.take(i as int) =~= pieces@);
    proof {
        lemma_raw_phase_nonnegative(pieces@);
    }
    total
}

} // verus!
