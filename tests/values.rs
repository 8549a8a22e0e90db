use byte_knight_eval::board::{flip, Piece, Side};
use byte_knight_eval::phase::{game_phase, GAME_PHASE_MAX};
use byte_knight_eval::score::PhasedScore;
use byte_knight_eval::values::{
    relative_square, ByteKnightValues, BISHOP_PAIR_BONUS, DOUBLED_PAWN_VALUES,
    ISOLATED_PAWN_VALUES, KING_SAFETY, PASSED_PAWN_BONUS, PSQTS,
};

const PIECES: [Piece; 6] = [
    Piece::King,
    Piece::Queen,
    Piece::Rook,
    Piece::Bishop,
    Piece::Knight,
    Piece::Pawn,
];

#[test]
fn relative_square_mirrors_black_only() {
    assert_eq!(relative_square(35, Side::White), 35);
    assert_eq!(relative_square(35, Side::Black), 27);
}

#[test]
fn psqt_reads_the_table_for_white() {
    let v = ByteKnightValues::new();
    assert_eq!(v.psqt(0, Piece::King, Side::White), PhasedScore::new(16, -104));
    assert_eq!(v.psqt(0, Piece::Queen, Side::White), PhasedScore::new(918, 1480));
    assert_eq!(v.psqt(63, Piece::Knight, Side::White), PhasedScore::new(266, 394));
    assert_eq!(v.psqt(8, Piece::Pawn, Side::White), PhasedScore::new(184, 321));
}

#[test]
fn psqt_mirrors_for_black() {
    let v = ByteKnightValues::default();
    assert_eq!(v.psqt(48, Piece::Pawn, Side::Black), PhasedScore::new(184, 321));
    assert_eq!(v.psqt(56, Piece::Queen, Side::Black), PhasedScore::new(918, 1480));
}

#[test]
fn psqt_mirror_symmetry_on_every_square() {
    let v = ByteKnightValues::new();
    for piece in PIECES.iter() {
        for sq in 0u8..64 {
            assert_eq!(
                v.psqt(sq, *piece, Side::White),
                v.psqt(flip(sq), *piece, Side::Black)
            );
        }
    }
}

#[test]
fn table_rows_follow_piece_ordinals() {
    let v = ByteKnightValues::new();
    for piece in PIECES.iter() {
        let row = &PSQTS[piece.index()];
        for sq in 0u8..64 {
            let e = row[sq as usize];
            assert_eq!(v.psqt(sq, *piece, Side::White), PhasedScore::new(e[0], e[1]));
        }
    }
    // the queen row holds the largest material values
    assert!(PSQTS[Piece::Queen.index()][27][0] > 900);
    assert!(PSQTS[Piece::Pawn.index()][27][0] < 200);
}

#[test]
fn table_shapes() {
    assert_eq!(PSQTS.len(), 6);
    for row in PSQTS.iter() {
        assert_eq!(row.len(), 64);
    }
    assert_eq!(PASSED_PAWN_BONUS.len(), 6);
    assert_eq!(DOUBLED_PAWN_VALUES.len(), 8);
    assert_eq!(ISOLATED_PAWN_VALUES.len(), 8);
    assert_eq!(KING_SAFETY.len(), 5);
    let pawns = &PSQTS[Piece::Pawn.index()];
    for f in 0..8 {
        assert_eq!(pawns[f], [0, 0]);
        assert_eq!(pawns[56 + f], [0, 0]);
    }
}

#[test]
fn passed_pawn_bonus_by_row() {
    let v = ByteKnightValues::new();
    // a White pawn one step from promotion, and a Black one
    assert_eq!(v.passed_pawn_bonus(12, Side::White), PhasedScore::new(-12, 45));
    assert_eq!(v.passed_pawn_bonus(52, Side::Black), PhasedScore::new(-12, 45));
    assert_eq!(v.passed_pawn_bonus(20, Side::White), PhasedScore::new(10, 144));
    assert_eq!(v.passed_pawn_bonus(48, Side::White), PhasedScore::new(-6, 9));
    assert_eq!(v.passed_pawn_bonus(8, Side::Black), PhasedScore::new(-6, 9));
}

#[test]
fn doubled_and_isolated_pawns_by_file() {
    let v = ByteKnightValues::new();
    assert_eq!(v.doubled_pawn_value(8, Side::White), PhasedScore::new(-17, -34));
    assert_eq!(v.doubled_pawn_value(55, Side::Black), PhasedScore::new(-15, -46));
    assert_eq!(v.isolated_pawn_value(11, Side::White), PhasedScore::new(-22, -25));
    assert_eq!(v.isolated_pawn_value(51, Side::Black), PhasedScore::new(-22, -25));
    assert_eq!(v.isolated_pawn_value(15, Side::Black), PhasedScore::new(-13, 6));
}

#[test]
fn bishop_pair_bonus() {
    let v = ByteKnightValues::new();
    assert_eq!(v.bishop_pair_bonus_value(), PhasedScore::new(26, 80));
    assert_eq!(BISHOP_PAIR_BONUS, [26, 80]);
}

#[test]
fn king_safety_by_attacker() {
    let v = ByteKnightValues::new();
    assert_eq!(v.king_safety_value(Piece::Queen), PhasedScore::new(-22, -16));
    assert_eq!(v.king_safety_value(Piece::Rook), PhasedScore::new(-42, 9));
    assert_eq!(v.king_safety_value(Piece::Bishop), PhasedScore::new(-33, 5));
    assert_eq!(v.king_safety_value(Piece::Knight), PhasedScore::new(-16, 9));
    assert_eq!(v.king_safety_value(Piece::Pawn), PhasedScore::new(-16, 16));
}

#[test]
fn lone_white_queen_in_the_centre_at_full_phase() {
    let v = ByteKnightValues::new();
    // the best of the four central squares for the queen in the middlegame
    let centre: [u8; 4] = [27, 28, 35, 36];
    let best = *centre
        .iter()
        .max_by_key(|sq| PSQTS[Piece::Queen.index()][**sq as usize][0])
        .unwrap();
    assert_eq!(best, 35);
    let total = PhasedScore::new(0, 0).add(&v.psqt(best, Piece::Queen, Side::White));
    assert_eq!(total.interpolate(GAME_PHASE_MAX, GAME_PHASE_MAX), 966);
    assert_eq!(game_phase(&[Piece::Queen]), 4);
}

#[test]
fn table_entries_leave_room_to_accumulate() {
    let mut entries: Vec<[i32; 2]> = Vec::new();
    for row in PSQTS.iter() {
        entries.extend_from_slice(row);
    }
    entries.extend_from_slice(&PASSED_PAWN_BONUS);
    entries.extend_from_slice(&DOUBLED_PAWN_VALUES);
    entries.extend_from_slice(&ISOLATED_PAWN_VALUES);
    entries.extend_from_slice(&KING_SAFETY);
    entries.push(BISHOP_PAIR_BONUS);
    for e in entries.iter() {
        assert!(e[0].abs() < 2048 && e[1].abs() < 2048);
    }
    assert!(64i64 * 2048 < i32::MAX as i64);
}
