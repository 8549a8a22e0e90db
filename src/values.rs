//! The weight tables, and the lookups that read them for either side.

use crate::board::{
    flip_if, from_square, is_square, lemma_mirror_involution, mirror, Piece, Side, FILES,
    PASSED_PAWN_RANKS, PIECE_TYPES, SQUARES,
};
use crate::score::PhasedScore;
use vstd::prelude::*;

verus! {

/// Piece-square tables, one row of 64 squares per piece type in ordinal
/// order, each entry `[mg, eg]`, rows of the board written from the rank
/// farthest from White down to White's back rank.
pub const PSQTS: [[[i32; 2]; SQUARES]; PIECE_TYPES] = [
    // King
    [
        [  16,  -104], [  -1,   -42], [  16,   -23], [-128,    31], [ -82,    13], [ -21,    10], [  42,    -3], [ 182,  -130],
        [-127,    11], [ -47,    42], [ -92,    56], [  34,    36], [ -21,    56], [ -21,    71], [  19,    57], [ -47,    24],
        [-152,    26], [   7,    44], [ -71,    65], [ -85,    76], [ -38,    76], [  53,    63], [   6,    65], [ -57,    32],
        [-104,    10], [ -81,    44], [ -96,    63], [-145,    77], [-130,    75], [ -92,    64], [-100,    56], [-164,    34],
        [-109,     0], [ -79,    27], [-100,    50], [-132,    67], [-125,    63], [ -83,    45], [-101,    34], [-178,    27],
        [ -52,   -13], [  -8,    10], [ -64,    32], [ -75,    46], [ -64,    45], [ -64,    33], [ -22,    13], [ -74,     5],
        [  44,   -33], [  13,    -1], [  -8,    15], [ -47,    27], [ -45,    30], [ -27,    20], [  25,    -2], [  22,   -23],
        [  28,   -77], [  57,   -49], [  18,   -21], [ -92,    -2], [ -23,   -26], [ -61,    -3], [  29,   -35], [  27,   -74],
    ],
    // Queen
    [
        [ 918,  1480], [ 927,  1488], [ 954,  1507], [ 989,  1487], [ 971,  1489], [ 977,  1489], [1011,  1438], [ 949,  1475],
        [ 970,  1448], [ 945,  1490], [ 945,  1529], [ 933,  1551], [ 920,  1571], [ 969,  1510], [ 952,  1506], [1012,  1473],
        [ 980,  1462], [ 975,  1484], [ 975,  1522], [ 977,  1522], [ 979,  1529], [1004,  1505], [1011,  1472], [ 996,  1458],
        [ 958,  1490], [ 966,  1509], [ 963,  1516], [ 955,  1542], [ 964,  1539], [ 969,  1522], [ 974,  1517], [ 971,  1488],
        [ 965,  1480], [ 956,  1506], [ 955,  1514], [ 966,  1529], [ 965,  1529], [ 962,  1514], [ 976,  1491], [ 975,  1479],
        [ 959,  1457], [ 970,  1477], [ 965,  1502], [ 961,  1504], [ 968,  1513], [ 972,  1493], [ 986,  1461], [ 976,  1449],
        [ 959,  1449], [ 967,  1455], [ 979,  1456], [ 980,  1474], [ 979,  1478], [ 991,  1431], [ 995,  1393], [1007,  1359],
        [ 957,  1448], [ 945,  1454], [ 956,  1465], [ 974,  1458], [ 964,  1460], [ 949,  1443], [ 971,  1413], [ 964,  1416],
    ],
    // Rook
    [
        [ 478,   820], [ 460,   830], [ 462,   841], [ 458,   839], [ 472,   830], [ 497,   817], [ 474,   822], [ 509,   812],
        [ 468,   817], [ 460,   831], [ 477,   837], [ 494,   830], [ 471,   831], [ 495,   815], [ 486,   810], [ 521,   796],
        [ 463,   812], [ 488,   813], [ 489,   814], [ 489,   812], [ 523,   796], [ 503,   793], [ 540,   787], [ 506,   784],
        [ 447,   816], [ 463,   813], [ 468,   822], [ 477,   817], [ 480,   800], [ 472,   794], [ 471,   795], [ 473,   786],
        [ 425,   810], [ 427,   814], [ 439,   815], [ 454,   812], [ 456,   806], [ 420,   808], [ 445,   793], [ 437,   789],
        [ 416,   805], [ 427,   803], [ 438,   801], [ 436,   807], [ 443,   800], [ 429,   792], [ 463,   769], [ 443,   773],
        [ 413,   797], [ 428,   802], [ 446,   801], [ 443,   801], [ 447,   792], [ 444,   786], [ 461,   774], [ 428,   783],
        [ 435,   793], [ 437,   802], [ 450,   810], [ 455,   807], [ 460,   799], [ 447,   792], [ 459,   790], [ 435,   782],
    ],
    // Bishop
    [
        [ 318,   443], [ 300,   455], [ 305,   449], [ 254,   464], [ 252,   460], [ 266,   451], [ 312,   449], [ 275,   438],
        [ 331,   430], [ 366,   448], [ 354,   454], [ 339,   456], [ 352,   446], [ 346,   451], [ 327,   457], [ 323,   430],
        [ 351,   457], [ 375,   453], [ 376,   466], [ 381,   456], [ 362,   462], [ 391,   466], [ 367,   457], [ 345,   459],
        [ 338,   454], [ 358,   471], [ 365,   469], [ 375,   487], [ 374,   473], [ 368,   473], [ 356,   465], [ 323,   455],
        [ 335,   451], [ 337,   470], [ 347,   479], [ 371,   478], [ 367,   477], [ 357,   472], [ 349,   465], [ 342,   435],
        [ 338,   447], [ 350,   462], [ 353,   470], [ 354,   473], [ 359,   478], [ 355,   470], [ 356,   451], [ 361,   436],
        [ 344,   444], [ 350,   439], [ 363,   440], [ 340,   456], [ 350,   459], [ 364,   446], [ 370,   448], [ 354,   420],
        [ 321,   418], [ 346,   443], [ 329,   420], [ 322,   443], [ 327,   438], [ 326,   441], [ 348,   425], [ 341,   399],
    ],
    // Knight
    [
        [ 156,   339], [ 202,   408], [ 274,   433], [ 308,   424], [ 350,   428], [ 274,   402], [ 225,   411], [ 215,   315],
        [ 316,   408], [ 338,   432], [ 368,   441], [ 384,   445], [ 359,   439], [ 426,   420], [ 334,   429], [ 353,   391],
        [ 338,   423], [ 381,   443], [ 397,   466], [ 402,   472], [ 435,   456], [ 448,   443], [ 389,   439], [ 353,   417],
        [ 335,   440], [ 349,   465], [ 379,   480], [ 405,   482], [ 366,   491], [ 401,   482], [ 339,   476], [ 364,   433],
        [ 320,   441], [ 338,   453], [ 357,   480], [ 356,   482], [ 369,   485], [ 359,   473], [ 356,   455], [ 330,   431],
        [ 296,   422], [ 325,   446], [ 340,   457], [ 345,   474], [ 357,   472], [ 343,   452], [ 345,   439], [ 316,   423],
        [ 282,   412], [ 295,   429], [ 316,   443], [ 330,   445], [ 330,   442], [ 334,   437], [ 315,   417], [ 313,   423],
        [ 233,   401], [ 292,   385], [ 280,   422], [ 296,   422], [ 302,   425], [ 319,   410], [ 296,   393], [ 266,   394],
    ],
    // Pawn
    [
        [   0,     0], [   0,     0], [   0,     0], [   0,     0], [   0,     0], [   0,     0], [   0,     0], [   0,     0],
        [ 184,   321], [ 201,   327], [ 186,   321], [ 224,   262], [ 190,   267], [ 171,   274], [  74,   339], [  60,   331],
        [  87,   176], [  99,   196], [ 135,   141], [ 133,   103], [ 138,   104], [ 185,   119], [ 142,   179], [ 107,   158],
        [  63,   153], [  84,   161], [  94,   134], [  95,   115], [ 118,   118], [ 117,   120], [ 106,   154], [  94,   126],
        [  50,   133], [  74,   148], [  78,   126], [  96,   121], [  96,   122], [  89,   123], [  87,   142], [  77,   113],
        [  47,   127], [  69,   143], [  74,   125], [  73,   130], [  88,   133], [  83,   125], [ 104,   135], [  84,   108],
        [  46,   131], [  68,   146], [  68,   133], [  55,   130], [  78,   143], [ 101,   126], [ 116,   132], [  74,   109],
        [   0,     0], [   0,     0], [   0,     0], [   0,     0], [   0,     0], [   0,     0], [   0,     0], [   0,     0],
    ],
];

/// Passed-pawn bonus by table row, from the row next to promotion (row 1)
/// down to the row next to the pawn's own back rank (row 6).
pub const PASSED_PAWN_BONUS: [[i32; 2]; PASSED_PAWN_RANKS] = [
    [ -12,    45],
    [  10,   144],
    [  13,    72],
    [ -12,    43],
    [ -14,    15],
    [  -6,     9],
];

/// Doubled-pawn penalty by file.
pub const DOUBLED_PAWN_VALUES: [[i32; 2]; FILES] = [
    [ -17,   -34],
    [   6,   -30],
    [  -7,   -20],
    [  -1,   -10],
    [ -13,    -5],
    [ -14,   -20],
    [  -7,   -34],
    [ -15,   -46],
];

/// Isolated-pawn penalty by file.
pub const ISOLATED_PAWN_VALUES: [[i32; 2]; FILES] = [
    [  -2,     0],
    [ -13,   -19],
    [ -24,   -14],
    [ -22,   -25],
    [ -25,   -26],
    [ -17,   -11],
    [ -15,   -18],
    [ -13,     6],
];

/// Bonus for holding two bishops or more.
pub const BISHOP_PAIR_BONUS: [i32; 2] = [  26,    80];

/// Penalty by attacking piece type, for every type but the king, in
/// ordinal order (queen first).
pub const KING_SAFETY: [[i32; 2]; 5] =
    [[ -22,   -16], [ -42,     9], [ -33,     5], [ -16,     9], [ -16,    16]];

/// The row of a pawn's own back rank and of its promotion rank, in which no
/// pawn stands.
const FIRST_PAWN_ROW: u8 = 1;

pub open spec fn entry_score(e: [i32; 2]) -> PhasedScore {
    PhasedScore { mg: e[0], eg: e[1] }
}

fn score_of(e: &[i32; 2]) -> (r: PhasedScore)
    ensures
        r == entry_score(*e),
{
    PhasedScore::new(e[0], e[1])
}

/// The square at which the tables are read for `side`: White reads them as
/// written, Black through the mirror.
pub open spec fn table_square(sq: int, side: Side) -> int {
    match side {
        Side::White => sq,
        Side::Black => mirror(sq),
    }
}

pub fn relative_square(sq: u8, side: Side) -> (r: u8)
    requires
        is_square(sq as int),
    ensures
        r == table_square(sq as int, side),
        is_square(r as int),
{
    flip_if(side == Side::Black, sq)
}

pub open spec fn psqt_score(sq: int, piece: Piece, side: Side) -> PhasedScore {
    entry_score(PSQTS@[piece.ordinal() as int]@[table_square(sq, side)])
}

/// A square on which a pawn of `side` can stand.
pub open spec fn is_pawn_square(sq: int, side: Side) -> bool {
    &&& is_square(sq)
    &&& 1 <= table_square(sq, side) / 8 <= 6
}

pub open spec fn passed_pawn_score(sq: int, side: Side) -> PhasedScore {
    entry_score(PASSED_PAWN_BONUS@[table_square(sq, side) / 8 - 1])
}

pub open spec fn doubled_pawn_score(sq: int, side: Side) -> PhasedScore {
    entry_score(DOUBLED_PAWN_VALUES@[table_square(sq, side) % 8])
}

pub open spec fn isolated_pawn_score(sq: int, side: Side) -> PhasedScore {
    entry_score(ISOLATED_PAWN_VALUES@[table_square(sq, side) % 8])
}

pub open spec fn king_safety_score(piece: Piece) -> PhasedScore {
    entry_score(KING_SAFETY@[piece.ordinal() - 1])
}

/// The evaluation weights, read from the tables above.
#[derive(Clone, Copy, Debug)]
pub struct ByteKnightValues {}

impl Default for ByteKnightValues {
    fn default() -> (r: ByteKnightValues)
        ensures
            r == (ByteKnightValues {}),
    {
        ByteKnightValues {}
    }
}

impl ByteKnightValues {
    pub fn new() -> (r: ByteKnightValues)
        ensures
            r == (ByteKnightValues {}),
    {
        ByteKnightValues {}
    }

    /// The piece-square weight of `piece` of `side` on `square`.
    pub fn psqt(&self, square: u8, piece: Piece, side: Side) -> (r: PhasedScore)
        requires
            is_square(square as int),
        ensures
            r == psqt_score(square as int, piece, side),
    {
        let sq = relative_square(square, side);
        score_of(&PSQTS[piece.index()][sq as usize])
    }

    /// The bonus for a passed pawn of `side` on `square`.
    pub fn passed_pawn_bonus(&self, square: u8, side: Side) -> (r: PhasedScore)
        requires
            is_pawn_square(square as int, side),
        ensures
            r == passed_pawn_score(square as int, side),
    {
        let (_file, row) = from_square(relative_square(square, side));
        score_of(&PASSED_PAWN_BONUS[(row - FIRST_PAWN_ROW) as usize])
    }

    /// The penalty for a doubled pawn of `side` on `square`.
    pub fn doubled_pawn_value(&self, square: u8, side: Side) -> (r: PhasedScore)
        requires
            is_square(square as int),
        ensures
            r == doubled_pawn_score(square as int, side),
    {
        let (file, _row) = from_square(relative_square(square, side));
        score_of(&DOUBLED_PAWN_VALUES[file as usize])
    }

    /// The penalty for an isolated pawn of `side` on `square`.
    pub fn isolated_pawn_value(&self, square: u8, side: Side) -> (r: PhasedScore)
        requires
            is_square(square as int),
        ensures
            r == isolated_pawn_score(square as int, side),
    {
        let (file, _row) = from_square(relative_square(square, side));
        score_of(&ISOLATED_PAWN_VALUES[file as usize])
    }

    /// The bonus for a pair of bishops.
    pub fn bishop_pair_bonus_value(&self) -> (r: PhasedScore)
        ensures
            r == entry_score(BISHOP_PAIR_BONUS),
    {
        score_of(&BISHOP_PAIR_BONUS)
    }

    /// The king-safety penalty for an attack by `piece`; the king itself is
    /// no attacker here.
    pub fn king_safety_value(&self, piece: Piece) -> (r: PhasedScore)
        requires
            piece != Piece::King,
        ensures
            r == king_safety_score(piece),
    {
        score_of(&KING_SAFETY[piece.index() - 1])
    }
}

/// A square of one side and its mirror image for the other side get the same
/// weights from every square-indexed table.
pub proof fn lemma_mirror_symmetry(sq: int, piece: Piece)
    requires
        is_square(sq),
    ensures
        mirror(mirror(sq)) == sq,
        psqt_score(sq, piece, Side::White) == psqt_score(mirror(sq), piece, Side::Black),
        psqt_score(sq, piece, Side::Black) == psqt_score(mirror(sq), piece, Side::White),
        doubled_pawn_score(sq, Side::White) == doubled_pawn_score(mirror(sq), Side::Black),
        isolated_pawn_score(sq, Side::White) == isolated_pawn_score(mirror(sq), Side::Black),
        is_pawn_square(sq, Side::White) == (is_pawn_square(mirror(sq), Side::Black)),
        passed_pawn_score(sq, Side::White) == passed_pawn_score(mirror(sq), Side::Black),
{
    lemma_mirror_involution(sq);
}

/// Every piece-square table has 64 entries, every file table 8, the
/// passed-pawn table 6, the king-safety table one per piece type but the
/// king; the pawn table is zero on both outer rows.
pub proof fn lemma_table_shape()
    ensures
        PSQTS@.len() == PIECE_TYPES,
        forall|p: Piece| (#[trigger] PSQTS@[p.ordinal() as int])@.len() == SQUARES,
        PASSED_PAWN_BONUS@.len() == PASSED_PAWN_RANKS,
        DOUBLED_PAWN_VALUES@.len() == FILES,
        ISOLATED_PAWN_VALUES@.len() == FILES,
        KING_SAFETY@.len() == PIECE_TYPES - 1,
        forall|f: int|
            0 <= f < 8 ==> #[trigger] entry_score(PSQTS@[Piece::Pawn.ordinal() as int]@[f])
                == (PhasedScore { mg: 0, eg: 0 }),
        forall|f: int|
            0 <= f < 8 ==> #[trigger] entry_score(PSQTS@[Piece::Pawn.ordinal() as int]@[56 + f])
                == (PhasedScore { mg: 0, eg: 0 }),
{
}

} // verus!
