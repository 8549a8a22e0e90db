//! Static evaluation weights for a chess engine, with the tapered scoring
//! model that blends middlegame and endgame values by game phase.

pub mod board;
pub mod phase;
pub mod score;
pub mod values;
