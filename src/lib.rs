//! Building blocks for turn-based board game engines: players and outcomes,
//! position evaluators, position fingerprints, bitboard enumeration and
//! fixed-size grid coordinates.

pub mod bits;
pub mod board;
pub mod coord;
pub mod go;
pub mod heuristic;
pub mod sttt;
pub mod uai;
pub mod zobrist;
