//! A rules engine for Xiangqi (Chinese chess).
//!
//! The library holds board state, validates proposed moves against each
//! piece type's movement and blocking rules, enumerates all pseudo-legal
//! moves for the side to move, and applies accepted moves while advancing
//! turn order. Moves are pseudo-legal only: the engine does not check
//! that a move leaves the mover's own general safe.

pub mod board;
pub mod executor;
pub mod geometry;
pub mod laws;
pub mod movegen;
pub mod piece;
pub mod render;
pub mod rules;

pub use board::Board;
pub use executor::MoveError;
pub use geometry::pos_to_idx;
pub use piece::Color;
pub use piece::Piece;
pub use piece::PieceType;
