//! Move validation and execution.
//!
//! `make_move` runs the validation sequence (bounds, origin occupancy,
//! turn, own-capture, piece rule), short-circuiting on the first failure
//! with the board untouched; on success it relocates the one piece and
//! flips the turn.

use vstd::prelude::*;

use crate::board::Board;
use crate::board::BoardState;
use crate::board::spec_get_piece;
use crate::geometry::idx_of;
use crate::geometry::in_range;
use crate::geometry::pos_to_idx;
use crate::piece::Color;
use crate::piece::EMPTY;
use crate::piece::PieceType;
use crate::rules::move_ok;

verus! {

/// Why a proposed move was rejected. Every variant carries enough to
/// report the offending coordinate or piece.
#[derive(Clone, Copy, Debug, PartialEq, Eq, Structural)]
pub enum MoveError {
    /// A supplied coordinate pair lies outside the 9x10 playing area.
    OutOfBounds(u8, u8),
    /// The origin cell holds no piece.
    NoPieceAtOrigin(u8, u8),
    /// The piece at the origin belongs to the side not to move.
    WrongTurn,
    /// The destination holds a piece of the mover's own side.
    CaptureOwnPiece,
    /// The move violates the movement or blocking rule of this piece
    /// type.
    IllegalPieceMove(PieceType),
}

/// The opposite side.
pub open spec fn flip(c: Color) -> Color {
    match c {
        Color::Red => Color::Black,
        Color::Black => Color::Red,
    }
}

/// The outcome of the validation sequence, checked in order: origin
/// bounds, destination bounds, origin occupancy, turn, own-capture, and
/// the piece-type rule.
pub open spec fn spec_check_move(b: BoardState, ff: u8, fr: u8, tf: u8, tr: u8) -> Result<
    (),
    MoveError,
> {
    if !in_range(ff as int, fr as int) {
        Err(MoveError::OutOfBounds(ff, fr))
    } else if !in_range(tf as int, tr as int) {
        Err(MoveError::OutOfBounds(tf, tr))
    } else {
        match spec_get_piece(b, ff as int, fr as int) {
            None => Err(MoveError::NoPieceAtOrigin(ff, fr)),
            Some(piece) => {
                let dest = spec_get_piece(b, tf as int, tr as int);
                if piece.color != b.turn {
                    Err(MoveError::WrongTurn)
                } else if dest is Some && dest->Some_0.color == piece.color {
                    Err(MoveError::CaptureOwnPiece)
                } else if !move_ok(
                    b.grid,
                    piece,
                    ff as int,
                    fr as int,
                    tf as int,
                    tr as int,
                    dest is Some,
                ) {
                    Err(MoveError::IllegalPieceMove(piece.piece_type))
                } else {
                    Ok(())
                }
            },
        }
    }
}

/// The board after a validated move: the origin byte moves to the
/// destination, the origin becomes empty, and the turn flips.
pub open spec fn spec_apply_move(b: BoardState, ff: u8, fr: u8, tf: u8, tr: u8) -> BoardState {
    BoardState {
        grid: b.grid.update(
            idx_of(tf as int, tr as int),
            b.grid[idx_of(ff as int, fr as int)],
        ).update(idx_of(ff as int, fr as int), EMPTY),
        turn: flip(b.turn),
    }
}

impl Board {
    /// Validate and apply one move. On any failure the board is left
    /// completely unmodified and the first failing check's error is
    /// returned; on success the piece is relocated and the turn flips.
    pub fn make_move(&mut self, from_file: u8, from_rank: u8, to_file: u8, to_rank: u8) -> (r:
        Result<(), MoveError>)
        requires
            old(self)@.wf(),
        ensures
            final(self)@.wf(),
            r == spec_check_move(old(self)@, from_file, from_rank, to_file, to_rank),
            r is Err ==> final(self)@ == old(self)@,
            r is Ok ==> final(self)@ == spec_apply_move(
                old(self)@,
                from_file,
                from_rank,
                to_file,
                to_rank,
            ),
    {
        if pos_to_idx(from_file, from_rank).is_none() {
            return Err(MoveError::OutOfBounds(from_file, from_rank));
        }
        if pos_to_idx(to_file, to_rank).is_none() {
            return Err(MoveError::OutOfBounds(to_file, to_rank));
        }
        let piece = match self.get_piece(from_file, from_rank) {
            None => {
                return Err(MoveError::NoPieceAtOrigin(from_file, from_rank));
            },
            Some(piece) => piece,
        };
        if piece.color() != self.turn_color() {
            return Err(MoveError::WrongTurn);
        }
        let dest_piece = self.get_piece(to_file, to_rank);
        let is_capture = dest_piece.is_some();
        if let Some(dest) = dest_piece {
            if dest.color() == piece.color() {
                return Err(MoveError::CaptureOwnPiece);
            }
        }
        if !self.is_valid_piece_move(piece, from_file, from_rank, to_file, to_rank, is_capture) {
            return Err(MoveError::IllegalPieceMove(piece.piece_type()));
        }
        let from_byte = self.byte_at(from_file, from_rank);
        self.set_byte(to_file, to_rank, from_byte);
        self.set_byte(from_file, from_rank, EMPTY);
        self.flip_turn();
        Ok(())
    }
}

} // verus!
