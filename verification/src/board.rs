//! The board: a flat byte grid with sentinel border, plus the side to move.

use vstd::prelude::*;

use crate::geometry::GRID_SZ;
use crate::geometry::idx_of;
use crate::geometry::in_range;
use crate::geometry::pos_to_idx;
use crate::piece::Color;
use crate::piece::EMPTY;
use crate::piece::OUT_OF_BOUNDS;
use crate::piece::Piece;
use crate::piece::PieceType;
use crate::piece::lemma_to_from_u8;
use crate::piece::spec_from_u8;
use crate::piece::spec_to_u8;
use crate::piece::valid_piece_byte;

verus! {

/// The mathematical model of a board: the backing grid and the side to
/// move.
pub ghost struct BoardState {
    pub grid: Seq<u8>,
    pub turn: Color,
}

/// Whether a backing-array index is reached by some playing-area
/// coordinate.
pub open spec fn is_play_idx(i: int) -> bool {
    exists|f: int, r: int| in_range(f, r) && i == #[trigger] idx_of(f, r)
}

/// The board invariant: the grid has its fixed size, every playing-area
/// cell holds the empty marker or a validly-encoded piece byte, and every
/// border cell holds the out-of-bounds marker.
pub open spec fn wf_grid(g: Seq<u8>) -> bool {
    &&& g.len() == 144
    &&& forall|f: int, r: int|
        in_range(f, r) ==> (#[trigger] g[idx_of(f, r)]) == EMPTY || valid_piece_byte(
            g[idx_of(f, r)],
        )
    &&& forall|i: int| 0 <= i < 144 && !is_play_idx(i) ==> (#[trigger] g[i]) == OUT_OF_BOUNDS
}

impl BoardState {
    /// The board invariant, on the model.
    pub open spec fn wf(self) -> bool {
        wf_grid(self.grid)
    }
}

/// The piece a board model holds at a coordinate: none when the
/// coordinate is out of range or the cell is empty.
pub open spec fn spec_get_piece(b: BoardState, file: int, rank: int) -> Option<Piece> {
    if in_range(file, rank) {
        spec_from_u8(b.grid[idx_of(file, rank)])
    } else {
        None
    }
}

/// Writing one playing-area cell with the empty marker or a valid piece
/// byte preserves the board invariant.
pub proof fn lemma_wf_update(g: Seq<u8>, file: int, rank: int, v: u8)
    requires
        wf_grid(g),
        in_range(file, rank),
        v == EMPTY || valid_piece_byte(v),
    ensures
        wf_grid(g.update(idx_of(file, rank), v)),
{
    let g2 = g.update(idx_of(file, rank), v);
    assert forall|f: int, r: int| in_range(f, r) implies (#[trigger] g2[idx_of(f, r)]) == EMPTY
        || valid_piece_byte(g2[idx_of(f, r)]) by {
        if idx_of(f, r) != idx_of(file, rank) {
            assert(g2[idx_of(f, r)] == g[idx_of(f, r)]);
        }
    };
    assert(is_play_idx(idx_of(file, rank)));
    assert forall|i: int| 0 <= i < 144 && !is_play_idx(i) implies (#[trigger] g2[i])
        == OUT_OF_BOUNDS by {
        assert(g[i] == OUT_OF_BOUNDS);
    };
}

/// The piece the standard starting layout places at a coordinate.
pub open spec fn start_piece(file: int, rank: int) -> Option<Piece> {
    if rank == 0 || rank == 9 {
        let color = if rank == 0 {
            Color::Red
        } else {
            Color::Black
        };
        let t = if file == 0 || file == 8 {
            PieceType::Chariot
        } else if file == 1 || file == 7 {
            PieceType::Horse
        } else if file == 2 || file == 6 {
            PieceType::Elephant
        } else if file == 3 || file == 5 {
            PieceType::Advisor
        } else {
            PieceType::General
        };
        Some(Piece { piece_type: t, color })
    } else if (rank == 2 || rank == 7) && (file == 1 || file == 7) {
        let color = if rank == 2 {
            Color::Red
        } else {
            Color::Black
        };
        Some(Piece { piece_type: PieceType::Cannon, color })
    } else if (rank == 3 || rank == 6) && (file == 0 || file == 2 || file == 4 || file == 6 || file
        == 8) {
        let color = if rank == 3 {
            Color::Red
        } else {
            Color::Black
        };
        Some(Piece { piece_type: PieceType::Soldier, color })
    } else {
        None
    }
}

/// A Xiangqi board and whose turn it is.
pub struct Board {
    board: Vec<u8>,
    turn: Color,
}

impl View for Board {
    type V = BoardState;

    closed spec fn view(&self) -> BoardState {
        BoardState { grid: self.board@, turn: self.turn }
    }
}

impl Board {
    /// A board in the standard starting layout, Red to move.
    pub fn new() -> (b: Board)
        ensures
            b@.wf(),
            b@.turn == Color::Red,
            forall|f: int, r: int|
                in_range(f, r) ==> #[trigger] spec_get_piece(b@, f, r) == start_piece(f, r),
    {
        let mut board: Vec<u8> = Vec::new();
        let mut i: usize = 0;
        while i < GRID_SZ
            invariant
                board@.len() == i,
                i <= 144,
                forall|j: int| 0 <= j < i ==> board@[j] == OUT_OF_BOUNDS,
            decreases 144 - i,
        {
            board.push(OUT_OF_BOUNDS);
            i += 1;
        }

        // Overwrite exactly the 90 playing cells with the empty marker.
        let mut rank: u8 = 0;
        while rank < 10
            invariant
                board@.len() == 144,
                rank <= 10,
                forall|f: int, r: int|
                    in_range(f, r) && r < rank ==> (#[trigger] board@[idx_of(f, r)]) == EMPTY,
                forall|f: int, r: int|
                    in_range(f, r) && r >= rank ==> (#[trigger] board@[idx_of(f, r)])
                        == OUT_OF_BOUNDS,
                forall|j: int| 0 <= j < 144 && !is_play_idx(j) ==> (#[trigger] board@[j])
                    == OUT_OF_BOUNDS,
            decreases 10 - rank,
        {
            let mut file: u8 = 0;
            while file < 9
                invariant
                    board@.len() == 144,
                    rank < 10,
                    file <= 9,
                    forall|f: int, r: int|
                        in_range(f, r) && (r < rank || (r == rank && f < file)) ==> (
                        #[trigger] board@[idx_of(f, r)]) == EMPTY,
                    forall|f: int, r: int|
                        in_range(f, r) && (r > rank || (r == rank && f >= file)) ==> (
                        #[trigger] board@[idx_of(f, r)]) == OUT_OF_BOUNDS,
                    forall|j: int| 0 <= j < 144 && !is_play_idx(j) ==> (#[trigger] board@[j])
                        == OUT_OF_BOUNDS,
                decreases 9 - file,
            {
                let idx = ((rank + 1) as usize) * 12 + ((file + 1) as usize);
                proof {
                    assert(idx as int == idx_of(file as int, rank as int));
                    assert(is_play_idx(idx as int));
                }
                board.set(idx, EMPTY);
                file += 1;
            }
            rank += 1;
        }

        let mut game = Board { board, turn: Color::Red };
        assert(game@.wf());
        assert(forall|f: int, r: int|
            in_range(f, r) ==> (#[trigger] game@.grid[idx_of(f, r)]) == EMPTY);

        // Red back rank.
        game.set_piece(0, 0, PieceType::Chariot, Color::Red);
        game.set_piece(1, 0, PieceType::Horse, Color::Red);
        game.set_piece(2, 0, PieceType::Elephant, Color::Red);
        game.set_piece(3, 0, PieceType::Advisor, Color::Red);
        game.set_piece(4, 0, PieceType::General, Color::Red);
        game.set_piece(5, 0, PieceType::Advisor, Color::Red);
        game.set_piece(6, 0, PieceType::Elephant, Color::Red);
        game.set_piece(7, 0, PieceType::Horse, Color::Red);
        game.set_piece(8, 0, PieceType::Chariot, Color::Red);

        // Red cannons and soldiers.
        game.set_piece(1, 2, PieceType::Cannon, Color::Red);
        game.set_piece(7, 2, PieceType::Cannon, Color::Red);
        game.set_piece(0, 3, PieceType::Soldier, Color::Red);
        game.set_piece(2, 3, PieceType::Soldier, Color::Red);
        game.set_piece(4, 3, PieceType::Soldier, Color::Red);
        game.set_piece(6, 3, PieceType::Soldier, Color::Red);
        game.set_piece(8, 3, PieceType::Soldier, Color::Red);

        // Black back rank.
        game.set_piece(0, 9, PieceType::Chariot, Color::Black);
        game.set_piece(1, 9, PieceType::Horse, Color::Black);
        game.set_piece(2, 9, PieceType::Elephant, Color::Black);
        game.set_piece(3, 9, PieceType::Advisor, Color::Black);
        game.set_piece(4, 9, PieceType::General, Color::Black);
        game.set_piece(5, 9, PieceType::Advisor, Color::Black);
        game.set_piece(6, 9, PieceType::Elephant, Color::Black);
        game.set_piece(7, 9, PieceType::Horse, Color::Black);
        game.set_piece(8, 9, PieceType::Chariot, Color::Black);

        // Black cannons and soldiers.
        game.set_piece(1, 7, PieceType::Cannon, Color::Black);
        game.set_piece(7, 7, PieceType::Cannon, Color::Black);
        game.set_piece(0, 6, PieceType::Soldier, Color::Black);
        game.set_piece(2, 6, PieceType::Soldier, Color::Black);
        game.set_piece(4, 6, PieceType::Soldier, Color::Black);
        game.set_piece(6, 6, PieceType::Soldier, Color::Black);
        game.set_piece(8, 6, PieceType::Soldier, Color::Black);

        proof {
            assert forall|p: Piece| #[trigger] spec_from_u8(spec_to_u8(p)) == Some(p) by {
                lemma_to_from_u8(p);
            };
        }
        assert forall|f: int, r: int| in_range(f, r) implies #[trigger] spec_get_piece(game@, f, r)
            == start_piece(f, r) by {
            crate::geometry::lemma_idx_bounds(f, r);
        };
        game
    }

    /// Write a piece directly at a coordinate, bypassing turn and
    /// legality; returns `None` and leaves the board unchanged when the
    /// coordinate is out of range.
    pub fn set_piece(&mut self, file: u8, rank: u8, piece_type: PieceType, side: Color) -> (r:
        Option<()>)
        requires
            old(self)@.wf(),
        ensures
            final(self)@.wf(),
            final(self)@.turn == old(self)@.turn,
            in_range(file as int, rank as int) ==> r == Some(()) && final(self)@.grid == old(
                self,
            )@.grid.update(
                idx_of(file as int, rank as int),
                spec_to_u8(Piece { piece_type, color: side }),
            ),
            !in_range(file as int, rank as int) ==> r is None && final(self)@ == old(self)@,
    {
        match pos_to_idx(file, rank) {
            None => None,
            Some(idx) => {
                let v = Piece::new(piece_type, side).to_u8();
                proof {
                    crate::geometry::lemma_idx_bounds(file as int, rank as int);
                    lemma_to_from_u8(Piece { piece_type, color: side });
                    lemma_wf_update(self@.grid, file as int, rank as int, v);
                }
                self.board.set(idx, v);
                Some(())
            },
        }
    }

    /// Read the piece at a coordinate: `None` when the coordinate is out
    /// of range or the cell is empty.
    pub fn get_piece(&self, file: u8, rank: u8) -> (p: Option<Piece>)
        requires
            self@.wf(),
        ensures
            p == spec_get_piece(self@, file as int, rank as int),
    {
        match pos_to_idx(file, rank) {
            None => None,
            Some(idx) => Piece::from_u8(self.board[idx]),
        }
    }

    /// Read the raw cell byte at a playing-area coordinate.
    pub(crate) fn byte_at(&self, file: u8, rank: u8) -> (v: u8)
        requires
            self@.wf(),
            in_range(file as int, rank as int),
        ensures
            v == self@.grid[idx_of(file as int, rank as int)],
    {
        let idx = ((rank + 1) as usize) * 12 + ((file + 1) as usize);
        self.board[idx]
    }

    /// Overwrite one playing-area cell with a raw byte.
    pub(crate) fn set_byte(&mut self, file: u8, rank: u8, v: u8)
        requires
            old(self)@.wf(),
            in_range(file as int, rank as int),
            v == EMPTY || valid_piece_byte(v),
        ensures
            final(self)@.wf(),
            final(self)@.turn == old(self)@.turn,
            final(self)@.grid == old(self)@.grid.update(idx_of(file as int, rank as int), v),
    {
        let idx = ((rank + 1) as usize) * 12 + ((file + 1) as usize);
        proof {
            lemma_wf_update(self@.grid, file as int, rank as int, v);
        }
        self.board.set(idx, v);
    }

    /// Flip the side to move.
    pub(crate) fn flip_turn(&mut self)
        ensures
            final(self)@.grid == old(self)@.grid,
            final(self)@.turn == (match old(self)@.turn {
                Color::Red => Color::Black,
                Color::Black => Color::Red,
            }),
    {
        self.turn = match self.turn {
            Color::Red => Color::Black,
            Color::Black => Color::Red,
        };
    }

    /// The side to move, read as a flag: `true` for Red, `false` for
    /// Black.
    pub fn turn(&self) -> (r: bool)
        ensures
            r == (self@.turn == Color::Red),
    {
        match self.turn {
            Color::Red => true,
            Color::Black => false,
        }
    }

    /// The side to move.
    pub(crate) fn turn_color(&self) -> (c: Color)
        ensures
            c == self@.turn,
    {
        self.turn
    }
}

} // verus!
