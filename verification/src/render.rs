//! Human-readable board rendering.

use vstd::prelude::*;
use vstd::string::StringExecFns;

use crate::board::Board;
use crate::geometry::idx_of;
use crate::piece::Color;
use crate::piece::EMPTY;
use crate::piece::OUT_OF_BOUNDS;
use crate::piece::Piece;
use crate::piece::PieceType;
use crate::piece::spec_from_u8;

verus! {

/// The two characters a cell byte renders to: its symbol and a space.
/// Pieces show as G/A/E/H/R/C/S, uppercase for Red and lowercase for
/// Black; empty cells as a dot, the out-of-bounds marker as `X`, and any
/// undecodable byte as `?`.
pub open spec fn symbol_chars(v: u8) -> Seq<char> {
    if v == EMPTY {
        ". "@
    } else if v == OUT_OF_BOUNDS {
        "X "@
    } else {
        match spec_from_u8(v) {
            None => "? "@,
            Some(p) => match (p.piece_type, p.color) {
                (PieceType::General, Color::Red) => "G "@,
                (PieceType::Advisor, Color::Red) => "A "@,
                (PieceType::Elephant, Color::Red) => "E "@,
                (PieceType::Horse, Color::Red) => "H "@,
                (PieceType::Chariot, Color::Red) => "R "@,
                (PieceType::Cannon, Color::Red) => "C "@,
                (PieceType::Soldier, Color::Red) => "S "@,
                (PieceType::General, Color::Black) => "g "@,
                (PieceType::Advisor, Color::Black) => "a "@,
                (PieceType::Elephant, Color::Black) => "e "@,
                (PieceType::Horse, Color::Black) => "h "@,
                (PieceType::Chariot, Color::Black) => "r "@,
                (PieceType::Cannon, Color::Black) => "c "@,
                (PieceType::Soldier, Color::Black) => "s "@,
            },
        }
    }
}

/// The rendering of the first `file` cells of a rank, left to right.
pub open spec fn cells_prefix(g: Seq<u8>, rank: int, file: int) -> Seq<char>
    decreases file,
{
    if file <= 0 {
        Seq::empty()
    } else {
        cells_prefix(g, rank, file - 1) + symbol_chars(g[idx_of(file - 1, rank)])
    }
}

/// The rendering of the first `n` printed ranks, highest rank first,
/// each followed by a newline.
pub open spec fn rows_prefix(g: Seq<u8>, n: int) -> Seq<char>
    decreases n,
{
    if n <= 0 {
        Seq::empty()
    } else {
        rows_prefix(g, n - 1) + cells_prefix(g, 10 - n, 9) + "\n"@
    }
}

/// The full rendering: every rank from 9 down to 0, then a trailing line
/// listing the file indices.
pub open spec fn spec_ascii(g: Seq<u8>) -> Seq<char> {
    rows_prefix(g, 10) + "0 1 2 3 4 5 6 7 8 \n"@
}

/// The two-character rendering of one cell byte.
fn symbol_str(v: u8) -> (s: &'static str)
    ensures
        s@ == symbol_chars(v),
{
    if v == EMPTY {
        ". "
    } else if v == OUT_OF_BOUNDS {
        "X "
    } else {
        match Piece::from_u8(v) {
            None => "? ",
            Some(p) => match (p.piece_type(), p.color()) {
                (PieceType::General, Color::Red) => "G ",
                (PieceType::Advisor, Color::Red) => "A ",
                (PieceType::Elephant, Color::Red) => "E ",
                (PieceType::Horse, Color::Red) => "H ",
                (PieceType::Chariot, Color::Red) => "R ",
                (PieceType::Cannon, Color::Red) => "C ",
                (PieceType::Soldier, Color::Red) => "S ",
                (PieceType::General, Color::Black) => "g ",
                (PieceType::Advisor, Color::Black) => "a ",
                (PieceType::Elephant, Color::Black) => "e ",
                (PieceType::Horse, Color::Black) => "h ",
                (PieceType::Chariot, Color::Black) => "r ",
                (PieceType::Cannon, Color::Black) => "c ",
                (PieceType::Soldier, Color::Black) => "s ",
            },
        }
    }
}

impl Board {
    /// Render the board as text: one line per rank from rank 9 down to
    /// rank 0, each cell as its symbol and a space, then a trailing line
    /// listing the file indices.
    #[verifier::loop_isolation(false)]
    pub fn ascii(&self) -> (out: String)
        requires
            self@.wf(),
        ensures
            out@ == spec_ascii(self@.grid),
    {
        let mut output = String::new();
        let mut printed: u8 = 0;
        while printed < 10
            invariant
                printed <= 10,
                output@ == rows_prefix(self@.grid, printed as int),
            decreases 10 - printed,
        {
            let rank = 9 - printed;
            let mut file: u8 = 0;
            while file < 9
                invariant
                    file <= 9,
                    output@ == rows_prefix(self@.grid, printed as int) + cells_prefix(
                        self@.grid,
                        rank as int,
                        file as int,
                    ),
                decreases 9 - file,
            {
                let v = self.byte_at(file, rank);
                output.append(symbol_str(v));
                file += 1;
            }
            output.append("\n");
            printed += 1;
        }
        output.append("0 1 2 3 4 5 6 7 8 \n");
        output
    }
}

} // verus!
