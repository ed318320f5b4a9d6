//! Cross-cutting properties of the engine, stated over the board model
//! and proved once and for all.

use vstd::prelude::*;

use crate::board::BoardState;
use crate::board::spec_get_piece;
use crate::executor::spec_apply_move;
use crate::executor::spec_check_move;
use crate::geometry::idx_of;
use crate::geometry::in_range;
use crate::geometry::lemma_idx_bounds;
use crate::geometry::lemma_idx_injective;
use crate::movegen::legal_entry;
use crate::movegen::move_key;
use crate::piece::Color;
use crate::piece::Piece;
use crate::piece::PieceType;
use crate::piece::lemma_to_from_u8;
use crate::piece::spec_to_u8;

verus! {

/// Writing a piece at an in-range coordinate and reading the same
/// coordinate back returns exactly that piece; at an out-of-range
/// coordinate there is nothing to read, and the write itself is a no-op
/// by `set_piece`'s contract.
pub proof fn lemma_set_then_get(
    b: BoardState,
    file: u8,
    rank: u8,
    piece_type: PieceType,
    side: Color,
)
    requires
        b.wf(),
    ensures
        in_range(file as int, rank as int) ==> spec_get_piece(
            BoardState {
                grid: b.grid.update(
                    idx_of(file as int, rank as int),
                    spec_to_u8(Piece { piece_type, color: side }),
                ),
                turn: b.turn,
            },
            file as int,
            rank as int,
        ) == Some(Piece { piece_type, color: side }),
        !in_range(file as int, rank as int) ==> spec_get_piece(b, file as int, rank as int)
            is None,
{
    if in_range(file as int, rank as int) {
        lemma_idx_bounds(file as int, rank as int);
        lemma_to_from_u8(Piece { piece_type, color: side });
    }
}

/// A validated move cannot be replayed: after a move succeeds, the same
/// `(from, to)` request fails on the resulting board, because the
/// origin cell is now empty (a successful move never has origin equal
/// to destination, since that would capture the mover's own piece).
pub proof fn lemma_no_immediate_replay(b: BoardState, ff: u8, fr: u8, tf: u8, tr: u8)
    requires
        b.wf(),
        spec_check_move(b, ff, fr, tf, tr) is Ok,
    ensures
        spec_check_move(spec_apply_move(b, ff, fr, tf, tr), ff, fr, tf, tr) is Err,
{
    let b2 = spec_apply_move(b, ff, fr, tf, tr);
    lemma_idx_bounds(ff as int, fr as int);
    lemma_idx_bounds(tf as int, tr as int);
    if ff == tf && fr == tr {
        assert(spec_get_piece(b, tf as int, tr as int) == spec_get_piece(b, ff as int, fr as int));
        assert(false);
    } else {
        if idx_of(ff as int, fr as int) == idx_of(tf as int, tr as int) {
            lemma_idx_injective(ff as int, fr as int, tf as int, tr as int);
        }
        assert(b2.grid[idx_of(ff as int, fr as int)] == crate::piece::EMPTY);
        assert(spec_get_piece(b2, ff as int, fr as int) is None);
    }
}

/// The generator and the executor agree: a `(from, to)` pair is a
/// pseudo-legal entry exactly when the executor's validation sequence
/// accepts it.
pub proof fn lemma_generator_executor_agree(b: BoardState, ff: u8, fr: u8, tf: u8, tr: u8)
    requires
        b.wf(),
    ensures
        legal_entry(b, ff as int, fr as int, tf as int, tr as int) <==> spec_check_move(
            b,
            ff,
            fr,
            tf,
            tr,
        ) is Ok,
{
}

/// A move list whose iteration keys strictly increase holds no
/// duplicate entries.
pub proof fn lemma_sorted_moves_distinct(ms: Seq<(u8, u8, u8, u8)>)
    requires
        forall|i: int, j: int|
            0 <= i < j < ms.len() ==> move_key(#[trigger] ms[i]) < move_key(#[trigger] ms[j]),
    ensures
        forall|i: int, j: int| 0 <= i < j < ms.len() ==> ms[i] != ms[j],
{
    assert forall|i: int, j: int| 0 <= i < j < ms.len() implies ms[i] != ms[j] by {
        assert(move_key(ms[i]) < move_key(ms[j]));
    };
}

} // verus!
