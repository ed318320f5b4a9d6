//! Pseudo-legal move enumeration for the side to move.

use vstd::prelude::*;

use crate::board::Board;
use crate::board::BoardState;
use crate::board::spec_get_piece;
use crate::geometry::in_range;
use crate::piece::Piece;
use crate::rules::move_ok;

verus! {

/// Whether `(ff, fr) -> (tf, tr)` is a pseudo-legal move on this board:
/// both coordinates in range, a piece of the side to move at the origin,
/// no piece of the same side at the destination, and the piece's
/// movement rule satisfied (with the capture flag set when the
/// destination is occupied).
pub open spec fn legal_entry(b: BoardState, ff: int, fr: int, tf: int, tr: int) -> bool {
    let origin = spec_get_piece(b, ff, fr);
    let dest = spec_get_piece(b, tf, tr);
    &&& in_range(ff, fr)
    &&& in_range(tf, tr)
    &&& origin is Some
    &&& origin->Some_0.color == b.turn
    &&& (dest is Some ==> dest->Some_0.color != origin->Some_0.color)
    &&& move_ok(b.grid, origin->Some_0, ff, fr, tf, tr, dest is Some)
}

/// `legal_entry` on a move tuple.
pub open spec fn legal_move(b: BoardState, m: (u8, u8, u8, u8)) -> bool {
    legal_entry(b, m.0 as int, m.1 as int, m.2 as int, m.3 as int)
}

/// The rank of a move in the generator's iteration order: origins
/// rank-major then file-major, destinations likewise within each origin.
pub open spec fn key4(ff: int, fr: int, tf: int, tr: int) -> int {
    (fr * 9 + ff) * 90 + (tr * 9 + tf)
}

/// `key4` on a move tuple.
pub open spec fn move_key(m: (u8, u8, u8, u8)) -> int {
    key4(m.0 as int, m.1 as int, m.2 as int, m.3 as int)
}

/// Two in-range moves with the same iteration rank are the same move.
pub proof fn lemma_key4_injective(
    a_ff: int,
    a_fr: int,
    a_tf: int,
    a_tr: int,
    b_ff: int,
    b_fr: int,
    b_tf: int,
    b_tr: int,
)
    requires
        in_range(a_ff, a_fr),
        in_range(a_tf, a_tr),
        in_range(b_ff, b_fr),
        in_range(b_tf, b_tr),
        key4(a_ff, a_fr, a_tf, a_tr) == key4(b_ff, b_fr, b_tf, b_tr),
    ensures
        a_ff == b_ff && a_fr == b_fr && a_tf == b_tf && a_tr == b_tr,
{
    let a_o = a_fr * 9 + a_ff;
    let b_o = b_fr * 9 + b_ff;
    let a_d = a_tr * 9 + a_tf;
    let b_d = b_tr * 9 + b_tf;
    assert(0 <= a_d < 90 && 0 <= b_d < 90);
    assert((a_o - b_o) * 90 == b_d - a_d);
    assert(a_o == b_o && a_d == b_d);
    assert((a_fr - b_fr) * 9 == b_ff - a_ff);
    assert((a_tr - b_tr) * 9 == b_tf - a_tf);
}

impl Board {
    /// All pseudo-legal moves for the side to move, as
    /// `(fromFile, fromRank, toFile, toRank)` tuples in iteration order:
    /// the list holds exactly the moves `legal_entry` admits, each once,
    /// in strictly increasing `move_key` order.
    #[verifier::loop_isolation(false)]
    pub fn get_legal_moves(&self) -> (r: Vec<(u8, u8, u8, u8)>)
        requires
            self@.wf(),
        ensures
            forall|i: int| 0 <= i < r@.len() ==> legal_move(self@, #[trigger] r@[i]),
            forall|ff: int, fr: int, tf: int, tr: int|
                #[trigger] legal_entry(self@, ff, fr, tf, tr) ==> r@.contains(
                    ((ff as u8), (fr as u8), (tf as u8), (tr as u8)),
                ),
            forall|i: int, j: int|
                0 <= i < j < r@.len() ==> move_key(#[trigger] r@[i]) < move_key(#[trigger] r@[j]),
    {
        let ghost b = self@;
        let mut moves: Vec<(u8, u8, u8, u8)> = Vec::new();
        let mut from_rank: u8 = 0;
        while from_rank < 10
            invariant
                from_rank <= 10,
                forall|i: int| 0 <= i < moves@.len() ==> legal_move(b, #[trigger] moves@[i]),
                forall|i: int, j: int|
                    0 <= i < j < moves@.len() ==> move_key(#[trigger] moves@[i]) < move_key(
                        #[trigger] moves@[j],
                    ),
                forall|i: int|
                    0 <= i < moves@.len() ==> move_key(#[trigger] moves@[i]) < from_rank * 810,
                forall|ff: int, fr: int, tf: int, tr: int|
                    #[trigger] legal_entry(b, ff, fr, tf, tr) && key4(ff, fr, tf, tr) < from_rank
                        * 810 ==> moves@.contains(((ff as u8), (fr as u8), (tf as u8), (tr as u8))),
            decreases 10 - from_rank,
        {
            let mut from_file: u8 = 0;
            while from_file < 9
                invariant
                    from_file <= 9,
                    forall|i: int| 0 <= i < moves@.len() ==> legal_move(b, #[trigger] moves@[i]),
                    forall|i: int, j: int|
                        0 <= i < j < moves@.len() ==> move_key(#[trigger] moves@[i]) < move_key(
                            #[trigger] moves@[j],
                        ),
                    forall|i: int|
                        0 <= i < moves@.len() ==> move_key(#[trigger] moves@[i]) < (from_rank * 9
                            + from_file) * 90,
                    forall|ff: int, fr: int, tf: int, tr: int|
                        #[trigger] legal_entry(b, ff, fr, tf, tr) && key4(ff, fr, tf, tr) < (
                        from_rank * 9 + from_file) * 90 ==> moves@.contains(
                            ((ff as u8), (fr as u8), (tf as u8), (tr as u8)),
                        ),
                decreases 9 - from_file,
            {
                let ghost origin_key: int = (from_rank * 9 + from_file) as int;
                let origin = self.get_piece(from_file, from_rank);
                // Scan destinations only when the origin holds a piece of
                // the side to move.
                let mover: Option<Piece> = match origin {
                    Some(p) => {
                        if p.color() == self.turn_color() {
                            Some(p)
                        } else {
                            None
                        }
                    },
                    None => None,
                };
                if let Some(piece) = mover {
                    let mut to_rank: u8 = 0;
                    while to_rank < 10
                        invariant
                            to_rank <= 10,
                            origin == Some(piece),
                            piece.color == b.turn,
                            forall|i: int|
                                0 <= i < moves@.len() ==> legal_move(b, #[trigger] moves@[i]),
                            forall|i: int, j: int|
                                0 <= i < j < moves@.len() ==> move_key(#[trigger] moves@[i])
                                    < move_key(#[trigger] moves@[j]),
                            forall|i: int|
                                0 <= i < moves@.len() ==> move_key(#[trigger] moves@[i])
                                    < origin_key * 90 + to_rank * 9,
                            forall|ff: int, fr: int, tf: int, tr: int|
                                #[trigger] legal_entry(b, ff, fr, tf, tr) && key4(ff, fr, tf, tr)
                                    < origin_key * 90 + to_rank * 9 ==> moves@.contains(
                                    ((ff as u8), (fr as u8), (tf as u8), (tr as u8)),
                                ),
                        decreases 10 - to_rank,
                    {
                        let mut to_file: u8 = 0;
                        while to_file < 9
                            invariant
                                to_file <= 9,
                                forall|i: int|
                                    0 <= i < moves@.len() ==> legal_move(b, #[trigger] moves@[i]),
                                forall|i: int, j: int|
                                    0 <= i < j < moves@.len() ==> move_key(#[trigger] moves@[i])
                                        < move_key(#[trigger] moves@[j]),
                                forall|i: int|
                                    0 <= i < moves@.len() ==> move_key(#[trigger] moves@[i])
                                        < origin_key * 90 + to_rank * 9 + to_file,
                                forall|ff: int, fr: int, tf: int, tr: int|
                                    #[trigger] legal_entry(b, ff, fr, tf, tr) && key4(
                                        ff,
                                        fr,
                                        tf,
                                        tr,
                                    ) < origin_key * 90 + to_rank * 9 + to_file ==> moves@.contains(
                                        ((ff as u8), (fr as u8), (tf as u8), (tr as u8)),
                                    ),
                            decreases 9 - to_file,
                        {
                            let ghost cur_key: int = origin_key * 90 + (to_rank * 9 + to_file)
                                as int;
                            let dest = self.get_piece(to_file, to_rank);
                            let mut own_dest = false;
                            if let Some(d) = dest {
                                if d.color() == piece.color() {
                                    own_dest = true;
                                }
                            }
                            let mut emitted = false;
                            if !own_dest {
                                let is_capture = dest.is_some();
                                if self.is_valid_piece_move(
                                    piece,
                                    from_file,
                                    from_rank,
                                    to_file,
                                    to_rank,
                                    is_capture,
                                ) {
                                    let ghost pre = moves@;
                                    moves.push((from_file, from_rank, to_file, to_rank));
                                    emitted = true;
                                    proof {
                                        let t = (from_file, from_rank, to_file, to_rank);
                                        assert(moves@[moves@.len() - 1] == t);
                                        assert(moves@.contains(t));
                                        assert(move_key(t) == cur_key);
                                        assert(legal_move(b, t));
                                        assert forall|x: (u8, u8, u8, u8)| pre.contains(x)
                                            implies moves@.contains(x) by {
                                            let i = choose|i: int|
                                                0 <= i < pre.len() && pre[i] == x;
                                            assert(moves@[i] == x);
                                        };
                                    }
                                }
                            }
                            proof {
                                assert forall|ff: int, fr: int, tf: int, tr: int|
                                    #[trigger] legal_entry(b, ff, fr, tf, tr) && key4(
                                        ff,
                                        fr,
                                        tf,
                                        tr,
                                    ) < cur_key + 1 implies moves@.contains(
                                    ((ff as u8), (fr as u8), (tf as u8), (tr as u8)),
                                ) by {
                                    if key4(ff, fr, tf, tr) == cur_key {
                                        lemma_key4_injective(
                                            ff,
                                            fr,
                                            tf,
                                            tr,
                                            from_file as int,
                                            from_rank as int,
                                            to_file as int,
                                            to_rank as int,
                                        );
                                        assert(emitted);
                                        assert(((ff as u8), (fr as u8), (tf as u8), (tr as u8))
                                            == (from_file, from_rank, to_file, to_rank));
                                    }
                                };
                            }
                            to_file += 1;
                        }
                        to_rank += 1;
                    }
                } else {
                    proof {
                        assert forall|ff: int, fr: int, tf: int, tr: int|
                            #[trigger] legal_entry(b, ff, fr, tf, tr) && key4(ff, fr, tf, tr) < (
                        origin_key + 1) * 90 implies moves@.contains(
                            ((ff as u8), (fr as u8), (tf as u8), (tr as u8)),
                        ) by {
                            if key4(ff, fr, tf, tr) >= origin_key * 90 {
                                assert(0 <= tr * 9 + tf < 90);
                                assert(fr * 9 + ff == origin_key);
                                assert((fr - from_rank) * 9 == from_file - ff);
                                assert(fr == from_rank as int && ff == from_file as int);
                                assert(false);
                            }
                        };
                    }
                }
                from_file += 1;
            }
            from_rank += 1;
        }
        moves
    }
}

} // verus!
