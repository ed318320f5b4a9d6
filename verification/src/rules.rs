//! Movement and blocking rules, one predicate per piece type.
//!
//! Every predicate takes origin and destination coordinates already known
//! to lie in the playing area, and answers whether that piece type's
//! geometry and blocking rule permits the move. Destination occupancy by
//! the mover's own side is rejected generically by the callers, never
//! here.

use vstd::prelude::*;

use crate::board::Board;
use crate::geometry::idx_of;
use crate::geometry::in_range;
use crate::geometry::spec_crossed_river;
use crate::geometry::spec_in_palace;
use crate::geometry::crossed_river;
use crate::geometry::in_palace;
use crate::piece::Color;
use crate::piece::EMPTY;
use crate::piece::Piece;
use crate::piece::PieceType;

verus! {

/// Absolute displacement along one axis.
pub open spec fn dist(a: int, b: int) -> int {
    if a >= b {
        a - b
    } else {
        b - a
    }
}

/// Whether a playing-area cell holds no piece.
pub open spec fn empty_at(g: Seq<u8>, file: int, rank: int) -> bool {
    g[idx_of(file, rank)] == EMPTY
}

/// General: one square, purely horizontal or vertical, staying inside
/// the mover's own palace.
pub open spec fn general_ok(ff: int, fr: int, tf: int, tr: int, side: Color) -> bool {
    &&& spec_in_palace(tf, tr, side)
    &&& ((dist(ff, tf) == 1 && fr == tr) || (ff == tf && dist(fr, tr) == 1))
}

/// Advisor: one square diagonally, staying inside the mover's own
/// palace.
pub open spec fn advisor_ok(ff: int, fr: int, tf: int, tr: int, side: Color) -> bool {
    &&& spec_in_palace(tf, tr, side)
    &&& dist(ff, tf) == 1 && dist(fr, tr) == 1
}

/// Elephant: two squares diagonally, never across the river, with the
/// midpoint cell (the elephant's eye) empty.
pub open spec fn elephant_ok(g: Seq<u8>, ff: int, fr: int, tf: int, tr: int, side: Color) -> bool {
    &&& (match side {
        Color::Red => tr <= 4,
        Color::Black => tr >= 5,
    })
    &&& dist(ff, tf) == 2 && dist(fr, tr) == 2
    &&& empty_at(g, (ff + tf) / 2, (fr + tr) / 2)
}

/// Horse: an L-shaped step, with the orthogonally adjacent cell along
/// the longer axis (the horse's leg) empty.
pub open spec fn horse_ok(g: Seq<u8>, ff: int, fr: int, tf: int, tr: int) -> bool {
    &&& ((dist(ff, tf) == 1 && dist(fr, tr) == 2) || (dist(ff, tf) == 2 && dist(fr, tr) == 1))
    &&& (if dist(ff, tf) == 2 {
        empty_at(g, (ff + tf) / 2, fr)
    } else {
        empty_at(g, ff, (fr + tr) / 2)
    })
}

/// Every cell on `file` with rank strictly between `ra` and `rb` is
/// empty.
pub open spec fn clear_on_file(g: Seq<u8>, file: int, ra: int, rb: int) -> bool {
    forall|r: int|
        (if ra < rb {
            ra < r < rb
        } else {
            rb < r < ra
        }) ==> empty_at(g, file, r)
}

/// Every cell on `rank` with file strictly between `fa` and `fb` is
/// empty.
pub open spec fn clear_on_rank(g: Seq<u8>, rank: int, fa: int, fb: int) -> bool {
    forall|f: int|
        (if fa < fb {
            fa < f < fb
        } else {
            fb < f < fa
        }) ==> empty_at(g, f, rank)
}

/// Chariot: a straight line along a file or a rank, with every cell
/// strictly between origin and destination empty.
pub open spec fn chariot_ok(g: Seq<u8>, ff: int, fr: int, tf: int, tr: int) -> bool {
    &&& (ff == tf || fr == tr)
    &&& (if ff == tf {
        clear_on_file(g, ff, fr, tr)
    } else {
        clear_on_rank(g, fr, ff, tf)
    })
}

/// Number of occupied cells on `file` with rank in `lo..hi`.
pub open spec fn count_occupied_on_file(g: Seq<u8>, file: int, lo: int, hi: int) -> int
    decreases hi - lo,
{
    if lo >= hi {
        0
    } else {
        (if empty_at(g, file, lo) {
            0int
        } else {
            1int
        }) + count_occupied_on_file(g, file, lo + 1, hi)
    }
}

/// Number of occupied cells on `rank` with file in `lo..hi`.
pub open spec fn count_occupied_on_rank(g: Seq<u8>, rank: int, lo: int, hi: int) -> int
    decreases hi - lo,
{
    if lo >= hi {
        0
    } else {
        (if empty_at(g, lo, rank) {
            0int
        } else {
            1int
        }) + count_occupied_on_rank(g, rank, lo + 1, hi)
    }
}

/// Number of occupied cells strictly between two coordinates that share
/// a file or a rank.
pub open spec fn screens_between(g: Seq<u8>, ff: int, fr: int, tf: int, tr: int) -> int {
    if ff == tf {
        if fr < tr {
            count_occupied_on_file(g, ff, fr + 1, tr)
        } else {
            count_occupied_on_file(g, ff, tr + 1, fr)
        }
    } else {
        if ff < tf {
            count_occupied_on_rank(g, fr, ff + 1, tf)
        } else {
            count_occupied_on_rank(g, fr, tf + 1, ff)
        }
    }
}

/// Cannon: a straight line; a capture needs exactly one screen strictly
/// between origin and destination, a non-capture needs a clear path.
pub open spec fn cannon_ok(
    g: Seq<u8>,
    ff: int,
    fr: int,
    tf: int,
    tr: int,
    is_capture: bool,
) -> bool {
    &&& (ff == tf || fr == tr)
    &&& (if is_capture {
        screens_between(g, ff, fr, tf, tr) == 1
    } else {
        screens_between(g, ff, fr, tf, tr) == 0
    })
}

/// Soldier: one square straight forward, or — only once the origin rank
/// has crossed the river — one square sideways. Never backward or
/// diagonal.
pub open spec fn soldier_ok(ff: int, fr: int, tf: int, tr: int, side: Color) -> bool {
    match side {
        Color::Red => (tf == ff && tr == fr + 1) || (spec_crossed_river(fr, side) && tr == fr
            && dist(ff, tf) == 1),
        Color::Black => (tf == ff && tr == fr - 1) || (spec_crossed_river(fr, side) && tr == fr
            && dist(ff, tf) == 1),
    }
}

/// The movement rule of a piece, dispatched on its type. The capture
/// flag matters only to the Cannon.
pub open spec fn move_ok(
    g: Seq<u8>,
    p: Piece,
    ff: int,
    fr: int,
    tf: int,
    tr: int,
    is_capture: bool,
) -> bool {
    match p.piece_type {
        PieceType::General => general_ok(ff, fr, tf, tr, p.color),
        PieceType::Advisor => advisor_ok(ff, fr, tf, tr, p.color),
        PieceType::Elephant => elephant_ok(g, ff, fr, tf, tr, p.color),
        PieceType::Horse => horse_ok(g, ff, fr, tf, tr),
        PieceType::Chariot => chariot_ok(g, ff, fr, tf, tr),
        PieceType::Cannon => cannon_ok(g, ff, fr, tf, tr, is_capture),
        PieceType::Soldier => soldier_ok(ff, fr, tf, tr, p.color),
    }
}

impl Board {
    /// General moves: one orthogonal step inside the palace.
    pub(crate) fn is_valid_general_move(
        &self,
        from_file: u8,
        from_rank: u8,
        to_file: u8,
        to_rank: u8,
        side: Color,
    ) -> (r: bool)
        ensures
            r == general_ok(from_file as int, from_rank as int, to_file as int, to_rank as int, side),
    {
        if !in_palace(to_file, to_rank, side) {
            return false;
        }
        let file_diff = if from_file >= to_file {
            from_file - to_file
        } else {
            to_file - from_file
        };
        let rank_diff = if from_rank >= to_rank {
            from_rank - to_rank
        } else {
            to_rank - from_rank
        };
        (file_diff == 1 && rank_diff == 0) || (file_diff == 0 && rank_diff == 1)
    }

    /// Advisor moves: one diagonal step inside the palace.
    pub(crate) fn is_valid_advisor_move(
        &self,
        from_file: u8,
        from_rank: u8,
        to_file: u8,
        to_rank: u8,
        side: Color,
    ) -> (r: bool)
        ensures
            r == advisor_ok(from_file as int, from_rank as int, to_file as int, to_rank as int, side),
    {
        if !in_palace(to_file, to_rank, side) {
            return false;
        }
        let file_diff = if from_file >= to_file {
            from_file - to_file
        } else {
            to_file - from_file
        };
        let rank_diff = if from_rank >= to_rank {
            from_rank - to_rank
        } else {
            to_rank - from_rank
        };
        file_diff == 1 && rank_diff == 1
    }

    /// Elephant moves: two squares diagonally, same side of the river,
    /// eye cell empty.
    pub(crate) fn is_valid_elephant_move(
        &self,
        from_file: u8,
        from_rank: u8,
        to_file: u8,
        to_rank: u8,
        side: Color,
    ) -> (r: bool)
        requires
            self@.wf(),
            in_range(from_file as int, from_rank as int),
            in_range(to_file as int, to_rank as int),
        ensures
            r == elephant_ok(
                self@.grid,
                from_file as int,
                from_rank as int,
                to_file as int,
                to_rank as int,
                side,
            ),
    {
        match side {
            Color::Red => {
                if to_rank > 4 {
                    return false;
                }
            },
            Color::Black => {
                if to_rank < 5 {
                    return false;
                }
            },
        }
        let file_diff = if from_file >= to_file {
            from_file - to_file
        } else {
            to_file - from_file
        };
        let rank_diff = if from_rank >= to_rank {
            from_rank - to_rank
        } else {
            to_rank - from_rank
        };
        if file_diff != 2 || rank_diff != 2 {
            return false;
        }
        let mid_file = (from_file + to_file) / 2;
        let mid_rank = (from_rank + to_rank) / 2;
        self.byte_at(mid_file, mid_rank) == EMPTY
    }

    /// Horse moves: an L-shaped step with an empty leg cell.
    pub(crate) fn is_valid_horse_move(
        &self,
        from_file: u8,
        from_rank: u8,
        to_file: u8,
        to_rank: u8,
    ) -> (r: bool)
        requires
            self@.wf(),
            in_range(from_file as int, from_rank as int),
            in_range(to_file as int, to_rank as int),
        ensures
            r == horse_ok(
                self@.grid,
                from_file as int,
                from_rank as int,
                to_file as int,
                to_rank as int,
            ),
    {
        let file_diff = if from_file >= to_file {
            from_file - to_file
        } else {
            to_file - from_file
        };
        let rank_diff = if from_rank >= to_rank {
            from_rank - to_rank
        } else {
            to_rank - from_rank
        };
        if !((file_diff == 1 && rank_diff == 2) || (file_diff == 2 && rank_diff == 1)) {
            return false;
        }
        let (block_file, block_rank) = if file_diff == 2 {
            ((from_file + to_file) / 2, from_rank)
        } else {
            (from_file, (from_rank + to_rank) / 2)
        };
        self.byte_at(block_file, block_rank) == EMPTY
    }

    /// Chariot moves: a straight line over an empty path.
    pub(crate) fn is_valid_chariot_move(
        &self,
        from_file: u8,
        from_rank: u8,
        to_file: u8,
        to_rank: u8,
    ) -> (r: bool)
        requires
            self@.wf(),
            in_range(from_file as int, from_rank as int),
            in_range(to_file as int, to_rank as int),
        ensures
            r == chariot_ok(
                self@.grid,
                from_file as int,
                from_rank as int,
                to_file as int,
                to_rank as int,
            ),
    {
        if from_file != to_file && from_rank != to_rank {
            return false;
        }
        if from_file == to_file {
            let (start, end) = if from_rank < to_rank {
                (from_rank + 1, to_rank)
            } else {
                (to_rank + 1, from_rank)
            };
            let mut rank = start;
            while rank < end
                invariant
                    self@.wf(),
                    in_range(from_file as int, from_rank as int),
                    in_range(to_file as int, to_rank as int),
                    from_file == to_file,
                    start <= rank <= end || rank == start,
                    start == (if from_rank < to_rank {
                        from_rank + 1
                    } else {
                        to_rank + 1
                    }),
                    end == (if from_rank < to_rank {
                        to_rank
                    } else {
                        from_rank
                    }),
                    forall|q: int| start <= q < rank ==> empty_at(self@.grid, from_file as int, q),
                decreases end - rank,
            {
                if self.byte_at(from_file, rank) != EMPTY {
                    proof {
                        assert(!empty_at(self@.grid, from_file as int, rank as int));
                    }
                    return false;
                }
                rank += 1;
            }
        } else {
            let (start, end) = if from_file < to_file {
                (from_file + 1, to_file)
            } else {
                (to_file + 1, from_file)
            };
            let mut file = start;
            while file < end
                invariant
                    self@.wf(),
                    in_range(from_file as int, from_rank as int),
                    in_range(to_file as int, to_rank as int),
                    from_rank == to_rank,
                    from_file != to_file,
                    start <= file <= end || file == start,
                    start == (if from_file < to_file {
                        from_file + 1
                    } else {
                        to_file + 1
                    }),
                    end == (if from_file < to_file {
                        to_file
                    } else {
                        from_file
                    }),
                    forall|q: int| start <= q < file ==> empty_at(self@.grid, q, from_rank as int),
                decreases end - file,
            {
                if self.byte_at(file, from_rank) != EMPTY {
                    proof {
                        assert(!empty_at(self@.grid, file as int, from_rank as int));
                    }
                    return false;
                }
                file += 1;
            }
        }
        true
    }

    /// Cannon moves: a straight line; captures jump exactly one screen,
    /// non-captures need a clear path.
    pub(crate) fn is_valid_cannon_move(
        &self,
        from_file: u8,
        from_rank: u8,
        to_file: u8,
        to_rank: u8,
        is_capture: bool,
    ) -> (r: bool)
        requires
            self@.wf(),
            in_range(from_file as int, from_rank as int),
            in_range(to_file as int, to_rank as int),
        ensures
            r == cannon_ok(
                self@.grid,
                from_file as int,
                from_rank as int,
                to_file as int,
                to_rank as int,
                is_capture,
            ),
    {
        if from_file != to_file && from_rank != to_rank {
            return false;
        }
        let mut pieces_between: u8 = 0;
        if from_file == to_file {
            let (start, end) = if from_rank < to_rank {
                (from_rank + 1, to_rank)
            } else {
                (to_rank + 1, from_rank)
            };
            let mut rank = start;
            while rank < end
                invariant
                    self@.wf(),
                    in_range(from_file as int, from_rank as int),
                    in_range(to_file as int, to_rank as int),
                    from_file == to_file,
                    start <= rank <= end || rank == start,
                    end <= 9,
                    pieces_between <= rank,
                    pieces_between + count_occupied_on_file(
                        self@.grid,
                        from_file as int,
                        rank as int,
                        end as int,
                    ) == count_occupied_on_file(
                        self@.grid,
                        from_file as int,
                        start as int,
                        end as int,
                    ),
                decreases end - rank,
            {
                if self.byte_at(from_file, rank) != EMPTY {
                    pieces_between += 1;
                }
                rank += 1;
            }
        } else {
            let (start, end) = if from_file < to_file {
                (from_file + 1, to_file)
            } else {
                (to_file + 1, from_file)
            };
            let mut file = start;
            while file < end
                invariant
                    self@.wf(),
                    in_range(from_file as int, from_rank as int),
                    in_range(to_file as int, to_rank as int),
                    from_rank == to_rank,
                    from_file != to_file,
                    start <= file <= end || file == start,
                    end <= 8,
                    pieces_between <= file,
                    pieces_between + count_occupied_on_rank(
                        self@.grid,
                        from_rank as int,
                        file as int,
                        end as int,
                    ) == count_occupied_on_rank(
                        self@.grid,
                        from_rank as int,
                        start as int,
                        end as int,
                    ),
                decreases end - file,
            {
                if self.byte_at(file, from_rank) != EMPTY {
                    pieces_between += 1;
                }
                file += 1;
            }
        }
        if is_capture {
            pieces_between == 1
        } else {
            pieces_between == 0
        }
    }

    /// Soldier moves: forward one square, or sideways one square after
    /// crossing the river.
    pub(crate) fn is_valid_soldier_move(
        &self,
        from_file: u8,
        from_rank: u8,
        to_file: u8,
        to_rank: u8,
        side: Color,
    ) -> (r: bool)
        requires
            in_range(from_file as int, from_rank as int),
            in_range(to_file as int, to_rank as int),
        ensures
            r == soldier_ok(from_file as int, from_rank as int, to_file as int, to_rank as int, side),
    {
        let file_diff = if from_file >= to_file {
            from_file - to_file
        } else {
            to_file - from_file
        };
        let has_crossed = crossed_river(from_rank, side);
        match side {
            Color::Red => {
                if to_rank == from_rank + 1 && file_diff == 0 {
                    true
                } else if has_crossed && to_rank == from_rank && file_diff == 1 {
                    true
                } else {
                    false
                }
            },
            Color::Black => {
                if from_rank == to_rank + 1 && file_diff == 0 {
                    true
                } else if has_crossed && to_rank == from_rank && file_diff == 1 {
                    true
                } else {
                    false
                }
            },
        }
    }

    /// Dispatch to the movement rule of the given piece.
    pub(crate) fn is_valid_piece_move(
        &self,
        piece: Piece,
        from_file: u8,
        from_rank: u8,
        to_file: u8,
        to_rank: u8,
        is_capture: bool,
    ) -> (r: bool)
        requires
            self@.wf(),
            in_range(from_file as int, from_rank as int),
            in_range(to_file as int, to_rank as int),
        ensures
            r == move_ok(
                self@.grid,
                piece,
                from_file as int,
                from_rank as int,
                to_file as int,
                to_rank as int,
                is_capture,
            ),
    {
        match piece.piece_type {
            PieceType::General => self.is_valid_general_move(
                from_file,
                from_rank,
                to_file,
                to_rank,
                piece.color,
            ),
            PieceType::Advisor => self.is_valid_advisor_move(
                from_file,
                from_rank,
                to_file,
                to_rank,
                piece.color,
            ),
            PieceType::Elephant => self.is_valid_elephant_move(
                from_file,
                from_rank,
                to_file,
                to_rank,
                piece.color,
            ),
            PieceType::Horse => self.is_valid_horse_move(from_file, from_rank, to_file, to_rank),
            PieceType::Chariot => self.is_valid_chariot_move(from_file, from_rank, to_file, to_rank),
            PieceType::Cannon => self.is_valid_cannon_move(
                from_file,
                from_rank,
                to_file,
                to_rank,
                is_capture,
            ),
            PieceType::Soldier => self.is_valid_soldier_move(
                from_file,
                from_rank,
                to_file,
                to_rank,
                piece.color,
            ),
        }
    }
}

} // verus!
