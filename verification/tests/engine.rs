//! Board construction, cell access, and executor behaviour.

use libxiangqi::Board;
use libxiangqi::Color;
use libxiangqi::MoveError;
use libxiangqi::Piece;
use libxiangqi::PieceType;
use libxiangqi::pos_to_idx;

fn snapshot(b: &Board) -> (Vec<Option<Piece>>, bool) {
    let mut cells = Vec::new();
    for rank in 0..10u8 {
        for file in 0..9u8 {
            cells.push(b.get_piece(file, rank));
        }
    }
    (cells, b.turn())
}

#[test]
fn start_board_piece_census() {
    let b = Board::new();
    let mut total = 0;
    let mut red = 0;
    let mut black = 0;
    let mut counts = [[0u32; 7]; 2];
    for rank in 0..10u8 {
        for file in 0..9u8 {
            if let Some(p) = b.get_piece(file, rank) {
                total += 1;
                let side = match p.color() {
                    Color::Red => {
                        red += 1;
                        0
                    },
                    Color::Black => {
                        black += 1;
                        1
                    },
                };
                let t = match p.piece_type() {
                    PieceType::General => 0,
                    PieceType::Advisor => 1,
                    PieceType::Elephant => 2,
                    PieceType::Horse => 3,
                    PieceType::Chariot => 4,
                    PieceType::Cannon => 5,
                    PieceType::Soldier => 6,
                };
                counts[side][t] += 1;
            }
        }
    }
    assert_eq!(total, 32);
    assert_eq!(red, 16);
    assert_eq!(black, 16);
    for side in 0..2 {
        assert_eq!(counts[side], [1, 2, 2, 2, 2, 2, 5]);
    }
    assert!(b.turn(), "Red moves first");
}

#[test]
fn start_board_layout() {
    let b = Board::new();
    let back = [
        PieceType::Chariot,
        PieceType::Horse,
        PieceType::Elephant,
        PieceType::Advisor,
        PieceType::General,
        PieceType::Advisor,
        PieceType::Elephant,
        PieceType::Horse,
        PieceType::Chariot,
    ];
    for file in 0..9u8 {
        assert_eq!(b.get_piece(file, 0), Some(Piece::new(back[file as usize], Color::Red)));
        assert_eq!(b.get_piece(file, 9), Some(Piece::new(back[file as usize], Color::Black)));
    }
    for file in [1u8, 7] {
        assert_eq!(b.get_piece(file, 2), Some(Piece::new(PieceType::Cannon, Color::Red)));
        assert_eq!(b.get_piece(file, 7), Some(Piece::new(PieceType::Cannon, Color::Black)));
    }
    for file in [0u8, 2, 4, 6, 8] {
        assert_eq!(b.get_piece(file, 3), Some(Piece::new(PieceType::Soldier, Color::Red)));
        assert_eq!(b.get_piece(file, 6), Some(Piece::new(PieceType::Soldier, Color::Black)));
    }
    for rank in [1u8, 4, 5, 8] {
        for file in 0..9u8 {
            assert_eq!(b.get_piece(file, rank), None);
        }
    }
    for file in [0u8, 3, 5, 8] {
        assert_eq!(b.get_piece(file, 2), None);
        assert_eq!(b.get_piece(file, 7), None);
    }
    for file in [1u8, 3, 5, 7] {
        assert_eq!(b.get_piece(file, 3), None);
        assert_eq!(b.get_piece(file, 6), None);
    }
}

#[test]
fn pos_to_idx_mapping() {
    assert_eq!(pos_to_idx(0, 0), Some(13));
    assert_eq!(pos_to_idx(8, 0), Some(21));
    assert_eq!(pos_to_idx(0, 9), Some(121));
    assert_eq!(pos_to_idx(8, 9), Some(129));
    assert_eq!(pos_to_idx(4, 5), Some(77));
    assert_eq!(pos_to_idx(9, 0), None);
    assert_eq!(pos_to_idx(0, 10), None);
    assert_eq!(pos_to_idx(255, 255), None);
}

#[test]
fn set_then_get_every_cell() {
    for rank in 0..10u8 {
        for file in 0..9u8 {
            let mut b = Board::new();
            assert_eq!(b.set_piece(file, rank, PieceType::Horse, Color::Black), Some(()));
            assert_eq!(b.get_piece(file, rank), Some(Piece::new(PieceType::Horse, Color::Black)));
        }
    }
}

#[test]
fn set_then_get_all_piece_kinds() {
    let kinds = [
        PieceType::General,
        PieceType::Advisor,
        PieceType::Elephant,
        PieceType::Horse,
        PieceType::Chariot,
        PieceType::Cannon,
        PieceType::Soldier,
    ];
    for t in kinds {
        for side in [Color::Red, Color::Black] {
            let mut b = Board::new();
            assert_eq!(b.set_piece(4, 4, t, side), Some(()));
            assert_eq!(b.get_piece(4, 4), Some(Piece::new(t, side)));
        }
    }
}

#[test]
fn out_of_range_set_and_get() {
    let mut b = Board::new();
    let before = snapshot(&b);
    assert_eq!(b.set_piece(9, 0, PieceType::Soldier, Color::Red), None);
    assert_eq!(b.set_piece(0, 10, PieceType::Soldier, Color::Red), None);
    assert_eq!(b.set_piece(200, 200, PieceType::Soldier, Color::Red), None);
    assert_eq!(b.get_piece(9, 0), None);
    assert_eq!(b.get_piece(0, 10), None);
    assert_eq!(b.get_piece(200, 200), None);
    assert_eq!(snapshot(&b), before);
}

#[test]
fn failed_moves_leave_board_unchanged() {
    let mut b = Board::new();
    let before = snapshot(&b);
    assert_eq!(b.make_move(9, 0, 0, 0), Err(MoveError::OutOfBounds(9, 0)));
    assert_eq!(b.make_move(0, 0, 0, 10), Err(MoveError::OutOfBounds(0, 10)));
    assert_eq!(b.make_move(4, 4, 4, 5), Err(MoveError::NoPieceAtOrigin(4, 4)));
    assert_eq!(b.make_move(0, 6, 0, 5), Err(MoveError::WrongTurn));
    assert_eq!(b.make_move(0, 0, 0, 3), Err(MoveError::CaptureOwnPiece));
    assert_eq!(
        b.make_move(0, 0, 0, 4),
        Err(MoveError::IllegalPieceMove(PieceType::Chariot))
    );
    assert_eq!(snapshot(&b), before, "a rejected move must not mutate the board");
}

#[test]
fn successful_move_flips_turn_and_cannot_be_replayed() {
    let mut b = Board::new();
    assert!(b.turn());
    assert_eq!(b.make_move(4, 3, 4, 4), Ok(()));
    assert!(!b.turn(), "a successful move flips the turn exactly once");
    assert_eq!(b.get_piece(4, 3), None);
    assert_eq!(b.get_piece(4, 4), Some(Piece::new(PieceType::Soldier, Color::Red)));
    // The same move a second time finds an empty origin.
    assert_eq!(b.make_move(4, 3, 4, 4), Err(MoveError::NoPieceAtOrigin(4, 3)));
    // Even after an opposite-side move the origin is still empty.
    assert_eq!(b.make_move(4, 6, 4, 5), Ok(()));
    assert!(b.turn());
    assert_eq!(b.make_move(4, 3, 4, 4), Err(MoveError::NoPieceAtOrigin(4, 3)));
}

#[test]
fn capture_moves_piece_and_removes_target() {
    // Red cannon captures the black horse over the black cannon screen.
    let mut b = Board::new();
    assert_eq!(b.make_move(1, 2, 1, 9), Ok(()));
    assert_eq!(b.get_piece(1, 2), None);
    assert_eq!(b.get_piece(1, 9), Some(Piece::new(PieceType::Cannon, Color::Red)));
    assert!(!b.turn());
}
