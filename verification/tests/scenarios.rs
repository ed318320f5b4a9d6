//! Game scenarios: soldiers at the river, blocked chariots, cannon
//! screens, and the generated move list.

use libxiangqi::Board;
use libxiangqi::Color;
use libxiangqi::MoveError;
use libxiangqi::Piece;
use libxiangqi::PieceType;

#[test]
fn soldier_forward_then_sideways_before_crossing() {
    let mut b = Board::new();
    // Forward move succeeds.
    assert_eq!(b.make_move(4, 3, 4, 4), Ok(()));
    // Immediately replaying with the same (Red) soldier is the wrong turn.
    assert_eq!(b.make_move(4, 4, 3, 4), Err(MoveError::WrongTurn));
    // After a Black reply, the sideways step is still illegal: rank 4 has
    // not crossed the river for Red.
    assert_eq!(b.make_move(4, 6, 4, 5), Ok(()));
    assert_eq!(
        b.make_move(4, 4, 3, 4),
        Err(MoveError::IllegalPieceMove(PieceType::Soldier))
    );
}

#[test]
fn soldier_sideways_after_crossing() {
    let mut b = Board::new();
    assert_eq!(b.make_move(4, 3, 4, 4), Ok(()));
    assert_eq!(b.make_move(0, 6, 0, 5), Ok(()));
    assert_eq!(b.make_move(4, 4, 4, 5), Ok(()));
    assert_eq!(b.make_move(0, 5, 0, 4), Ok(()));
    // The Red soldier now stands on rank 5, across the river: sideways is
    // legal.
    assert_eq!(b.make_move(4, 5, 3, 5), Ok(()));
    // A soldier never moves backward.
    assert_eq!(b.make_move(0, 4, 0, 5), Err(MoveError::IllegalPieceMove(PieceType::Soldier)));
}

#[test]
fn chariot_path_clears_after_soldiers_advance() {
    let mut b = Board::new();
    assert_eq!(b.make_move(0, 3, 0, 4), Ok(()));
    assert_eq!(b.make_move(0, 6, 0, 5), Ok(()));
    assert_eq!(b.make_move(0, 0, 0, 3), Ok(()));
    assert_eq!(b.get_piece(0, 0), None);
    assert_eq!(b.get_piece(0, 3), Some(Piece::new(PieceType::Chariot, Color::Red)));
}

#[test]
fn chariot_blocked_by_own_soldier() {
    let mut b = Board::new();
    assert_eq!(
        b.make_move(0, 0, 0, 4),
        Err(MoveError::IllegalPieceMove(PieceType::Chariot))
    );
}

#[test]
fn cannon_capture_needs_exactly_one_screen() {
    // From the start, the Red cannon at (1,2) has exactly one piece — the
    // Black cannon at (1,7) — between it and the Black horse at (1,9): the
    // capture is legal.
    let mut b = Board::new();
    assert_eq!(b.make_move(1, 2, 1, 9), Ok(()));

    // Move the screen away instead: the same capture becomes illegal, and
    // a non-capturing move along the now-clear file is legal.
    let mut b = Board::new();
    assert_eq!(b.make_move(4, 3, 4, 4), Ok(()));
    assert_eq!(b.make_move(1, 7, 2, 7), Ok(()));
    assert_eq!(
        b.make_move(1, 2, 1, 9),
        Err(MoveError::IllegalPieceMove(PieceType::Cannon))
    );
    assert_eq!(b.make_move(1, 2, 1, 6), Ok(()));
}

#[test]
fn cannon_cannot_capture_through_two_screens() {
    let mut b = Board::new();
    // Put a second Red soldier on file 1 between the cannon and the horse.
    assert_eq!(b.set_piece(1, 5, PieceType::Soldier, Color::Red), Some(()));
    assert_eq!(
        b.make_move(1, 2, 1, 9),
        Err(MoveError::IllegalPieceMove(PieceType::Cannon))
    );
}

#[test]
fn cannon_cannot_move_through_a_piece_without_capturing() {
    let mut b = Board::new();
    // (1,8) is empty but the Black cannon at (1,7) stands in the way.
    assert_eq!(
        b.make_move(1, 2, 1, 8),
        Err(MoveError::IllegalPieceMove(PieceType::Cannon))
    );
}

#[test]
fn horse_blocked_by_leg() {
    let mut b = Board::new();
    // The horse at (1,0) cannot jump toward (3,1): the elephant at (2,0)
    // blocks its leg.
    assert_eq!(
        b.make_move(1, 0, 3, 1),
        Err(MoveError::IllegalPieceMove(PieceType::Horse))
    );
    // Toward (2,2) the leg cell (1,1) is empty.
    assert_eq!(b.make_move(1, 0, 2, 2), Ok(()));
}

#[test]
fn elephant_eye_and_river() {
    let mut b = Board::new();
    assert_eq!(b.make_move(2, 0, 4, 2), Ok(()));
    assert_eq!(b.make_move(2, 9, 4, 7), Ok(()));
    // Block the eye: with a piece at (3,3), (4,2) -> (2,4) is illegal.
    assert_eq!(b.set_piece(3, 3, PieceType::Soldier, Color::Black), Some(()));
    assert_eq!(
        b.make_move(4, 2, 2, 4),
        Err(MoveError::IllegalPieceMove(PieceType::Elephant))
    );
    // The other diagonal is open.
    assert_eq!(b.make_move(4, 2, 6, 4), Ok(()));
    // A Black elephant may never cross to rank 4 or below.
    assert_eq!(
        b.make_move(4, 7, 6, 5),
        Ok(())
    );
    assert_eq!(b.make_move(6, 4, 4, 2), Ok(()));
    assert_eq!(
        b.make_move(6, 5, 4, 3),
        Err(MoveError::IllegalPieceMove(PieceType::Elephant))
    );
}

#[test]
fn general_and_advisor_stay_in_palace() {
    let mut b = Board::new();
    assert_eq!(b.make_move(4, 0, 4, 1), Ok(()));
    assert_eq!(b.make_move(4, 9, 4, 8), Ok(()));
    // One square only, never diagonal.
    assert_eq!(
        b.make_move(4, 1, 5, 2),
        Err(MoveError::IllegalPieceMove(PieceType::General))
    );
    // Advisors move one diagonal step inside the palace.
    assert_eq!(b.make_move(3, 0, 4, 1), Err(MoveError::CaptureOwnPiece));
    assert_eq!(b.make_move(5, 0, 4, 1), Err(MoveError::CaptureOwnPiece));
    assert_eq!(b.make_move(4, 1, 4, 2), Ok(()));
    assert_eq!(b.make_move(4, 8, 4, 7), Ok(()));
    assert_eq!(b.make_move(3, 0, 3, 1), Err(MoveError::IllegalPieceMove(PieceType::Advisor)));
    assert_eq!(b.make_move(3, 0, 4, 1), Ok(()));
    // The Black general cannot step onto its own soldier at (4,6)...
    assert_eq!(b.make_move(4, 7, 4, 6), Err(MoveError::CaptureOwnPiece));
    assert_eq!(b.make_move(4, 6, 4, 5), Ok(()));
    // An advisor never takes a two-square step.
    assert_eq!(b.make_move(4, 1, 2, 1), Err(MoveError::IllegalPieceMove(PieceType::Advisor)));
    assert_eq!(b.make_move(0, 3, 0, 4), Ok(()));
    // ...and once that cell is free, leaving the palace (ranks 7..=9) is
    // still illegal.
    assert_eq!(
        b.make_move(4, 7, 4, 6),
        Err(MoveError::IllegalPieceMove(PieceType::General))
    );
}

#[test]
fn start_position_legal_moves() {
    let b = Board::new();
    let moves = b.get_legal_moves();

    // The standard starting position admits 44 pseudo-legal moves.
    assert_eq!(moves.len(), 44);

    // No duplicate (from, to) pairs.
    for i in 0..moves.len() {
        for j in (i + 1)..moves.len() {
            assert_ne!(moves[i], moves[j]);
        }
    }

    // Every generated move is accepted by the executor on a fresh board.
    for &(ff, fr, tf, tr) in &moves {
        let mut fresh = Board::new();
        assert_eq!(fresh.make_move(ff, fr, tf, tr), Ok(()), "generated move should apply");
    }

    // Spot checks: present and absent entries.
    assert!(moves.contains(&(4, 3, 4, 4)), "soldier push");
    assert!(moves.contains(&(1, 2, 1, 9)), "cannon takes the horse over one screen");
    assert!(moves.contains(&(4, 0, 4, 1)), "general steps forward");
    assert!(!moves.contains(&(0, 0, 0, 3)), "chariot cannot land on its own soldier");
    assert!(!moves.contains(&(0, 6, 0, 5)), "Black does not move first");

    // Only Red pieces move, and every origin really holds a Red piece.
    for &(ff, fr, _, _) in &moves {
        let p = b.get_piece(ff, fr).expect("origin must hold a piece");
        assert_eq!(p.color(), Color::Red);
    }
}

#[test]
fn legal_moves_for_black_after_one_move() {
    let mut b = Board::new();
    assert_eq!(b.make_move(4, 3, 4, 4), Ok(()));
    let moves = b.get_legal_moves();
    assert!(!moves.is_empty());
    for &(ff, fr, _, _) in &moves {
        assert_eq!(b.get_piece(ff, fr).unwrap().color(), Color::Black);
    }
}
