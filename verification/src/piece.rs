//! Pieces and their single-byte cell encoding.
//!
//! A board cell stores one byte: `EMPTY`, `OUT_OF_BOUNDS`, or an encoded
//! piece. The low four bits of a piece byte carry the type as an integer
//! in 1..=7, and bit 4 carries the side (0 = Red, 1 = Black).

use vstd::prelude::*;

verus! {

/// Byte stored in a playing-area cell that holds no piece.
pub const EMPTY: u8 = 0;

/// Byte stored in every backing-array cell outside the playing area.
pub const OUT_OF_BOUNDS: u8 = 255;

/// The seven Xiangqi piece types. Each type's movement rule is fixed.
#[derive(Clone, Copy, Debug, PartialEq, Eq, Structural)]
pub enum PieceType {
    General,
    Advisor,
    Elephant,
    Horse,
    Chariot,
    Cannon,
    Soldier,
}

/// The two sides of the game.
#[derive(Clone, Copy, Debug, PartialEq, Eq, Structural)]
pub enum Color {
    Red,
    Black,
}

/// A piece: a type together with the side that owns it.
#[derive(Clone, Copy, Debug, PartialEq, Eq, Structural)]
pub struct Piece {
    pub piece_type: PieceType,
    pub color: Color,
}

/// The integer 1..=7 that encodes a piece type in a cell byte.
pub open spec fn piece_code(t: PieceType) -> u8 {
    match t {
        PieceType::General => 1,
        PieceType::Advisor => 2,
        PieceType::Elephant => 3,
        PieceType::Horse => 4,
        PieceType::Chariot => 5,
        PieceType::Cannon => 6,
        PieceType::Soldier => 7,
    }
}

/// The byte a piece serializes to: type code in the low four bits,
/// side flag in bit 4.
pub open spec fn spec_to_u8(p: Piece) -> u8 {
    (piece_code(p.piece_type) + if p.color == Color::Black {
        16u8
    } else {
        0u8
    }) as u8
}

/// The piece a byte deserializes to. The two reserved bytes and any
/// byte with a type code outside 1..=7 yield no piece.
pub open spec fn spec_from_u8(val: u8) -> Option<Piece> {
    if val == EMPTY || val == OUT_OF_BOUNDS {
        None
    } else {
        let code = val & 0x0f;
        let color = if val & 0x10 != 0 {
            Color::Black
        } else {
            Color::Red
        };
        match code {
            1u8 => Some(Piece { piece_type: PieceType::General, color }),
            2u8 => Some(Piece { piece_type: PieceType::Advisor, color }),
            3u8 => Some(Piece { piece_type: PieceType::Elephant, color }),
            4u8 => Some(Piece { piece_type: PieceType::Horse, color }),
            5u8 => Some(Piece { piece_type: PieceType::Chariot, color }),
            6u8 => Some(Piece { piece_type: PieceType::Cannon, color }),
            7u8 => Some(Piece { piece_type: PieceType::Soldier, color }),
            _ => None,
        }
    }
}

/// A byte is a valid cell occupant when it decodes to a piece.
pub open spec fn valid_piece_byte(val: u8) -> bool {
    spec_from_u8(val) is Some
}

/// Encoding then decoding gives back the same piece: the 14 legal
/// encodings are pairwise distinct and none collides with a reserved byte.
pub proof fn lemma_to_from_u8(p: Piece)
    ensures
        spec_from_u8(spec_to_u8(p)) == Some(p),
{
    let code = piece_code(p.piece_type);
    let flag: u8 = if p.color == Color::Black {
        16
    } else {
        0
    };
    assert(1 <= code <= 7);
    let v = spec_to_u8(p);
    assert(v == code + flag);
    assert(v & 0x0f == code && ((v & 0x10 != 0) <==> flag == 16)) by (bit_vector)
        requires
            1 <= code <= 7,
            flag == 0 || flag == 16,
            v == code + flag,
    ;
}

impl Piece {
    /// Pair a piece type with the side that owns it.
    pub fn new(piece_type: PieceType, side: Color) -> (p: Piece)
        ensures
            p == (Piece { piece_type, color: side }),
    {
        Piece { piece_type, color: side }
    }

    /// The type of this piece.
    pub fn piece_type(&self) -> (t: PieceType)
        ensures
            t == self.piece_type,
    {
        self.piece_type
    }

    /// The side that owns this piece.
    pub fn color(&self) -> (c: Color)
        ensures
            c == self.color,
    {
        self.color
    }

    /// Serialize this piece to its cell byte.
    pub(crate) fn to_u8(self) -> (v: u8)
        ensures
            v == spec_to_u8(self),
    {
        let piece_val: u8 = match self.piece_type {
            PieceType::General => 1,
            PieceType::Advisor => 2,
            PieceType::Elephant => 3,
            PieceType::Horse => 4,
            PieceType::Chariot => 5,
            PieceType::Cannon => 6,
            PieceType::Soldier => 7,
        };
        let color_flag: u8 = match self.color {
            Color::Red => 0,
            Color::Black => 0b0001_0000,
        };
        proof {
            assert(piece_val | color_flag == piece_val + color_flag) by (bit_vector)
                requires
                    1 <= piece_val <= 7,
                    color_flag == 0 || color_flag == 16,
            ;
        }
        piece_val | color_flag
    }

    /// Deserialize a cell byte; the reserved bytes and malformed codes
    /// yield no piece.
    pub(crate) fn from_u8(val: u8) -> (p: Option<Piece>)
        ensures
            p == spec_from_u8(val),
    {
        if val == EMPTY || val == OUT_OF_BOUNDS {
            return None;
        }
        let piece_code: u8 = val & 0b0000_1111;
        let is_black: bool = (val & 0b0001_0000) != 0;
        let piece_type = match piece_code {
            1 => PieceType::General,
            2 => PieceType::Advisor,
            3 => PieceType::Elephant,
            4 => PieceType::Horse,
            5 => PieceType::Chariot,
            6 => PieceType::Cannon,
            7 => PieceType::Soldier,
            _ => {
                return None;
            },
        };
        let side = if is_black {
            Color::Black
        } else {
            Color::Red
        };
        Some(Piece { piece_type, color: side })
    }
}

} // verus!
