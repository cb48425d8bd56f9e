//! What a frame shows: the boxes to paint, in order, and their colours.

use vstd::prelude::*;

verus! {

/// A box that the host knows how to place.
#[derive(Clone, Copy, Debug, PartialEq, Eq, Structural)]
pub enum Shape {
    /// The whole arena, from its origin to its far corner.
    Arena,
    Ball,
    LeftPaddle,
    RightPaddle,
}

/// A colour of the game.
#[derive(Clone, Copy, Debug, PartialEq, Eq, Structural)]
pub enum Color {
    Black,
    White,
}

/// One filled box of a frame.
#[derive(Clone, Copy, Debug, PartialEq, Eq, Structural)]
pub struct Paint {
    pub shape: Shape,
    pub color: Color,
}

impl Color {
    /// The colour as the host takes it: a hash sign and six hexadecimal
    /// digits, two each for red, green and blue.
    pub open spec fn hex_code(self) -> Seq<char> {
        match self {
            Color::Black => seq!['#', '0', '0', '0', '0', '0', '0'],
            Color::White => seq!['#', 'F', 'F', 'F', 'F', 'F', 'F'],
        }
    }

    /// The colour as the host takes it.
    pub fn hex(self) -> (code: &'static str)
        ensures
            code@ == self.hex_code(),
    {
        proof {
            reveal_strlit("#000000");
            reveal_strlit("#FFFFFF");
            assert("#000000"@ =~= Color::Black.hex_code());
            assert("#FFFFFF"@ =~= Color::White.hex_code());
        }
        match self {
            Color::Black => "#000000",
            Color::White => "#FFFFFF",
        }
    }
}

/// Whether `c` is a hexadecimal digit.
pub open spec fn is_hex_digit(c: char) -> bool {
    ('0' <= c && c <= '9') || ('A' <= c && c <= 'F') || ('a' <= c && c <= 'f')
}

/// A frame, back to front: the arena in black, then the ball and the two
/// paddles in white.
pub open spec fn frame() -> Seq<Paint> {
    seq![
        Paint { shape: Shape::Arena, color: Color::Black },
        Paint { shape: Shape::Ball, color: Color::White },
        Paint { shape: Shape::LeftPaddle, color: Color::White },
        Paint { shape: Shape::RightPaddle, color: Color::White },
    ]
}

/// Every colour code is a hash sign followed by six hexadecimal digits.
pub proof fn lemma_hex_code_shape(color: Color)
    ensures
        color.hex_code().len() == 7,
        color.hex_code()[0] == '#',
        forall|i: int| 1 <= i < 7 ==> is_hex_digit(#[trigger] color.hex_code()[i]),
{
}

/// A frame paints the arena first, over everything before it, and then each
/// of the three moving boxes once, in white on black.
pub proof fn lemma_frame_shape()
    ensures
        frame().len() == 4,
        frame()[0] == (Paint { shape: Shape::Arena, color: Color::Black }),
        forall|i: int| 1 <= i < 4 ==> (#[trigger] frame()[i]).color == Color::White,
        forall|i: int, j: int| 0 <= i < j < 4 ==> (#[trigger] frame()[i]).shape != (#[trigger] frame()[j]).shape,
{
}

} // verus!
