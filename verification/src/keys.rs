//! The four keys of the game and the codes by which the host names them.

use crate::text::same_text;
use vstd::prelude::*;

verus! {

/// One of the two sides of the arena. The first player defends the left edge.
#[derive(Clone, Copy, Debug, PartialEq, Eq, Structural)]
pub enum Side {
    Left,
    Right,
}

/// What a key asks of a paddle.
#[derive(Clone, Copy, Debug, PartialEq, Eq, Structural)]
pub enum Key {
    Player1Up,
    Player1Down,
    Player2Up,
    Player2Down,
}

impl Side {
    /// The other side.
    pub open spec fn flipped(self) -> Side {
        match self {
            Side::Left => Side::Right,
            Side::Right => Side::Left,
        }
    }

    /// The other side.
    pub fn opposite(self) -> (other: Side)
        ensures
            other == self.flipped(),
    {
        match self {
            Side::Left => Side::Right,
            Side::Right => Side::Left,
        }
    }
}

impl Key {
    /// The side whose paddle the key drives.
    pub open spec fn side(self) -> Side {
        match self {
            Key::Player1Up | Key::Player1Down => Side::Left,
            Key::Player2Up | Key::Player2Down => Side::Right,
        }
    }

    /// Whether the key drives its paddle upward.
    pub open spec fn is_up(self) -> bool {
        self == Key::Player1Up || self == Key::Player2Up
    }
}

/// The characters of the code `KeyW`.
pub open spec fn code_player1_up() -> Seq<char> {
    seq!['K', 'e', 'y', 'W']
}

/// The characters of the code `KeyS`.
pub open spec fn code_player1_down() -> Seq<char> {
    seq!['K', 'e', 'y', 'S']
}

/// The characters of the code `ArrowUp`.
pub open spec fn code_player2_up() -> Seq<char> {
    seq!['A', 'r', 'r', 'o', 'w', 'U', 'p']
}

/// The characters of the code `ArrowDown`.
pub open spec fn code_player2_down() -> Seq<char> {
    seq!['A', 'r', 'r', 'o', 'w', 'D', 'o', 'w', 'n']
}

/// The key that a code names, if it names one. Codes are matched whole and
/// case counts; every other string names no key.
pub open spec fn key_named(code: Seq<char>) -> Option<Key> {
    if code == code_player1_up() {
        Some(Key::Player1Up)
    } else if code == code_player1_down() {
        Some(Key::Player1Down)
    } else if code == code_player2_up() {
        Some(Key::Player2Up)
    } else if code == code_player2_down() {
        Some(Key::Player2Down)
    } else {
        None
    }
}

/// Reads a key code as the host names it.
pub fn key_of(code: &str) -> (key: Option<Key>)
    ensures
        key == key_named(code@),
{
    proof {
        reveal_strlit("KeyW");
        reveal_strlit("KeyS");
        reveal_strlit("ArrowUp");
        reveal_strlit("ArrowDown");
        assert("KeyW"@ =~= code_player1_up());
        assert("KeyS"@ =~= code_player1_down());
        assert("ArrowUp"@ =~= code_player2_up());
        assert("ArrowDown"@ =~= code_player2_down());
    }
    if same_text(code, "KeyW") {
        Some(Key::Player1Up)
    } else if same_text(code, "KeyS") {
        Some(Key::Player1Down)
    } else if same_text(code, "ArrowUp") {
        Some(Key::Player2Up)
    } else if same_text(code, "ArrowDown") {
        Some(Key::Player2Down)
    } else {
        None
    }
}

/// The code by which the host names a key.
pub fn code_of(key: Key) -> (code: &'static str)
    ensures
        key_named(code@) == Some(key),
{
    proof {
        reveal_strlit("KeyW");
        reveal_strlit("KeyS");
        reveal_strlit("ArrowUp");
        reveal_strlit("ArrowDown");
        assert("KeyW"@ =~= code_player1_up());
        assert("KeyS"@ =~= code_player1_down());
        assert("ArrowUp"@ =~= code_player2_up());
        assert("ArrowDown"@ =~= code_player2_down());
        lemma_each_code_names_its_key();
    }
    match key {
        Key::Player1Up => "KeyW",
        Key::Player1Down => "KeyS",
        Key::Player2Up => "ArrowUp",
        Key::Player2Down => "ArrowDown",
    }
}

/// Each of the four codes names its own key, so no two keys share a code.
pub proof fn lemma_each_code_names_its_key()
    ensures
        key_named(code_player1_up()) == Some(Key::Player1Up),
        key_named(code_player1_down()) == Some(Key::Player1Down),
        key_named(code_player2_up()) == Some(Key::Player2Up),
        key_named(code_player2_down()) == Some(Key::Player2Down),
{
    assert(code_player1_up()[3] != code_player1_down()[3]);
    assert(code_player1_up().len() != code_player2_up().len());
    assert(code_player1_up().len() != code_player2_down().len());
    assert(code_player1_down().len() != code_player2_up().len());
    assert(code_player1_down().len() != code_player2_down().len());
    assert(code_player2_up().len() != code_player2_down().len());
}

} // verus!
