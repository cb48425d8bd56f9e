//! The state of a game and the decisions of one tick.
//!
//! A tick has two halves. First the host asks [`Game::motion`] how far each
//! paddle steps and moves the boxes. Then it says in a [`Seen`] where the
//! ball came to lie, and [`Game::do_physics`] decides what follows from that.

use crate::frame::{frame, Color, Paint, Shape};
use crate::keys::{key_named, key_of, Key, Side};
use crate::rules::PADDLE_SPEED;
use crate::text::{decimal, decimal_string};
use vstd::prelude::*;
use vstd::string::*;

verus! {

/// One player: the two keys held or not, and the goals scored so far.
#[derive(Clone, Copy, Debug, PartialEq, Eq, Structural)]
pub struct Player {
    pub keyup: bool,
    pub keydown: bool,
    pub score: usize,
}

/// The vertical steps of one paddle in one tick, applied in this order.
/// Downward is positive.
#[derive(Clone, Copy, Debug, PartialEq, Eq, Structural)]
pub struct Steps {
    pub up: i32,
    pub down: i32,
}

/// What moves in the first half of a tick: both paddles, then the ball by its
/// own velocity.
#[derive(Clone, Copy, Debug, PartialEq, Eq, Structural)]
pub struct Motion {
    pub p1: Steps,
    pub p2: Steps,
}

/// How the ball's box lies apart from a paddle's box: one flag for each side
/// on which the ball is wholly clear of the paddle.
#[derive(Clone, Copy, Debug, PartialEq, Eq, Structural)]
pub struct Apart {
    /// The ball's left edge is beyond the paddle's right edge.
    pub right_of: bool,
    /// The ball's right edge is short of the paddle's left edge.
    pub left_of: bool,
    /// The ball's top edge is beyond the paddle's bottom edge.
    pub below: bool,
    /// The ball's bottom edge is short of the paddle's top edge.
    pub above: bool,
}

/// Where the ball lies once everything has moved.
#[derive(Clone, Copy, Debug, PartialEq, Eq, Structural)]
pub struct Seen {
    /// The ball's top edge is above the arena.
    pub over_top: bool,
    /// The ball's bottom edge is below the arena.
    pub under_bottom: bool,
    /// The ball against the left paddle.
    pub p1: Apart,
    /// The ball against the right paddle.
    pub p2: Apart,
    /// The ball's left edge is beyond the left edge of the arena.
    pub past_left: bool,
    /// The ball's right edge is beyond the right edge of the arena.
    pub past_right: bool,
}

/// A goal: who scored, the side toward which the next round is served, and
/// the score line to show.
#[derive(Debug, PartialEq, Eq)]
pub struct Goal {
    pub scorer: Side,
    pub serve: Side,
    pub score_text: String,
}

/// What the host does to the ball in the second half of a tick, in the order
/// of the fields. A struck ball keeps its speed and leaves toward the side
/// given. After a goal both paddles and the ball go back to where a round
/// starts, and the ball is served level at the serving speed.
#[derive(Debug, PartialEq, Eq)]
pub struct Outcome {
    /// The vertical velocity changes sign.
    pub bounce: bool,
    /// The left paddle strikes the ball, which leaves toward this side.
    pub hit_left: Option<Side>,
    /// The right paddle strikes the ball, which leaves toward this side.
    pub hit_right: Option<Side>,
    /// A goal fell.
    pub goal: Option<Goal>,
}

/// The rules' side of a game.
#[derive(Clone, Copy, Debug, PartialEq, Eq, Structural)]
pub struct Game {
    pub p1: Player,
    pub p2: Player,
    pub started_physics: bool,
    /// The side toward which the ball is heading.
    pub heading: Side,
}

/// The score line: both scores in decimal, the left player's first, with
/// a colon between two spaces in the middle.
pub open spec fn score_line(p1: nat, p2: nat) -> Seq<char> {
    decimal(p1) + seq![' ', ':', ' '] + decimal(p2)
}

impl Player {
    /// A player who holds no key and has not scored.
    pub open spec fn fresh() -> Player {
        Player { keyup: false, keydown: false, score: 0 }
    }

    /// The steps that the held keys ask for. Each key counts by itself.
    pub open spec fn steps(self) -> Steps {
        Steps {
            up: if self.keyup {
                (-PADDLE_SPEED) as i32
            } else {
                0i32
            },
            down: if self.keydown {
                PADDLE_SPEED
            } else {
                0i32
            },
        }
    }
}

impl Apart {
    /// Two boxes overlap unless one is wholly clear of the other on some side.
    pub open spec fn overlaps(self) -> bool {
        !(self.right_of || self.left_of || self.below || self.above)
    }
}

impl Seen {
    /// The ball bounces off the top or the bottom wall.
    pub open spec fn bounces(self) -> bool {
        self.over_top || self.under_bottom
    }

    /// Where a ball that was heading toward `heading` heads once the left
    /// paddle had its turn. A paddle that touches the ball sends it back.
    pub open spec fn past_left_paddle(self, heading: Side) -> Side {
        if self.p1.overlaps() {
            heading.flipped()
        } else {
            heading
        }
    }

    /// Where a ball that was heading toward `heading` heads once both paddles
    /// had their turn, the left one first.
    pub open spec fn turned(self, heading: Side) -> Side {
        if self.p2.overlaps() {
            self.past_left_paddle(heading).flipped()
        } else {
            self.past_left_paddle(heading)
        }
    }

    /// The side that scores, if any: a ball past the left edge counts for the
    /// right player, and only otherwise is the right edge looked at.
    pub open spec fn scorer(self) -> Option<Side> {
        if self.past_left {
            Some(Side::Right)
        } else if self.past_right {
            Some(Side::Left)
        } else {
            None
        }
    }
}

impl Outcome {
    /// Nothing happens to the ball.
    pub open spec fn is_idle(self) -> bool {
        !self.bounce && self.hit_left is None && self.hit_right is None && self.goal is None
    }
}

/// The steps of a paddle for the keys its player holds.
pub fn respond_to_keyboard(p: &Player) -> (steps: Steps)
    ensures
        steps == p.steps(),
{
    Steps {
        up: if p.keyup {
            -PADDLE_SPEED
        } else {
            0
        },
        down: if p.keydown {
            PADDLE_SPEED
        } else {
            0
        },
    }
}

/// Whether the ball touches a paddle from which it lies apart as given.
pub fn collide(apart: &Apart) -> (hit: bool)
    ensures
        hit == apart.overlaps(),
{
    if apart.right_of || apart.left_of || apart.below || apart.above {
        return false;
    }
    true
}

impl Game {
    /// The game with `key` held or let go and nothing else changed.
    pub open spec fn with_key(self, key: Key, held: bool) -> Game {
        match key {
            Key::Player1Up => Game { p1: Player { keyup: held, ..self.p1 }, ..self },
            Key::Player1Down => Game { p1: Player { keydown: held, ..self.p1 }, ..self },
            Key::Player2Up => Game { p2: Player { keyup: held, ..self.p2 }, ..self },
            Key::Player2Down => Game { p2: Player { keydown: held, ..self.p2 }, ..self },
        }
    }

    /// Whether `key` is held.
    pub open spec fn holds(self, key: Key) -> bool {
        match key {
            Key::Player1Up => self.p1.keyup,
            Key::Player1Down => self.p1.keydown,
            Key::Player2Up => self.p2.keyup,
            Key::Player2Down => self.p2.keydown,
        }
    }

    /// The game with the ticks taking effect and nothing else changed.
    pub open spec fn started(self) -> Game {
        Game { started_physics: true, ..self }
    }

    /// The game after the key that `code` names was pressed or released.
    pub open spec fn with_code(self, code: Seq<char>, held: bool) -> Game {
        match key_named(code) {
            Some(key) => self.with_key(key, held),
            None => self,
        }
    }

    /// What moves in the first half of a tick: nothing while the game is
    /// frozen.
    pub open spec fn moves(self) -> Option<Motion> {
        if self.started_physics {
            Some(Motion { p1: self.p1.steps(), p2: self.p2.steps() })
        } else {
            None
        }
    }

    /// The score that a tick would raise is below the largest a `usize` holds.
    pub open spec fn can_tick(self, seen: Seen) -> bool {
        self.started_physics ==> match seen.scorer() {
            Some(Side::Left) => self.p1.score < usize::MAX,
            Some(Side::Right) => self.p2.score < usize::MAX,
            None => true,
        }
    }

    /// The game after a tick that ended with the ball as `seen`.
    pub open spec fn after_tick(self, seen: Seen) -> Game {
        if !self.started_physics {
            self
        } else {
            let heading = seen.turned(self.heading);
            match seen.scorer() {
                Some(Side::Left) => Game {
                    p1: Player { score: (self.p1.score + 1) as usize, ..self.p1 },
                    heading,
                    ..self
                },
                Some(Side::Right) => Game {
                    p2: Player { score: (self.p2.score + 1) as usize, ..self.p2 },
                    heading,
                    ..self
                },
                None => Game { heading, ..self },
            }
        }
    }

    /// The game after one tick for each entry of `seen`, in order.
    pub open spec fn after_ticks(self, seen: Seq<Seen>) -> Game
        decreases seen.len(),
    {
        if seen.len() == 0 {
            self
        } else {
            self.after_ticks(seen.drop_last()).after_tick(seen.last())
        }
    }

    /// A new game: frozen, no key held, nobody has scored, and the ball set
    /// to leave toward the right.
    pub fn new() -> (game: Game)
        ensures
            game == (Game {
                p1: Player::fresh(),
                p2: Player::fresh(),
                started_physics: false,
                heading: Side::Right,
            }),
    {
        Game {
            p1: Player { keyup: false, keydown: false, score: 0 },
            p2: Player { keyup: false, keydown: false, score: 0 },
            started_physics: false,
            heading: Side::Right,
        }
    }

    /// Lets the ticks take effect from now on.
    pub fn start(&mut self)
        ensures
            *final(self) == old(self).started(),
    {
        self.started_physics = true;
    }

    /// Whether `key` is held.
    pub fn is_held(&self, key: Key) -> (held: bool)
        ensures
            held == self.holds(key),
    {
        match key {
            Key::Player1Up => self.p1.keyup,
            Key::Player1Down => self.p1.keydown,
            Key::Player2Up => self.p2.keyup,
            Key::Player2Down => self.p2.keydown,
        }
    }

    /// Records that `key` is held (`held`) or let go.
    pub fn set_key(&mut self, key: Key, held: bool)
        ensures
            *final(self) == old(self).with_key(key, held),
    {
        match key {
            Key::Player1Up => {
                self.p1.keyup = held;
            },
            Key::Player1Down => {
                self.p1.keydown = held;
            },
            Key::Player2Up => {
                self.p2.keyup = held;
            },
            Key::Player2Down => {
                self.p2.keydown = held;
            },
        }
    }

    /// A key was pressed. A code that names no key changes
    /// nothing.
    pub fn handle_keydown(&mut self, keycode: &str)
        ensures
            *final(self) == old(self).with_code(keycode@, true),
    {
        match key_of(keycode) {
            Some(key) => {
                self.set_key(key, true);
            },
            None => {},
        }
    }

    /// A key was released. A code that names no key changes
    /// nothing.
    pub fn handle_keyup(&mut self, keycode: &str)
        ensures
            *final(self) == old(self).with_code(keycode@, false),
    {
        match key_of(keycode) {
            Some(key) => {
                self.set_key(key, false);
            },
            None => {},
        }
    }

    /// First half of a tick: what the host moves. `None` while the game is
    /// frozen.
    pub fn motion(&self) -> (motion: Option<Motion>)
        ensures
            motion == self.moves(),
    {
        if !self.started_physics {
            return None;
        }
        Some(Motion { p1: respond_to_keyboard(&self.p1), p2: respond_to_keyboard(&self.p2) })
    }

    /// The score line as it stands.
    pub fn score_text(&self) -> (text: String)
        ensures
            text@ == score_line(self.p1.score as nat, self.p2.score as nat),
    {
        let mut text = decimal_string(self.p1.score);
        let right = decimal_string(self.p2.score);
        proof {
            reveal_strlit(" : ");
            assert(" : "@ =~= seq![' ', ':', ' ']);
        }
        text.append(" : ");
        text.append(right.as_str());
        text
    }

    /// What the host paints for one frame, in order. Painting reads the game
    /// and changes nothing, frozen or not.
    pub fn draw_animation_frame(&self) -> (paints: Vec<Paint>)
        ensures
            paints@ == frame(),
    {
        let paints = vec![
            Paint { shape: Shape::Arena, color: Color::Black },
            Paint { shape: Shape::Ball, color: Color::White },
            Paint { shape: Shape::LeftPaddle, color: Color::White },
            Paint { shape: Shape::RightPaddle, color: Color::White },
        ];
        assert(paints@ =~= frame());
        paints
    }

    /// Whether a tick that ends with the ball as `seen` can be counted.
    pub fn room_to_score(&self, seen: &Seen) -> (room: bool)
        ensures
            room == self.can_tick(*seen),
    {
        if !self.started_physics {
            true
        } else if seen.past_left {
            self.p2.score < usize::MAX
        } else if seen.past_right {
            self.p1.score < usize::MAX
        } else {
            true
        }
    }

    /// Second half of a tick: decides what happens to the ball that came to
    /// lie as `seen`, and counts a goal. The walls are looked at first, then
    /// the left paddle, the right paddle, and the two edges. A frozen game
    /// decides nothing and stays as it is.
    pub fn do_physics(&mut self, seen: &Seen) -> (outcome: Outcome)
        requires
            old(self).can_tick(*seen),
        ensures
            *final(self) == old(self).after_tick(*seen),
            !old(self).started_physics ==> outcome.is_idle(),
            old(self).started_physics ==> outcome.bounce == seen.bounces(),
            old(self).started_physics ==> outcome.hit_left == if seen.p1.overlaps() {
                Some(old(self).heading.flipped())
            } else {
                None
            },
            old(self).started_physics ==> outcome.hit_right == if seen.p2.overlaps() {
                Some(seen.past_left_paddle(old(self).heading).flipped())
            } else {
                None
            },
            old(self).started_physics ==> (outcome.goal is Some <==> seen.scorer() is Some),
            outcome.goal matches Some(goal) ==> seen.scorer() == Some(goal.scorer) && goal.serve
                == final(self).heading && goal.score_text@ == score_line(
                final(self).p1.score as nat,
                final(self).p2.score as nat,
            ),
    {
        if !self.started_physics {
            return Outcome { bounce: false, hit_left: None, hit_right: None, goal: None };
        }
        let bounce = seen.over_top || seen.under_bottom;
        let hit_left = if collide(&seen.p1) {
            self.heading = self.heading.opposite();
            Some(self.heading)
        } else {
            None
        };
        let hit_right = if collide(&seen.p2) {
            self.heading = self.heading.opposite();
            Some(self.heading)
        } else {
            None
        };
        let goal = if seen.past_left {
            self.p2.score = self.p2.score + 1;
            Some(Goal { scorer: Side::Right, serve: self.heading, score_text: self.score_text() })
        } else if seen.past_right {
            self.p1.score = self.p1.score + 1;
            Some(Goal { scorer: Side::Left, serve: self.heading, score_text: self.score_text() })
        } else {
            None
        };
        Outcome { bounce, hit_left, hit_right, goal }
    }
}

} // verus!
