//! What holds of every game, proved from the definitions of the tick.

use crate::game::{Game, Player, Seen};
use crate::keys::{key_named, Key, Side};
use vstd::prelude::*;

verus! {

/// A key event writes the flag of its key and nothing else: every other flag,
/// both scores and the frozen state stay as they were.
pub proof fn lemma_key_writes_one_flag(game: Game, key: Key, held: bool, other: Key)
    ensures
        game.with_key(key, held).holds(other) == if other == key {
            held
        } else {
            game.holds(other)
        },
        game.with_key(key, held).p1.score == game.p1.score,
        game.with_key(key, held).p2.score == game.p2.score,
        game.with_key(key, held).started_physics == game.started_physics,
        game.with_key(key, held).heading == game.heading,
{
}

/// A code that names no key is ignored, pressed or released.
pub proof fn lemma_unknown_code_ignored(game: Game, code: Seq<char>, held: bool)
    requires
        key_named(code) is None,
    ensures
        game.with_code(code, held) == game,
{
}

/// Starting a started game changes nothing, and starting changes nothing
/// but the frozen state.
pub proof fn lemma_start_idempotent(game: Game)
    ensures
        game.started().started() == game.started(),
        game.started().started_physics,
        game.started().p1 == game.p1,
        game.started().p2 == game.p2,
        game.started().heading == game.heading,
{
}

/// A player who holds both keys steps up and down by the same distance, and
/// so ends the tick where the paddle began.
pub proof fn lemma_opposed_keys_cancel(player: Player)
    requires
        player.keyup,
        player.keydown,
    ensures
        player.steps().up + player.steps().down == 0,
{
}

/// While the game is frozen nothing moves and no tick changes anything,
/// whatever keys are held and wherever the ball is said to lie.
pub proof fn lemma_frozen_stays(game: Game, seen: Seq<Seen>)
    requires
        !game.started_physics,
    ensures
        game.moves() is None,
        game.after_ticks(seen) == game,
    decreases seen.len(),
{
    if seen.len() > 0 {
        lemma_frozen_stays(game, seen.drop_last());
    }
}

/// In a running game a tick raises a score by one exactly when the ball has
/// passed the other player's edge, and leaves it alone otherwise. Keys are
/// never touched. A ball said to be past both edges counts as past the left.
pub proof fn lemma_score_step(game: Game, seen: Seen)
    requires
        game.started_physics,
        game.can_tick(seen),
    ensures
        game.after_tick(seen).p2.score == game.p2.score + if seen.past_left {
            1int
        } else {
            0int
        },
        game.after_tick(seen).p1.score == game.p1.score + if seen.past_right && !seen.past_left {
            1int
        } else {
            0int
        },
        game.after_tick(seen).p1.keyup == game.p1.keyup,
        game.after_tick(seen).p1.keydown == game.p1.keydown,
        game.after_tick(seen).p2.keyup == game.p2.keyup,
        game.after_tick(seen).p2.keydown == game.p2.keydown,
        game.after_tick(seen).started_physics,
{
}

/// A paddle that touches the ball sends it back the way it came: after a
/// tick in which one paddle struck, the ball heads the other way. With no
/// paddle in touch it keeps its way, and so it does when both strike, each
/// turning it once. Walls and goals never turn the ball, so a round is served
/// the way the ball was last heading.
pub proof fn lemma_struck_ball_turns(game: Game, seen: Seen)
    requires
        game.started_physics,
    ensures
        seen.p1.overlaps() != seen.p2.overlaps() ==> game.after_tick(seen).heading
            == game.heading.flipped(),
        seen.p1.overlaps() == seen.p2.overlaps() ==> game.after_tick(seen).heading
            == game.heading,
        game.heading.flipped() != game.heading,
        game.heading.flipped().flipped() == game.heading,
{
}

/// The side that a tick credits is the one that scores by what was seen, and no
/// tick credits both.
pub proof fn lemma_one_goal_a_tick(game: Game, seen: Seen)
    requires
        game.can_tick(seen),
    ensures
        game.after_tick(seen).p1.score == game.p1.score || game.after_tick(seen).p2.score
            == game.p2.score,
        game.after_tick(seen).p1.score != game.p1.score ==> seen.scorer() == Some(Side::Left),
        game.after_tick(seen).p2.score != game.p2.score ==> seen.scorer() == Some(Side::Right),
{
}

/// Over any run of ticks no score falls, and the two scores together rise by
/// at most one a tick.
pub proof fn lemma_scores_never_fall(game: Game, seen: Seq<Seen>)
    requires
        game.p1.score + seen.len() <= usize::MAX,
        game.p2.score + seen.len() <= usize::MAX,
    ensures
        game.p1.score <= game.after_ticks(seen).p1.score,
        game.p2.score <= game.after_ticks(seen).p2.score,
        game.after_ticks(seen).p1.score + game.after_ticks(seen).p2.score <= game.p1.score
            + game.p2.score + seen.len(),
        game.after_ticks(seen).started_physics == game.started_physics,
    decreases seen.len(),
{
    if seen.len() > 0 {
        lemma_scores_never_fall(game, seen.drop_last());
    }
}

} // verus!
