use pong::rules::{BALL_SIZE, DEFLECTION_SPAN, PADDLE_HEIGHT, PADDLE_INSET, PADDLE_SPEED, PADDLE_WIDTH, SERVE_SPEED};
use pong::{collide, respond_to_keyboard, Apart, Game, Goal, Motion, Outcome, Player, Seen, Side, Steps};

const CLEAR: Apart = Apart { right_of: true, left_of: false, below: false, above: false };
const TOUCHING: Apart = Apart { right_of: false, left_of: false, below: false, above: false };
const STILL: Steps = Steps { up: 0, down: 0 };

/// A ball in open play: clear of walls, paddles and edges.
fn open_play() -> Seen {
    Seen { over_top: false, under_bottom: false, p1: CLEAR, p2: CLEAR, past_left: false, past_right: false }
}

fn idle() -> Outcome {
    Outcome { bounce: false, hit_left: None, hit_right: None, goal: None }
}

fn started() -> Game {
    let mut game = Game::new();
    game.start();
    game
}

#[test]
fn the_measures_of_the_game() {
    assert_eq!(PADDLE_INSET, 120);
    assert_eq!(PADDLE_WIDTH, 20);
    assert_eq!(PADDLE_HEIGHT, 120);
    assert_eq!(BALL_SIZE, 20);
    assert_eq!(PADDLE_SPEED, 6);
    assert_eq!(SERVE_SPEED, 7);
    assert_eq!(DEFLECTION_SPAN, 30);
}

#[test]
fn a_new_game_is_frozen_and_blank() {
    let game = Game::new();
    let blank = Player { keyup: false, keydown: false, score: 0 };
    assert_eq!(game, Game { p1: blank, p2: blank, started_physics: false, heading: Side::Right });
    assert_eq!(game.motion(), None);
}

#[test]
fn start_is_idempotent() {
    let mut game = Game::new();
    game.handle_keydown("KeyS");
    game.start();
    let once = game;
    assert!(once.started_physics);
    assert!(once.p1.keydown);
    game.start();
    assert_eq!(game, once);
}

#[test]
fn steps_follow_the_keys() {
    let mut p = Player { keyup: false, keydown: false, score: 4 };
    assert_eq!(respond_to_keyboard(&p), Steps { up: 0, down: 0 });
    p.keyup = true;
    assert_eq!(respond_to_keyboard(&p), Steps { up: -6, down: 0 });
    p.keydown = true;
    assert_eq!(respond_to_keyboard(&p), Steps { up: -6, down: 6 });
    p.keyup = false;
    assert_eq!(respond_to_keyboard(&p), Steps { up: 0, down: 6 });
}

#[test]
fn opposed_keys_cancel() {
    let mut game = started();
    game.handle_keydown("ArrowUp");
    game.handle_keydown("ArrowDown");
    let motion = game.motion().unwrap();
    assert_eq!(motion.p1, STILL);
    assert_eq!(motion.p2.up + motion.p2.down, 0);
    let mut y = 240.0_f64;
    y += f64::from(motion.p2.up);
    y += f64::from(motion.p2.down);
    assert_eq!(y, 240.0);
}

#[test]
fn ten_ticks_with_up_held_raise_the_left_paddle_by_sixty() {
    let mut game = Game::new();
    game.start();
    game.handle_keydown("KeyW");
    let x = f64::from(PADDLE_INSET);
    let mut y = 600.0 / 2.0 - f64::from(PADDLE_HEIGHT) / 2.0;
    let mut other = y;
    assert_eq!(y, 240.0);
    for _ in 0..10 {
        let motion = game.motion().unwrap();
        y += f64::from(motion.p1.up);
        y += f64::from(motion.p1.down);
        other += f64::from(motion.p2.up);
        other += f64::from(motion.p2.down);
        let outcome = game.do_physics(&open_play());
        assert_eq!(outcome, idle());
    }
    assert_eq!(y, 180.0);
    assert_eq!(other, 240.0);
    assert_eq!(x, 120.0);
}

#[test]
fn a_frozen_game_never_moves() {
    let mut game = Game::new();
    game.handle_keydown("KeyW");
    game.handle_keydown("ArrowDown");
    let before = game;
    let sights = [
        open_play(),
        Seen { past_left: true, ..open_play() },
        Seen { past_right: true, ..open_play() },
        Seen { over_top: true, p1: TOUCHING, p2: TOUCHING, ..open_play() },
    ];
    for _ in 0..5 {
        for seen in sights.iter() {
            assert_eq!(game.motion(), None);
            assert!(game.room_to_score(seen));
            assert_eq!(game.do_physics(seen), idle());
            assert_eq!(game, before);
        }
    }
}

#[test]
fn a_frozen_game_ignores_a_full_score() {
    let mut game = Game::new();
    game.p2.score = usize::MAX;
    let seen = Seen { past_left: true, ..open_play() };
    assert!(game.room_to_score(&seen));
    assert_eq!(game.do_physics(&seen), idle());
    assert_eq!(game.p2.score, usize::MAX);
}

#[test]
fn open_play_changes_nothing() {
    let mut game = started();
    game.handle_keydown("KeyS");
    let before = game;
    assert_eq!(game.do_physics(&open_play()), idle());
    assert_eq!(game, before);
    assert_eq!(
        game.motion(),
        Some(Motion { p1: Steps { up: 0, down: 6 }, p2: STILL })
    );
}

#[test]
fn the_ball_bounces_off_either_wall() {
    let mut game = started();
    let top = game.do_physics(&Seen { over_top: true, ..open_play() });
    assert_eq!(top, Outcome { bounce: true, ..idle() });
    let bottom = game.do_physics(&Seen { under_bottom: true, ..open_play() });
    assert_eq!(bottom, Outcome { bounce: true, ..idle() });
    let both = game.do_physics(&Seen { over_top: true, under_bottom: true, ..open_play() });
    assert_eq!(both, Outcome { bounce: true, ..idle() });
    assert_eq!(game, started());
}

#[test]
fn boxes_touch_unless_clear_on_some_side() {
    assert!(collide(&TOUCHING));
    assert!(!collide(&Apart { right_of: true, ..TOUCHING }));
    assert!(!collide(&Apart { left_of: true, ..TOUCHING }));
    assert!(!collide(&Apart { below: true, ..TOUCHING }));
    assert!(!collide(&Apart { above: true, ..TOUCHING }));
    assert!(!collide(&Apart { right_of: true, left_of: true, below: true, above: true }));
}

#[test]
fn a_struck_ball_turns_back() {
    let mut game = started();
    assert_eq!(game.heading, Side::Right);
    let right = game.do_physics(&Seen { p2: TOUCHING, ..open_play() });
    assert_eq!(right, Outcome { hit_right: Some(Side::Left), ..idle() });
    assert_eq!(game.heading, Side::Left);
    let left = game.do_physics(&Seen { p1: TOUCHING, ..open_play() });
    assert_eq!(left, Outcome { hit_left: Some(Side::Right), ..idle() });
    assert_eq!(game.heading, Side::Right);
    assert_eq!(game, started());
}

#[test]
fn a_paddle_still_in_touch_strikes_again() {
    let mut game = started();
    let first = game.do_physics(&Seen { p1: TOUCHING, ..open_play() });
    assert_eq!(first.hit_left, Some(Side::Left));
    let second = game.do_physics(&Seen { p1: TOUCHING, ..open_play() });
    assert_eq!(second.hit_left, Some(Side::Right));
    assert_eq!(game.heading, Side::Right);
}

#[test]
fn two_paddles_in_touch_turn_the_ball_twice() {
    let mut game = started();
    let both = game.do_physics(&Seen { p1: TOUCHING, p2: TOUCHING, under_bottom: true, ..open_play() });
    assert_eq!(
        both,
        Outcome { bounce: true, hit_left: Some(Side::Left), hit_right: Some(Side::Right), goal: None }
    );
    assert_eq!(game, started());
}

#[test]
fn a_level_ball_struck_dead_centre_comes_straight_back() {
    let mut game = started();
    let (vx, vy) = (f64::from(SERVE_SPEED), 0.0_f64);
    let leaving = game.do_physics(&Seen { p2: TOUCHING, ..open_play() }).hit_right.unwrap();
    assert_eq!(leaving, Side::Left);
    let sign = match leaving {
        Side::Left => -1.0,
        Side::Right => 1.0,
    };
    let speed = (vx * vx + vy * vy).sqrt();
    let k = 0.0 / f64::from(DEFLECTION_SPAN);
    let d = 1.0 / (1.0 + k * k).sqrt();
    assert_eq!((speed * d).copysign(sign), -7.0);
    assert_eq!(k * speed * d, 0.0);
}

#[test]
fn opposite_swaps_the_sides() {
    assert_eq!(Side::Left.opposite(), Side::Right);
    assert_eq!(Side::Right.opposite(), Side::Left);
}

#[test]
fn a_round_is_served_the_way_the_ball_was_heading() {
    let mut game = started();
    let goal = game.do_physics(&Seen { past_right: true, ..open_play() }).goal.unwrap();
    assert_eq!(goal.serve, Side::Right);
    assert_eq!(game.heading, Side::Right);
    game.do_physics(&Seen { p2: TOUCHING, ..open_play() });
    let goal = game.do_physics(&Seen { past_left: true, ..open_play() }).goal.unwrap();
    assert_eq!(goal.serve, Side::Left);
    assert_eq!(game.heading, Side::Left);
    let struck = game.do_physics(&Seen { past_left: true, p1: TOUCHING, ..open_play() });
    assert_eq!(struck.hit_left, Some(Side::Right));
    assert_eq!(struck.goal.unwrap().serve, Side::Right);
}

#[test]
fn a_ball_past_the_left_edge_scores_for_the_right_player() {
    let mut game = started();
    let seen = Seen { past_left: true, ..open_play() };
    assert!(game.room_to_score(&seen));
    let outcome = game.do_physics(&seen);
    assert_eq!(game.p1.score, 0);
    assert_eq!(game.p2.score, 1);
    assert_eq!(
        outcome,
        Outcome {
            goal: Some(Goal {
                scorer: Side::Right,
                serve: Side::Right,
                score_text: String::from("0 : 1"),
            }),
            ..idle()
        }
    );
}

#[test]
fn a_ball_past_the_right_edge_scores_for_the_left_player() {
    let mut game = started();
    let outcome = game.do_physics(&Seen { past_right: true, ..open_play() });
    assert_eq!(game.p1.score, 1);
    assert_eq!(game.p2.score, 0);
    assert_eq!(
        outcome,
        Outcome {
            goal: Some(Goal {
                scorer: Side::Left,
                serve: Side::Right,
                score_text: String::from("1 : 0"),
            }),
            ..idle()
        }
    );
}

#[test]
fn the_left_edge_is_looked_at_first() {
    let mut game = started();
    let outcome = game.do_physics(&Seen { past_left: true, past_right: true, ..open_play() });
    assert_eq!((game.p1.score, game.p2.score), (0, 1));
    assert_eq!(outcome.goal.unwrap().scorer, Side::Right);
}

#[test]
fn a_goal_leaves_keys_and_running_state_alone() {
    let mut game = started();
    game.handle_keydown("KeyW");
    game.handle_keydown("ArrowDown");
    let outcome = game.do_physics(&Seen { past_right: true, p2: TOUCHING, over_top: true, ..open_play() });
    assert!(outcome.bounce);
    assert_eq!(outcome.hit_left, None);
    assert_eq!(outcome.hit_right, Some(Side::Left));
    assert_eq!(outcome.goal.unwrap().serve, Side::Left);
    assert!(game.started_physics);
    assert!(game.p1.keyup && !game.p1.keydown && !game.p2.keyup && game.p2.keydown);
}

#[test]
fn scores_add_up_over_a_match() {
    let mut game = started();
    let mut lines = Vec::new();
    for round in 0..23 {
        let seen = if round % 3 == 0 {
            Seen { past_left: true, ..open_play() }
        } else {
            Seen { past_right: true, ..open_play() }
        };
        let before = (game.p1.score, game.p2.score);
        let outcome = game.do_physics(&seen);
        assert!(game.p1.score >= before.0 && game.p2.score >= before.1);
        assert_eq!(game.p1.score + game.p2.score, before.0 + before.1 + 1);
        lines.push(outcome.goal.unwrap().score_text);
        assert_eq!(game.do_physics(&open_play()), idle());
    }
    assert_eq!((game.p1.score, game.p2.score), (15, 8));
    assert_eq!(lines[0], "0 : 1");
    assert_eq!(lines[1], "1 : 1");
    assert_eq!(lines[22], "15 : 8");
    assert_eq!(game.score_text(), "15 : 8");
}

#[test]
fn a_full_score_leaves_no_room() {
    let mut game = started();
    game.p1.score = usize::MAX;
    assert!(!game.room_to_score(&Seen { past_right: true, ..open_play() }));
    assert!(game.room_to_score(&Seen { past_left: true, ..open_play() }));
    assert!(game.room_to_score(&Seen { past_left: true, past_right: true, ..open_play() }));
    assert!(game.room_to_score(&open_play()));
    game.p2.score = usize::MAX;
    assert!(!game.room_to_score(&Seen { past_left: true, ..open_play() }));
    game.p1.score = usize::MAX - 1;
    let outcome = game.do_physics(&Seen { past_right: true, ..open_play() });
    assert_eq!(game.p1.score, usize::MAX);
    assert_eq!(
        outcome.goal.unwrap().score_text,
        format!("{} : {}", usize::MAX, usize::MAX)
    );
}
