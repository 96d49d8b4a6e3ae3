//! The world model and the physics engine.
//!
//! `GameState` is the authoritative state of one match. `update` advances it
//! by one fixed tick: paddle movement and clamping, ball translation, wall
//! bounce, paddle collision with angle-based reflection, and scoring with a
//! ball reset. Each step is mirrored by a spec function, and `update` is
//! proved to compute exactly their composition.

use vstd::arithmetic::div_mod::{
    lemma_div_by_multiple, lemma_div_is_ordered, lemma_div_pos_is_pos, lemma_fundamental_div_mod,
    lemma_mod_bound,
};
use vstd::arithmetic::mul::lemma_mul_inequality;
use vstd::prelude::*;

use crate::intent::PlayerDir;
use crate::key::{Key, KeyState};
use crate::trig::{
    cos_bits, cos_fixed, lemma_scaled_step_bounded, scaled_step, scaled_step_exec, sin_bits,
    sin_fixed, MAX_REFLECT_ANGLE, PI_ANGLE, TWO_PI_ANGLE,
};

verus! {

/// Width of a paddle, in pixels.
pub const PADDLE_WIDTH: i16 = 47;

/// Side length of the ball's square sprite, in pixels.
pub const BALL_SIZE: i16 = 58;

/// Distance the ball travels per tick, in pixels.
pub const BALL_SPEED: i16 = 30;

/// Distance a paddle travels per tick, in pixels.
pub const PADDLE_SPEED: i16 = 17;

/// A paddle is this fraction of the playfield height: one seventh.
pub const PADDLE_HEIGHT_DIV: i16 = 7;

/// Each paddle sits this fraction of the playfield width from its edge:
/// one ninth.
pub const PADDLE_GAP_DIV: i16 = 9;

/// The largest playfield dimension accepted, chosen so that no position
/// computation can leave the range of `i16`.
pub const MAX_WORLD: i16 = 32700;

/// A point or extent on the playfield grid.
#[derive(Clone, Copy, Debug, PartialEq, Eq, Structural)]
pub struct Vec2 {
    pub x: i16,
    pub y: i16,
}

/// The authoritative world state of one match.
#[derive(Clone, Copy, Debug, PartialEq, Eq, Structural)]
pub struct GameState {
    /// Playfield width and height, fixed at construction.
    pub size: Vec2,
    /// Position of the center of the ball.
    pub ball: Vec2,
    /// Travelling angle of the ball, in 16.16 fixed-point radians.
    pub ball_angle: i32,
    /// Whether the ball is moving. The ball stops after a player scores and
    /// starts again on the next key press.
    pub ball_is_moving: bool,
    /// Player 1's paddle position (top left corner); player 1 is on the left.
    pub player1: Vec2,
    /// Player 2's paddle position (top left corner); player 2 is on the right.
    pub player2: Vec2,
    /// Player 1's current directional intent.
    pub player1_dir: PlayerDir,
    /// Player 2's current directional intent.
    pub player2_dir: PlayerDir,
    /// Height of both paddles, derived once from the playfield height.
    pub paddle_height: i16,
}

/// A value clamped into `[lo, hi]`.
pub open spec fn clamp_spec(v: int, lo: int, hi: int) -> int {
    if v < lo {
        lo
    } else if v > hi {
        hi
    } else {
        v
    }
}

/// The vertical shift a paddle makes under an intent: `Up` and `Down` move,
/// `Neutral` and `Both` hold still.
pub open spec fn paddle_shift(dir: PlayerDir) -> int {
    match dir {
        PlayerDir::Up => -(PADDLE_SPEED as int),
        PlayerDir::Down => PADDLE_SPEED as int,
        PlayerDir::Neutral | PlayerDir::Both => 0,
    }
}

/// The reflection angle, in angle bits, for an impact `k` steps from the
/// paddle's center, where `h2` is half the paddle height: the fan
/// `MAX_REFLECT_ANGLE * k / h2`, truncated toward zero.
pub open spec fn offset_angle(k: int, h2: int) -> int {
    if k >= 0 {
        (k * (MAX_REFLECT_ANGLE as int)) / h2
    } else {
        -(((-k) * (MAX_REFLECT_ANGLE as int)) / h2)
    }
}

impl GameState {
    /// Well-formedness: every position is inside the playfield, the paddle
    /// height is the fixed fraction of the playfield height, and the angle
    /// bits lie in the closed range that bounces and reflections preserve.
    pub open spec fn wf(self) -> bool {
        &&& 0 <= self.size.x <= MAX_WORLD
        &&& 0 <= self.size.y <= MAX_WORLD
        &&& self.paddle_height == self.size.y as int / (PADDLE_HEIGHT_DIV as int)
        &&& 0 <= self.paddle_height <= self.size.y
        &&& 0 <= self.ball.x <= self.size.x
        &&& 0 <= self.ball.y <= self.size.y
        &&& 0 <= self.player1.y <= self.size.y - self.paddle_height
        &&& 0 <= self.player2.y <= self.size.y - self.paddle_height
        &&& self.player1.x <= self.size.x
        &&& self.player2.x <= self.size.x
        &&& -(TWO_PI_ANGLE as int) <= self.ball_angle <= 2 * (TWO_PI_ANGLE as int)
    }

    /// The state a fresh match starts in: ball centered, stationary, angle
    /// zero; paddles vertically centered, one gap from their edges.
    pub open spec fn initial(size: Vec2) -> GameState {
        let h = size.y as int / (PADDLE_HEIGHT_DIV as int);
        let gap = size.x as int / (PADDLE_GAP_DIV as int);
        let py = (size.y - h) / 2;
        GameState {
            size,
            ball: Vec2 { x: (size.x as int / 2) as i16, y: (size.y as int / 2) as i16 },
            ball_angle: 0,
            ball_is_moving: false,
            player1: Vec2 { x: gap as i16, y: py as i16 },
            player2: Vec2 { x: (size.x - gap - PADDLE_WIDTH as int) as i16, y: py as i16 },
            player1_dir: PlayerDir::Neutral,
            player2_dir: PlayerDir::Neutral,
            paddle_height: h as i16,
        }
    }
}

/// Step 1 of a tick: each paddle shifts by its intent and is clamped into
/// the playfield.
pub open spec fn paddle_step(s: GameState) -> GameState {
    GameState {
        player1: Vec2 {
            x: s.player1.x,
            y: clamp_spec(
                s.player1.y + paddle_shift(s.player1_dir),
                0,
                s.size.y - s.paddle_height,
            ) as i16,
        },
        player2: Vec2 {
            x: s.player2.x,
            y: clamp_spec(
                s.player2.y + paddle_shift(s.player2_dir),
                0,
                s.size.y - s.paddle_height,
            ) as i16,
        },
        ..s
    }
}

/// Step 2 of a tick: a moving ball translates along its heading.
pub open spec fn ball_step(s: GameState) -> GameState {
    if s.ball_is_moving {
        GameState {
            ball: Vec2 {
                x: (s.ball.x + scaled_step(cos_bits(s.ball_angle as int), BALL_SPEED as int)) as i16,
                y: (s.ball.y + scaled_step(sin_bits(s.ball_angle as int), BALL_SPEED as int)) as i16,
            },
            ..s
        }
    } else {
        s
    }
}

/// Step 3 of a tick: a ball outside the vertical bounds reflects its angle
/// and is clamped back in. Only the vertical walls bounce; leaving on the
/// horizontal axis is the scoring signal.
pub open spec fn bounce_step(s: GameState) -> GameState {
    if s.ball.y < 0 || s.ball.y > s.size.y {
        GameState {
            ball_angle: (TWO_PI_ANGLE - s.ball_angle) as i32,
            ball: Vec2 { x: s.ball.x, y: clamp_spec(s.ball.y as int, 0, s.size.y as int) as i16 },
            ..s
        }
    } else {
        s
    }
}

/// Whether the ball is strictly inside the paddle whose top-left corner is
/// `p`, for paddle height `h`.
pub open spec fn ball_in_paddle(ball: Vec2, p: Vec2, h: int) -> bool {
    &&& ball.x > p.x
    &&& ball.x < p.x + PADDLE_WIDTH
    &&& ball.y > p.y
    &&& ball.y < p.y + h
}

/// Step 4a of a tick: reflection off player 1's paddle, taken only when the
/// ball is inside the paddle and traveling leftward (negative cosine).
pub open spec fn collide1_step(s: GameState) -> GameState {
    let h2 = s.paddle_height as int / 2;
    if ball_in_paddle(s.ball, s.player1, s.paddle_height as int) && cos_bits(s.ball_angle as int)
        < 0 {
        GameState { ball_angle: offset_angle(s.ball.y - s.player1.y - h2, h2) as i32, ..s }
    } else {
        s
    }
}

/// Step 4b of a tick: reflection off player 2's paddle, taken only when the
/// ball is inside the paddle and traveling rightward (positive cosine).
pub open spec fn collide2_step(s: GameState) -> GameState {
    let h2 = s.paddle_height as int / 2;
    if ball_in_paddle(s.ball, s.player2, s.paddle_height as int) && cos_bits(s.ball_angle as int)
        > 0 {
        GameState {
            ball_angle: (offset_angle(h2 - (s.ball.y - s.player2.y), h2) - PI_ANGLE) as i32,
            ..s
        }
    } else {
        s
    }
}

/// Step 5 of a tick: a ball beyond the right edge means player 1 scored; one
/// beyond the left edge means player 2 scored. The ball stops and is placed
/// a third of the playfield width from the center, heading back toward the
/// scorer.
pub open spec fn score_step(s: GameState) -> GameState {
    if s.ball.x > s.size.x {
        GameState {
            ball_is_moving: false,
            ball: Vec2 {
                x: (s.size.x as int / 2 + s.size.x as int / 3) as i16,
                y: (s.size.y as int / 2) as i16,
            },
            ball_angle: PI_ANGLE,
            ..s
        }
    } else if s.ball.x < 0 {
        GameState {
            ball_is_moving: false,
            ball: Vec2 {
                x: (s.size.x as int / 2 - s.size.x as int / 3) as i16,
                y: (s.size.y as int / 2) as i16,
            },
            ball_angle: 0,
            ..s
        }
    } else {
        s
    }
}

/// One whole physics tick: the five steps in their fixed order.
pub open spec fn tick(s: GameState) -> GameState {
    score_step(collide2_step(collide1_step(bounce_step(ball_step(paddle_step(s))))))
}

/// The state handed to the scoring step of a tick, after movement, bounce
/// and collisions.
pub open spec fn pre_score(s: GameState) -> GameState {
    collide2_step(collide1_step(bounce_step(ball_step(paddle_step(s)))))
}

/// The state after one key event: a recognized player-direction key steps
/// that player's intent machine, and any press starts the ball.
pub open spec fn after_press(s: GameState, key: Key, state: KeyState) -> GameState {
    let s1 = match (key, state) {
        (Key::W, KeyState::Pressed) => GameState {
            player1_dir: s.player1_dir.spec_press_up(),
            ..s
        },
        (Key::S, KeyState::Pressed) => GameState {
            player1_dir: s.player1_dir.spec_press_down(),
            ..s
        },
        (Key::W, KeyState::Released) => GameState {
            player1_dir: s.player1_dir.spec_release_up(),
            ..s
        },
        (Key::S, KeyState::Released) => GameState {
            player1_dir: s.player1_dir.spec_release_down(),
            ..s
        },
        (Key::Up, KeyState::Pressed) => GameState {
            player2_dir: s.player2_dir.spec_press_up(),
            ..s
        },
        (Key::Down, KeyState::Pressed) => GameState {
            player2_dir: s.player2_dir.spec_press_down(),
            ..s
        },
        (Key::Up, KeyState::Released) => GameState {
            player2_dir: s.player2_dir.spec_release_up(),
            ..s
        },
        (Key::Down, KeyState::Released) => GameState {
            player2_dir: s.player2_dir.spec_release_down(),
            ..s
        },
        (Key::Space, _) => s,
    };
    if state == KeyState::Pressed {
        GameState { ball_is_moving: true, ..s1 }
    } else {
        s1
    }
}

/// Clamps `v` into `[lo, hi]`.
pub(crate) fn clamp_i16(v: i16, lo: i16, hi: i16) -> (r: i16)
    requires
        lo <= hi,
    ensures
        r as int == clamp_spec(v as int, lo as int, hi as int),
{
    if v < lo {
        lo
    } else if v > hi {
        hi
    } else {
        v
    }
}

/// Divides a nonnegative number by a positive one.
pub(crate) fn div_nonneg(a: i16, b: i16) -> (r: i16)
    requires
        0 <= a,
        1 <= b,
    ensures
        r as int == a as int / b as int,
        0 <= r <= a,
{
    proof {
        lemma_div_pos_is_pos(a as int, b as int);
        lemma_div_is_ordered(a as int, a as int, b as int);
        lemma_fundamental_div_mod(a as int, b as int);
        assert(a as int / b as int <= a as int) by (nonlinear_arith)
            requires
                0 <= a as int,
                1 <= b as int,
        ;
    }
    ((a as u16) / (b as u16)) as i16
}

/// Facts about halving: the half never exceeds the whole, misses it by at
/// most one doubled step, and is positive once the whole reaches two.
proof fn lemma_half_props(h: int)
    requires
        0 <= h,
    ensures
        0 <= h / 2 <= h,
        2 * (h / 2) >= h - 1,
        h >= 2 ==> h / 2 >= 1,
{
    lemma_fundamental_div_mod(h, 2);
    lemma_mod_bound(h, 2);
    lemma_div_pos_is_pos(h, 2);
}

/// Facts about the scoring reset positions: half the width plus or minus a
/// third of it stays inside the playfield.
proof fn lemma_score_positions(x: int)
    requires
        0 <= x,
    ensures
        0 <= x / 2 + x / 3 <= x,
        0 <= x / 2 - x / 3 <= x,
{
    lemma_fundamental_div_mod(x, 2);
    lemma_mod_bound(x, 2);
    lemma_div_pos_is_pos(x, 2);
    lemma_fundamental_div_mod(x, 3);
    lemma_mod_bound(x, 3);
    lemma_div_pos_is_pos(x, 3);
}

/// The reflection fan is bounded: an impact within the paddle maps into
/// `[-MAX_REFLECT_ANGLE, MAX_REFLECT_ANGLE]`.
pub proof fn lemma_offset_angle_bounded(k: int, h2: int)
    requires
        1 <= h2,
        -h2 <= k <= h2,
    ensures
        -(MAX_REFLECT_ANGLE as int) <= offset_angle(k, h2) <= MAX_REFLECT_ANGLE as int,
{
    let q = MAX_REFLECT_ANGLE as int;
    if k >= 0 {
        lemma_div_pos_is_pos(k * q, h2);
        lemma_mul_inequality(k, h2, q);
        lemma_div_is_ordered(k * q, h2 * q, h2);
        lemma_div_by_multiple(q, h2);
        assert(h2 * q == q * h2) by (nonlinear_arith);
    } else {
        lemma_div_pos_is_pos((-k) * q, h2);
        lemma_mul_inequality(-k, h2, q);
        lemma_div_is_ordered((-k) * q, h2 * q, h2);
        lemma_div_by_multiple(q, h2);
        assert(h2 * q == q * h2) by (nonlinear_arith);
    }
}

/// The reflection fan is monotone: a lower impact point gives a lower
/// outgoing angle, sweeping the fan continuously from edge to edge.
pub proof fn lemma_offset_angle_monotone(k1: int, k2: int, h2: int)
    requires
        1 <= h2,
        -h2 <= k1 <= k2 <= h2,
    ensures
        offset_angle(k1, h2) <= offset_angle(k2, h2),
{
    let q = MAX_REFLECT_ANGLE as int;
    if k1 >= 0 {
        lemma_mul_inequality(k1, k2, q);
        lemma_div_is_ordered(k1 * q, k2 * q, h2);
    } else if k2 < 0 {
        lemma_mul_inequality(-k2, -k1, q);
        lemma_div_is_ordered((-k2) * q, (-k1) * q, h2);
    } else {
        lemma_div_pos_is_pos((-k1) * q, h2);
        lemma_div_pos_is_pos(k2 * q, h2);
    }
}

/// Computes `offset_angle` on machine integers.
pub(crate) fn offset_angle_exec(k: i16, h2: i16) -> (r: i32)
    requires
        1 <= h2,
        -h2 <= k <= h2,
    ensures
        r as int == offset_angle(k as int, h2 as int),
        -MAX_REFLECT_ANGLE <= r <= MAX_REFLECT_ANGLE,
{
    proof {
        lemma_offset_angle_bounded(k as int, h2 as int);
    }
    if k >= 0 {
        proof {
            assert((k as u64) * (MAX_REFLECT_ANGLE as u64) <= 32767 * 51472) by (nonlinear_arith)
                requires
                    k as u64 <= 32767,
            ;
        }
        let d: u64 = (k as u64) * (MAX_REFLECT_ANGLE as u64) / (h2 as u64);
        d as i32
    } else {
        let m: u64 = (-k) as u64;
        proof {
            assert(m * (MAX_REFLECT_ANGLE as u64) <= 32768 * 51472) by (nonlinear_arith)
                requires
                    m <= 32768,
            ;
        }
        let d: u64 = m * (MAX_REFLECT_ANGLE as u64) / (h2 as u64);
        -(d as i32)
    }
}

/// A physics tick keeps the world well-formed and never touches the
/// playfield size, the paddle height, or the paddles' horizontal positions.
pub proof fn lemma_tick_preserves_wf(s: GameState)
    requires
        s.wf(),
    ensures
        tick(s).wf(),
        tick(s).size == s.size,
        tick(s).paddle_height == s.paddle_height,
        tick(s).player1.x == s.player1.x,
        tick(s).player2.x == s.player2.x,
{
    let s1 = paddle_step(s);
    lemma_scaled_step_bounded(cos_bits(s1.ball_angle as int), BALL_SPEED as int);
    lemma_scaled_step_bounded(sin_bits(s1.ball_angle as int), BALL_SPEED as int);
    let s2 = ball_step(s1);
    let s3 = bounce_step(s2);
    let h = s.paddle_height as int;
    let h2 = h / 2;
    lemma_half_props(h);
    if ball_in_paddle(s3.ball, s3.player1, h) && cos_bits(s3.ball_angle as int) < 0 {
        lemma_offset_angle_bounded(s3.ball.y - s3.player1.y - h2, h2);
    }
    let s4 = collide1_step(s3);
    if ball_in_paddle(s4.ball, s4.player2, h) && cos_bits(s4.ball_angle as int) > 0 {
        lemma_offset_angle_bounded(h2 - (s4.ball.y - s4.player2.y), h2);
    }
    lemma_score_positions(s.size.x as int);
    lemma_half_props(s.size.y as int);
}

/// A key event keeps the world well-formed: it only touches the intents and
/// the movement flag.
pub proof fn lemma_press_preserves_wf(s: GameState, key: Key, state: KeyState)
    requires
        s.wf(),
    ensures
        after_press(s, key, state).wf(),
{
}

impl GameState {
    /// Builds the world for a playfield of the given size. The bound on the
    /// size keeps every later position computation within `i16`.
    pub fn new(size: Vec2) -> (g: GameState)
        requires
            0 <= size.x <= MAX_WORLD,
            0 <= size.y <= MAX_WORLD,
        ensures
            g == GameState::initial(size),
            g.wf(),
    {
        let h: i16 = div_nonneg(size.y, PADDLE_HEIGHT_DIV);
        let gap: i16 = div_nonneg(size.x, PADDLE_GAP_DIV);
        let paddle_y: i16 = div_nonneg(size.y - h, 2);
        let g = GameState {
            size,
            ball: Vec2 { x: div_nonneg(size.x, 2), y: div_nonneg(size.y, 2) },
            ball_angle: 0,
            ball_is_moving: false,
            player1: Vec2 { x: gap, y: paddle_y },
            player2: Vec2 { x: size.x - gap - PADDLE_WIDTH, y: paddle_y },
            player1_dir: PlayerDir::Neutral,
            player2_dir: PlayerDir::Neutral,
            paddle_height: h,
        };
        g
    }

    /// Advances the world by one fixed physics tick.
    #[verifier::rlimit(60)]
    pub fn update(&mut self)
        requires
            old(self).wf(),
        ensures
            *final(self) == tick(*old(self)),
            final(self).wf(),
    {
        let ghost s0 = *self;

        // Step 1: paddle movement, then clamping into the playfield.
        let shift1: i16 = match self.player1_dir {
            PlayerDir::Up => -PADDLE_SPEED,
            PlayerDir::Down => PADDLE_SPEED,
            PlayerDir::Neutral | PlayerDir::Both => 0i16,
        };
        self.player1.y = clamp_i16(
            self.player1.y + shift1,
            0,
            self.size.y - self.paddle_height,
        );
        let shift2: i16 = match self.player2_dir {
            PlayerDir::Up => -PADDLE_SPEED,
            PlayerDir::Down => PADDLE_SPEED,
            PlayerDir::Neutral | PlayerDir::Both => 0i16,
        };
        self.player2.y = clamp_i16(
            self.player2.y + shift2,
            0,
            self.size.y - self.paddle_height,
        );
        proof {
            assert(*self == paddle_step(s0));
        }
        let ghost s1 = paddle_step(s0);

        // Step 2: ball translation along its heading.
        if self.ball_is_moving {
            let c: i32 = cos_fixed(self.ball_angle);
            let sn: i32 = sin_fixed(self.ball_angle);
            self.ball.x = self.ball.x + scaled_step_exec(c, BALL_SPEED);
            self.ball.y = self.ball.y + scaled_step_exec(sn, BALL_SPEED);
        }
        proof {
            assert(*self == ball_step(s1));
        }
        let ghost s2 = ball_step(s1);

        // Step 3: wall bounce on the vertical bounds.
        if self.ball.y < 0 || self.ball.y > self.size.y {
            self.ball_angle = TWO_PI_ANGLE - self.ball_angle;
            self.ball.y = clamp_i16(self.ball.y, 0, self.size.y);
        }
        proof {
            assert(*self == bounce_step(s2));
        }
        let ghost s3 = bounce_step(s2);

        // Step 4a: collision with player 1's paddle.
        if self.ball.x > self.player1.x && self.ball.x < self.player1.x + PADDLE_WIDTH
            && self.ball.y > self.player1.y && self.ball.y < self.player1.y + self.paddle_height {
            let c: i32 = cos_fixed(self.ball_angle);
            if c < 0 {
                proof {
                    lemma_half_props(self.paddle_height as int);
                }
                let h2: i16 = div_nonneg(self.paddle_height, 2);
                self.ball_angle = offset_angle_exec(self.ball.y - self.player1.y - h2, h2);
            }
        }
        proof {
            assert(*self == collide1_step(s3));
        }
        let ghost s4 = collide1_step(s3);

        // Step 4b: collision with player 2's paddle.
        if self.ball.x > self.player2.x && self.ball.x < self.player2.x + PADDLE_WIDTH
            && self.ball.y > self.player2.y && self.ball.y < self.player2.y + self.paddle_height {
            let c: i32 = cos_fixed(self.ball_angle);
            if c > 0 {
                proof {
                    lemma_half_props(self.paddle_height as int);
                }
                let h2: i16 = div_nonneg(self.paddle_height, 2);
                self.ball_angle = offset_angle_exec(h2 - (self.ball.y - self.player2.y), h2)
                    - PI_ANGLE;
            }
        }
        proof {
            assert(*self == collide2_step(s4));
        }
        let ghost s5 = collide2_step(s4);

        // Step 5: scoring, with the ball reset.
        proof {
            lemma_score_positions(self.size.x as int);
        }
        if self.ball.x > self.size.x {
            // Player 1 scores.
            self.ball_is_moving = false;
            let half_x: i16 = div_nonneg(self.size.x, 2);
            let third_x: i16 = div_nonneg(self.size.x, 3);
            self.ball.x = half_x + third_x;
            self.ball.y = div_nonneg(self.size.y, 2);
            self.ball_angle = PI_ANGLE;
        } else if self.ball.x < 0 {
            // Player 2 scores.
            self.ball_is_moving = false;
            let half_x: i16 = div_nonneg(self.size.x, 2);
            let third_x: i16 = div_nonneg(self.size.x, 3);
            self.ball.x = half_x - third_x;
            self.ball.y = div_nonneg(self.size.y, 2);
            self.ball_angle = 0;
        }
        proof {
            assert(*self == score_step(s5));
            lemma_tick_preserves_wf(s0);
        }
    }

    /// Applies one key event: a recognized player-direction key steps that
    /// player's intent machine, and any press starts the ball.
    pub fn handle_press(&mut self, key: Key, state: KeyState)
        ensures
            *final(self) == after_press(*old(self), key, state),
            old(self).wf() ==> final(self).wf(),
    {
        match (key, state) {
            (Key::W, KeyState::Pressed) => self.player1_dir = self.player1_dir.press_up(),
            (Key::S, KeyState::Pressed) => self.player1_dir = self.player1_dir.press_down(),
            (Key::W, KeyState::Released) => self.player1_dir = self.player1_dir.release_up(),
            (Key::S, KeyState::Released) => self.player1_dir = self.player1_dir.release_down(),
            (Key::Up, KeyState::Pressed) => self.player2_dir = self.player2_dir.press_up(),
            (Key::Down, KeyState::Pressed) => self.player2_dir = self.player2_dir.press_down(),
            (Key::Up, KeyState::Released) => self.player2_dir = self.player2_dir.release_up(),
            (Key::Down, KeyState::Released) => self.player2_dir = self.player2_dir.release_down(),
            (Key::Space, _) => {},
        }
        // Any press starts the ball: this is how the match begins and how it
        // resumes after a score.
        if matches!(state, KeyState::Pressed) {
            self.ball_is_moving = true;
        }
    }

    /// Decides well-formedness at run time, for callers outside the proof:
    /// exactly when `wf` holds.
    pub fn is_well_formed(&self) -> (b: bool)
        ensures
            b == self.wf(),
    {
        if !(0 <= self.size.x && self.size.x <= MAX_WORLD) {
            return false;
        }
        if !(0 <= self.size.y && self.size.y <= MAX_WORLD) {
            return false;
        }
        let h: i16 = div_nonneg(self.size.y, PADDLE_HEIGHT_DIV);
        self.paddle_height == h && 0 <= self.paddle_height && self.paddle_height <= self.size.y
            && 0 <= self.ball.x && self.ball.x <= self.size.x && 0 <= self.ball.y && self.ball.y
            <= self.size.y && 0 <= self.player1.y && self.player1.y <= self.size.y
            - self.paddle_height && 0 <= self.player2.y && self.player2.y <= self.size.y
            - self.paddle_height && self.player1.x <= self.size.x && self.player2.x <= self.size.x
            && -TWO_PI_ANGLE <= self.ball_angle && self.ball_angle <= 2 * TWO_PI_ANGLE
    }

    /// The fields the ball streamer needs, copied out in one call so that a
    /// reader holding shared access sees one consistent ball position.
    pub fn ball_snapshot(&self) -> (r: Vec2)
        ensures
            r == self.ball,
    {
        self.ball
    }

    /// The fields the paddle streamer needs, copied out in one call so that
    /// a reader holding shared access sees one consistent pair of paddles.
    pub fn paddle_snapshot(&self) -> (r: (Vec2, Vec2))
        ensures
            r.0 == self.player1,
            r.1 == self.player2,
    {
        (self.player1, self.player2)
    }
}

/// The world after `n` physics ticks.
pub open spec fn ticks(s: GameState, n: nat) -> GameState
    decreases n,
{
    if n == 0 {
        s
    } else {
        tick(ticks(s, (n - 1) as nat))
    }
}

/// One externally driven step of the world: a physics tick or a key event.
#[derive(Clone, Copy, Debug, PartialEq, Eq, Structural)]
pub enum WorldStep {
    Tick,
    KeyEvent(Key, KeyState),
}

/// The world after a whole sequence of ticks and key events.
pub open spec fn run_steps(s: GameState, steps: Seq<WorldStep>) -> GameState
    decreases steps.len(),
{
    if steps.len() == 0 {
        s
    } else {
        let s1 = match steps[0] {
            WorldStep::Tick => tick(s),
            WorldStep::KeyEvent(key, state) => after_press(s, key, state),
        };
        run_steps(s1, steps.skip(1))
    }
}

/// For any sequence of ticks and key events — hence for any sequence of
/// intents — the paddles stay within `[0, size.y - paddle_height]`, and the
/// whole world stays well-formed.
#[verifier::rlimit(60)]
pub proof fn lemma_paddles_always_in_bounds(s: GameState, steps: Seq<WorldStep>)
    requires
        s.wf(),
    ensures
        run_steps(s, steps).wf(),
        run_steps(s, steps).size == s.size,
        run_steps(s, steps).paddle_height == s.paddle_height,
        0 <= run_steps(s, steps).player1.y <= s.size.y - s.paddle_height,
        0 <= run_steps(s, steps).player2.y <= s.size.y - s.paddle_height,
    decreases steps.len(),
{
    if steps.len() > 0 {
        match steps[0] {
            WorldStep::Tick => {
                lemma_tick_preserves_wf(s);
                lemma_paddles_always_in_bounds(tick(s), steps.skip(1));
            },
            WorldStep::KeyEvent(key, state) => {
                lemma_press_preserves_wf(s, key, state);
                lemma_paddles_always_in_bounds(after_press(s, key, state), steps.skip(1));
            },
        }
    }
}

/// A stationary ball rests: while `ball_is_moving` is false, no number of
/// ticks changes its position (or starts it moving).
pub proof fn lemma_stationary_ball_rests(s: GameState, n: nat)
    requires
        s.wf(),
        !s.ball_is_moving,
    ensures
        ticks(s, n).ball == s.ball,
        !ticks(s, n).ball_is_moving,
        ticks(s, n).wf(),
    decreases n,
{
    if n > 0 {
        lemma_stationary_ball_rests(s, (n - 1) as nat);
        lemma_tick_preserves_wf(ticks(s, (n - 1) as nat));
    }
}

/// When a tick carries the ball past the right edge, player 1 scores: the
/// ball stops, moves to a third of the width right of center, and heads
/// left (angle pi).
pub proof fn lemma_score_right_resets_ball(s: GameState)
    requires
        pre_score(s).ball.x > pre_score(s).size.x,
    ensures
        !tick(s).ball_is_moving,
        tick(s).ball.x as int == s.size.x as int / 2 + s.size.x as int / 3,
        tick(s).ball.y as int == s.size.y as int / 2,
        tick(s).ball_angle == PI_ANGLE,
{
}

/// When a tick carries the ball past the left edge, player 2 scores: the
/// ball stops, moves to a third of the width left of center, and heads
/// right (angle zero).
pub proof fn lemma_score_left_resets_ball(s: GameState)
    requires
        pre_score(s).ball.x < 0,
        0 <= pre_score(s).size.x,
    ensures
        !tick(s).ball_is_moving,
        tick(s).ball.x as int == s.size.x as int / 2 - s.size.x as int / 3,
        tick(s).ball.y as int == s.size.y as int / 2,
        tick(s).ball_angle == 0,
{
}

/// A collision with player 1's paddle always reflects into the fan around
/// straight-right: no impact point can turn the ball back toward its own
/// side's quarter-turn limit.
pub proof fn lemma_collision1_reflects_into_fan(s: GameState)
    requires
        ball_in_paddle(s.ball, s.player1, s.paddle_height as int),
        cos_bits(s.ball_angle as int) < 0,
    ensures
        -(MAX_REFLECT_ANGLE as int) <= collide1_step(s).ball_angle <= MAX_REFLECT_ANGLE as int,
{
    let h = s.paddle_height as int;
    lemma_half_props(h);
    lemma_offset_angle_bounded(s.ball.y - s.player1.y - h / 2, h / 2);
}

/// A collision with player 2's paddle always reflects into the fan around
/// straight-left: the fan around pi, written a full turn down.
pub proof fn lemma_collision2_reflects_into_fan(s: GameState)
    requires
        ball_in_paddle(s.ball, s.player2, s.paddle_height as int),
        cos_bits(s.ball_angle as int) > 0,
    ensures
        -(PI_ANGLE as int) - MAX_REFLECT_ANGLE as int <= collide2_step(s).ball_angle <= -(
        PI_ANGLE as int) + MAX_REFLECT_ANGLE as int,
{
    let h = s.paddle_height as int;
    lemma_half_props(h);
    lemma_offset_angle_bounded(h / 2 - (s.ball.y - s.player2.y), h / 2);
}

/// The reflection fan off player 2's paddle is the fan off player 1's,
/// shifted by pi: bounded to the quarter turn around straight-left and
/// monotone in the impact offset.
pub proof fn lemma_reflection2_bounded_monotone(k1: int, k2: int, h2: int)
    requires
        1 <= h2,
        -h2 <= k1 <= k2 <= h2,
    ensures
        -(PI_ANGLE as int) - MAX_REFLECT_ANGLE as int <= offset_angle(k1, h2) - PI_ANGLE as int,
        offset_angle(k2, h2) - PI_ANGLE as int <= -(PI_ANGLE as int) + MAX_REFLECT_ANGLE as int,
        offset_angle(k1, h2) - PI_ANGLE as int <= offset_angle(k2, h2) - PI_ANGLE as int,
{
    lemma_offset_angle_bounded(k1, h2);
    lemma_offset_angle_bounded(k2, h2);
    lemma_offset_angle_monotone(k1, k2, h2);
}

} // verus!
