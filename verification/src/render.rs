//! The compute half of the render streamers: the exact pixel writes that
//! one redraw of the ball, or of both paddles, emits. Sending them over the
//! wire is left to unverified glue, which drains the returned list.

use vstd::arithmetic::div_mod::lemma_fundamental_div_mod_converse;
use vstd::prelude::*;

use crate::color::Color;
use crate::game::{Vec2, BALL_SIZE, PADDLE_WIDTH};

verus! {

/// Thickness of the contrasting border drawn around each sprite.
pub const BORDER_WIDTH: i16 = 6;

/// One pixel-write operation: a position and the color to put there.
#[derive(Clone, Copy, Debug, PartialEq, Eq, Structural)]
pub struct PixelOp {
    pub x: i16,
    pub y: i16,
    pub color: Color,
}

/// The fill color of the ball and the paddles: opaque magenta.
pub open spec fn object_color() -> Color {
    Color { r: 0xff, g: 0x00, b: 0xff, a: 0xff }
}

/// The border color of the ball and the paddles: opaque black.
pub open spec fn border_color() -> Color {
    Color { r: 0x00, g: 0x00, b: 0x00, a: 0xff }
}

/// The `i`-th pixel write of one ball redraw, for a ball centered at
/// `ball`: the sprite is scanned column by column from its top-left corner,
/// with the border cells black and the rest in the object color.
pub open spec fn ball_pixel(ball: Vec2, i: int) -> PixelOp {
    let dx = i / (BALL_SIZE as int);
    let dy = i % (BALL_SIZE as int);
    let border = dx < BORDER_WIDTH || dx > BALL_SIZE - BORDER_WIDTH || dy < BORDER_WIDTH || dy
        > BALL_SIZE - BORDER_WIDTH;
    PixelOp {
        x: (ball.x - BALL_SIZE / 2 + dx) as i16,
        y: (ball.y - BALL_SIZE / 2 + dy) as i16,
        color: if border {
            border_color()
        } else {
            object_color()
        },
    }
}

/// The `j`-th pixel write of one paddle redraw, for a paddle of height `h`
/// whose top-left corner is `p`.
pub open spec fn paddle_pixel(p: Vec2, h: int, j: int) -> PixelOp {
    let dx = j / h;
    let dy = j % h;
    let border = dx < BORDER_WIDTH || dx > PADDLE_WIDTH - BORDER_WIDTH || dy < BORDER_WIDTH || dy
        > h - BORDER_WIDTH;
    PixelOp {
        x: (p.x + dx) as i16,
        y: (p.y + dy) as i16,
        color: if border {
            border_color()
        } else {
            object_color()
        },
    }
}

/// Every pixel write of one ball redraw, in emission order.
pub fn ball_pixels(ball: Vec2) -> (r: Vec<PixelOp>)
    requires
        -32700 <= ball.x <= 32700,
        -32700 <= ball.y <= 32700,
    ensures
        r@.len() == BALL_SIZE as int * BALL_SIZE as int,
        forall|i: int|
            0 <= i < BALL_SIZE as int * BALL_SIZE as int ==> r@[i] == ball_pixel(ball, i),
{
    let mut r: Vec<PixelOp> = Vec::new();
    let half: i16 = BALL_SIZE / 2;
    let mut dx: i16 = 0;
    while dx < BALL_SIZE
        invariant
            -32700 <= ball.x <= 32700,
            -32700 <= ball.y <= 32700,
            half == BALL_SIZE as int / 2,
            0 <= dx <= BALL_SIZE,
            r@.len() == dx as int * BALL_SIZE as int,
            forall|i: int| 0 <= i < r@.len() ==> r@[i] == ball_pixel(ball, i),
        decreases BALL_SIZE - dx,
    {
        let mut dy: i16 = 0;
        while dy < BALL_SIZE
            invariant
                -32700 <= ball.x <= 32700,
                -32700 <= ball.y <= 32700,
                half == BALL_SIZE as int / 2,
                0 <= dx < BALL_SIZE,
                0 <= dy <= BALL_SIZE,
                r@.len() == dx as int * BALL_SIZE as int + dy as int,
                forall|i: int| 0 <= i < r@.len() ==> r@[i] == ball_pixel(ball, i),
            decreases BALL_SIZE - dy,
        {
            let border = dx < BORDER_WIDTH || dx > BALL_SIZE - BORDER_WIDTH || dy < BORDER_WIDTH
                || dy > BALL_SIZE - BORDER_WIDTH;
            let op = PixelOp {
                x: ball.x - half + dx,
                y: ball.y - half + dy,
                color: if border {
                    Color { r: 0x00, g: 0x00, b: 0x00, a: 0xff }
                } else {
                    Color { r: 0xff, g: 0x00, b: 0xff, a: 0xff }
                },
            };
            proof {
                lemma_fundamental_div_mod_converse(
                    dx as int * BALL_SIZE as int + dy as int,
                    BALL_SIZE as int,
                    dx as int,
                    dy as int,
                );
            }
            r.push(op);
            dy = dy + 1;
        }
        proof {
            assert((dx as int + 1) * BALL_SIZE as int == dx as int * BALL_SIZE as int
                + BALL_SIZE as int) by (nonlinear_arith);
        }
        dx = dx + 1;
    }
    r
}

/// Every pixel write of one paddle redraw, in emission order: for each cell
/// of the paddle shape, first player 1's pixel, then player 2's.
pub fn paddle_pixels(p1: Vec2, p2: Vec2, h: i16) -> (r: Vec<PixelOp>)
    requires
        1 <= h <= 32700,
        -32700 <= p1.x <= 32700 - PADDLE_WIDTH,
        -32700 <= p1.y <= 32700 - h,
        -32700 <= p2.x <= 32700 - PADDLE_WIDTH,
        -32700 <= p2.y <= 32700 - h,
    ensures
        r@.len() == 2 * (PADDLE_WIDTH as int * h as int),
        forall|j: int|
            0 <= j < PADDLE_WIDTH as int * h as int ==> r@[2 * j] == paddle_pixel(p1, h as int, j)
                && r@[2 * j + 1] == paddle_pixel(p2, h as int, j),
{
    let mut r: Vec<PixelOp> = Vec::new();
    let mut dx: i16 = 0;
    while dx < PADDLE_WIDTH
        invariant
            1 <= h <= 32700,
            -32700 <= p1.x <= 32700 - PADDLE_WIDTH,
            -32700 <= p1.y <= 32700 - h,
            -32700 <= p2.x <= 32700 - PADDLE_WIDTH,
            -32700 <= p2.y <= 32700 - h,
            0 <= dx <= PADDLE_WIDTH,
            r@.len() == 2 * (dx as int * h as int),
            forall|j: int|
                0 <= j < dx as int * h as int ==> r@[2 * j] == paddle_pixel(p1, h as int, j)
                    && r@[2 * j + 1] == paddle_pixel(p2, h as int, j),
        decreases PADDLE_WIDTH - dx,
    {
        let mut dy: i16 = 0;
        proof {
            assert(dx as int * h as int <= 47 * 32700) by (nonlinear_arith)
                requires
                    0 <= dx as int <= 47,
                    0 <= h as int <= 32700,
            ;
        }
        while dy < h
            invariant
                1 <= h <= 32700,
                -32700 <= p1.x <= 32700 - PADDLE_WIDTH,
                -32700 <= p1.y <= 32700 - h,
                -32700 <= p2.x <= 32700 - PADDLE_WIDTH,
                -32700 <= p2.y <= 32700 - h,
                0 <= dx < PADDLE_WIDTH,
                0 <= dy <= h,
                dx as int * h as int <= 47 * 32700,
                r@.len() == 2 * (dx as int * h as int + dy as int),
                forall|j: int|
                    0 <= j < dx as int * h as int + dy as int ==> r@[2 * j] == paddle_pixel(
                        p1,
                        h as int,
                        j,
                    ) && r@[2 * j + 1] == paddle_pixel(p2, h as int, j),
            decreases h - dy,
        {
            let border = dx < BORDER_WIDTH || dx > PADDLE_WIDTH - BORDER_WIDTH || dy < BORDER_WIDTH
                || dy > h - BORDER_WIDTH;
            let color = if border {
                Color { r: 0x00, g: 0x00, b: 0x00, a: 0xff }
            } else {
                Color { r: 0xff, g: 0x00, b: 0xff, a: 0xff }
            };
            let op1 = PixelOp { x: p1.x + dx, y: p1.y + dy, color };
            let op2 = PixelOp { x: p2.x + dx, y: p2.y + dy, color };
            proof {
                lemma_fundamental_div_mod_converse(
                    dx as int * h as int + dy as int,
                    h as int,
                    dx as int,
                    dy as int,
                );
            }
            r.push(op1);
            r.push(op2);
            dy = dy + 1;
        }
        proof {
            assert((dx as int + 1) * h as int == dx as int * h as int + h as int)
                by (nonlinear_arith);
        }
        dx = dx + 1;
    }
    r
}

} // verus!
