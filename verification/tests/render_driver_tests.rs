use pongxelflut::color::Color;
use pongxelflut::driver::{advance_timer, Supervisor, FRAME_TIME_MICROS};
use pongxelflut::game::Vec2;
use pongxelflut::render::{ball_pixels, paddle_pixels};

#[test]
fn ball_redraw_covers_the_square() {
    let ops = ball_pixels(Vec2 { x: 400, y: 300 });
    assert_eq!(ops.len(), 58 * 58);
    // Top-left corner of the sprite, on the border.
    assert_eq!(ops[0].x, 371);
    assert_eq!(ops[0].y, 271);
    assert_eq!(ops[0].color, Color::from(0x00, 0x00, 0x00, 0xff));
    // The center pixel, filled with the object color.
    let center = 29 * 58 + 29;
    assert_eq!(ops[center].x, 400);
    assert_eq!(ops[center].y, 300);
    assert_eq!(ops[center].color, Color::from(0xff, 0x00, 0xff, 0xff));
    // A column past the far border threshold is border again.
    let far = 53 * 58 + 29;
    assert_eq!(ops[far].x, 424);
    assert_eq!(ops[far].color, Color::from(0x00, 0x00, 0x00, 0xff));
}

#[test]
fn paddle_redraw_interleaves_both_paddles() {
    let p1 = Vec2 { x: 88, y: 257 };
    let p2 = Vec2 { x: 665, y: 257 };
    let ops = paddle_pixels(p1, p2, 85);
    assert_eq!(ops.len(), 2 * 47 * 85);
    // The first cell: player 1's pixel, then player 2's, both border.
    assert_eq!(ops[0].x, 88);
    assert_eq!(ops[0].y, 257);
    assert_eq!(ops[1].x, 665);
    assert_eq!(ops[1].y, 257);
    assert_eq!(ops[0].color, Color::from(0x00, 0x00, 0x00, 0xff));
    assert_eq!(ops[1].color, Color::from(0x00, 0x00, 0x00, 0xff));
    // An interior cell is filled for both paddles.
    let cell = 10 * 85 + 10;
    assert_eq!(ops[2 * cell].x, 98);
    assert_eq!(ops[2 * cell].y, 267);
    assert_eq!(ops[2 * cell].color, Color::from(0xff, 0x00, 0xff, 0xff));
    assert_eq!(ops[2 * cell + 1].x, 675);
    assert_eq!(ops[2 * cell + 1].y, 267);
    assert_eq!(ops[2 * cell + 1].color, Color::from(0xff, 0x00, 0xff, 0xff));
}

#[test]
fn timer_accumulates_until_a_tick_is_due() {
    let d = advance_timer(0, 10000);
    assert!(!d.run_tick);
    assert_eq!(d.accumulator, 10000);
    let d = advance_timer(d.accumulator, 10000);
    assert!(!d.run_tick);
    assert_eq!(d.accumulator, 20000);
    let d = advance_timer(d.accumulator, 20000);
    assert!(d.run_tick);
    // The surplus over one frame is preserved, not discarded.
    assert_eq!(d.accumulator, 40000 - FRAME_TIME_MICROS);
}

#[test]
fn timer_needs_strictly_more_than_one_frame() {
    let d = advance_timer(0, FRAME_TIME_MICROS);
    assert!(!d.run_tick);
    assert_eq!(d.accumulator, FRAME_TIME_MICROS);
}

#[test]
fn timer_saturates_instead_of_wrapping() {
    let d = advance_timer(u64::MAX, 100);
    assert!(d.run_tick);
    assert_eq!(d.accumulator, u64::MAX - FRAME_TIME_MICROS);
}

#[test]
fn supervisor_always_restarts() {
    let mut s = Supervisor::new();
    assert_eq!(s.restarts, 0);
    for i in 1..=5u64 {
        assert!(s.on_failure());
        assert_eq!(s.restarts, i);
    }
}
