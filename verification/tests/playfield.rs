use breakout_common::fixedpoint::FixedPoint;
use breakout_common::playfield::Ball;
use breakout_common::playfield::Playfield;
use breakout_common::playfield::Vec2;
use breakout_common::playfield::BYTES_PER_PIXEL;
use breakout_common::playfield::DISPLAY_BYTES;
use breakout_common::playfield::DISPLAY_HEIGHT;
use breakout_common::playfield::DISPLAY_ROW_BYTES;
use breakout_common::playfield::DISPLAY_WIDTH;
use breakout_common::playfield::INITIAL_SPEED_RAW;
use breakout_common::playfield::PLAYFIELD_HEIGHT;
use breakout_common::playfield::PLAYFIELD_LEFT;
use breakout_common::playfield::PLAYFIELD_TOP;
use breakout_common::playfield::PLAYFIELD_WIDTH;

fn raw(x: i16, y: i16) -> Vec2 {
    Vec2 { x: FixedPoint::new_raw(x), y: FixedPoint::new_raw(y) }
}

fn field(position: Vec2, velocity: Vec2) -> Playfield {
    Playfield { ball: Ball { position, velocity } }
}

fn on_border(column: usize, row: usize) -> bool {
    let left = PLAYFIELD_LEFT - 1;
    let right = PLAYFIELD_LEFT + PLAYFIELD_WIDTH as usize;
    let top = PLAYFIELD_TOP - 1;
    let bottom = PLAYFIELD_TOP + PLAYFIELD_HEIGHT as usize;
    left <= column
        && column <= right
        && top <= row
        && row <= bottom
        && (column == left || column == right || row == top || row == bottom)
}

fn expected_frame(ball_column: usize, ball_row: usize) -> Vec<u8> {
    let mut frame = vec![0u8; DISPLAY_BYTES];
    for row in 0..DISPLAY_HEIGHT {
        for column in 0..DISPLAY_WIDTH {
            if on_border(column, row) || (column == ball_column && row == ball_row) {
                let offset = row * DISPLAY_ROW_BYTES + column * BYTES_PER_PIXEL;
                frame[offset] = 0xFF;
                frame[offset + 1] = 0xFF;
            }
        }
    }
    frame
}

#[test]
fn constants_describe_the_display() {
    assert_eq!(DISPLAY_WIDTH, 96);
    assert_eq!(DISPLAY_HEIGHT, 96);
    assert_eq!(BYTES_PER_PIXEL, 2);
    assert_eq!(DISPLAY_ROW_BYTES, 192);
    assert_eq!(DISPLAY_BYTES, 18432);
    assert_eq!(PLAYFIELD_WIDTH, 94);
    assert_eq!(PLAYFIELD_HEIGHT, 85);
    assert_eq!(PLAYFIELD_LEFT, 1);
    assert_eq!(PLAYFIELD_TOP, 10);
    assert_eq!(INITIAL_SPEED_RAW, 728);
}

#[test]
fn new_playfield_starts_at_the_origin() {
    let p = Playfield::new();
    assert_eq!(p.ball.position, raw(0, 0));
    assert_eq!(p.ball.velocity, raw(4 * 0b1011_0110, 4 * 0b1011_0110));
}

#[test]
fn flips_negate_one_axis_only() {
    let mut v = raw(300, -7);
    v.flip_x();
    assert_eq!(v, raw(-300, -7));
    v.flip_y();
    assert_eq!(v, raw(-300, 7));
    let mut w = raw(i16::MIN, i16::MIN);
    w.flip_x();
    w.flip_y();
    assert_eq!(w, raw(i16::MIN, i16::MIN));
}

#[test]
fn defaults_are_zero() {
    assert_eq!(Vec2::default(), raw(0, 0));
    assert_eq!(Ball::default(), Ball { position: raw(0, 0), velocity: raw(0, 0) });
}

#[test]
fn advance_moves_by_the_velocity() {
    let mut p = Playfield::new();
    p.advance();
    assert_eq!(p.ball.position, raw(728, 728));
    assert_eq!(p.ball.velocity, raw(728, 728));
    p.advance();
    assert_eq!(p.ball.position, raw(1456, 1456));
}

#[test]
fn advance_reflects_off_the_right_edge() {
    let mut p = field(raw(93 * 256, 10 * 256), raw(728, 300));
    p.advance();
    assert_eq!(p.ball.position.x, FixedPoint::new_integer(93));
    assert_eq!(p.ball.velocity.x, FixedPoint::new_raw(-728));
    assert_eq!(p.ball.velocity.y, FixedPoint::new_raw(300));
    assert_eq!(p.ball.position.y, FixedPoint::new_raw(10 * 256 + 300));
}

#[test]
fn advance_reflects_off_the_low_edges() {
    let mut p = field(raw(100, 50), raw(-728, -51));
    p.advance();
    assert_eq!(p.ball.position, raw(0, 0));
    assert_eq!(p.ball.velocity, raw(728, 51));
}

#[test]
fn advance_reflects_off_the_bottom_edge() {
    let mut p = field(raw(256, 84 * 256 + 255), raw(0, 1));
    p.advance();
    assert_eq!(p.ball.position, raw(256, 84 * 256));
    assert_eq!(p.ball.velocity, raw(0, -1));
}

#[test]
fn corner_bounce_flips_both_axes() {
    let mut p = field(raw(93 * 256 + 200, 84 * 256 + 200), raw(728, 728));
    p.advance();
    assert_eq!(p.ball.position, raw(93 * 256, 84 * 256));
    assert_eq!(p.ball.velocity, raw(-728, -728));
}

#[test]
fn a_move_that_wraps_past_the_top_of_the_range_bounces_off_the_low_edge() {
    let mut p = field(raw(24000, 0), raw(i16::MAX, 0));
    p.advance();
    assert_eq!(p.ball.position.x, FixedPoint::zero());
    assert_eq!(p.ball.velocity.x, FixedPoint::new_raw(-i16::MAX));
}

#[test]
fn the_ball_stays_inside_for_many_ticks() {
    let mut p = Playfield::new();
    p.ball.position.x += FixedPoint::new_integer(7);
    for _ in 0..5000 {
        p.advance();
        let x = p.ball.position.x.as_raw();
        let y = p.ball.position.y.as_raw();
        assert!(0 <= x && x < 94 * 256);
        assert!(0 <= y && y < 85 * 256);
        assert_eq!(p.ball.velocity.x.as_raw().abs(), 728);
        assert_eq!(p.ball.velocity.y.as_raw().abs(), 728);
    }
}

#[test]
fn one_tick_brings_any_ball_inside() {
    for &(px, py, vx, vy) in &[
        (i16::MIN, i16::MAX, -1i16, 1i16),
        (30000, -30000, 5000, -5000),
        (-1, 85 * 256, 0, 0),
        (94 * 256, -1, i16::MIN, i16::MIN),
    ] {
        let mut p = field(raw(px, py), raw(vx, vy));
        p.advance();
        let x = p.ball.position.x.as_raw();
        let y = p.ball.position.y.as_raw();
        assert!(0 <= x && x < 94 * 256);
        assert!(0 <= y && y < 85 * 256);
    }
}

#[test]
fn draw_paints_border_and_ball_on_a_black_buffer() {
    let p = Playfield::new();
    let mut screen = vec![0u8; DISPLAY_BYTES];
    p.draw(&mut screen);
    assert_eq!(screen, expected_frame(1, 10));

    let q = field(raw(5 * 256 + 200, 3 * 256 + 17), raw(0, 0));
    let mut screen = vec![0u8; DISPLAY_BYTES];
    q.draw(&mut screen);
    assert_eq!(screen, expected_frame(6, 13));
    let lit = screen.iter().filter(|b| **b == 0xFF).count();
    assert_eq!(lit, 2 * (2 * 96 + 2 * 85 + 1));
    assert_eq!(screen.iter().filter(|b| **b == 0x00).count(), DISPLAY_BYTES - lit);
}

#[test]
fn draw_puts_the_ball_in_the_far_corner() {
    let q = field(raw(93 * 256 + 255, 84 * 256 + 255), raw(0, 0));
    let mut screen = vec![0u8; DISPLAY_BYTES];
    q.draw(&mut screen);
    assert_eq!(screen, expected_frame(94, 94));
    let offset = 94 * DISPLAY_ROW_BYTES + 94 * BYTES_PER_PIXEL;
    assert_eq!(&screen[offset..offset + 2], &[0xFF, 0xFF]);
}

#[test]
fn draw_leaves_other_bytes_as_they_were() {
    let p = Playfield::new();
    let mut screen = vec![0x5Au8; DISPLAY_BYTES];
    p.draw(&mut screen);
    let frame = expected_frame(1, 10);
    for i in 0..DISPLAY_BYTES {
        if frame[i] == 0xFF {
            assert_eq!(screen[i], 0xFF);
        } else {
            assert_eq!(screen[i], 0x5A);
        }
    }
}

#[test]
fn render_gives_a_fresh_frame() {
    let mut p = Playfield::new();
    assert_eq!(p.render(), expected_frame(1, 10));
    p.advance();
    p.advance();
    // two ticks of 728/256 pixels each: 5.6875
    assert_eq!(p.render(), expected_frame(6, 15));
    assert_eq!(p.render().len(), DISPLAY_WIDTH * DISPLAY_HEIGHT * 2);
}

#[test]
fn ball_in_bounds_tells_whether_the_ball_can_be_drawn() {
    assert!(Playfield::new().ball_in_bounds());
    assert!(field(raw(94 * 256 - 1, 85 * 256 - 1), raw(0, 0)).ball_in_bounds());
    assert!(!field(raw(94 * 256, 0), raw(0, 0)).ball_in_bounds());
    assert!(!field(raw(0, 85 * 256), raw(0, 0)).ball_in_bounds());
    assert!(!field(raw(-1, 0), raw(0, 0)).ball_in_bounds());
    assert!(!field(raw(0, -1), raw(0, 0)).ball_in_bounds());
}
