//! The playfield: one ball bouncing inside a rectangle, and its rasterizer.

use crate::fixedpoint::FixedPoint;
use std::ops::Neg;
use vstd::prelude::*;

verus! {

broadcast use {FixedPoint::lemma_view, FixedPoint::lemma_from_view};

/// Display width in pixels.
pub const DISPLAY_WIDTH: usize = 96;

/// Display height in pixels.
pub const DISPLAY_HEIGHT: usize = 96;

/// Width of the playfield interior in whole pixels.
pub const PLAYFIELD_WIDTH: i8 = 94;

/// Height of the playfield interior in whole pixels.
pub const PLAYFIELD_HEIGHT: i8 = 85;

/// Display column of the playfield's leftmost interior pixel.
pub const PLAYFIELD_LEFT: usize = 1;

/// Display row of the playfield's topmost interior pixel.
pub const PLAYFIELD_TOP: usize = 10;

/// Bytes per pixel in the R5:G6:B5 encoding.
pub const BYTES_PER_PIXEL: usize = 2;

/// Bytes per display row.
pub const DISPLAY_ROW_BYTES: usize = DISPLAY_WIDTH * BYTES_PER_PIXEL;

/// Bytes in a whole frame.
pub const DISPLAY_BYTES: usize = DISPLAY_HEIGHT * DISPLAY_ROW_BYTES;

/// An ordered pair of fixed-point components.
#[derive(Clone, Copy, Debug, PartialEq, Eq, Structural, Hash, PartialOrd, Ord)]
pub struct Vec2 {
    pub x: FixedPoint,
    pub y: FixedPoint,
}

impl Vec2 {
    /// Flips the sign of the horizontal component.
    pub fn flip_x(&mut self)
        ensures
            final(self).x == old(self).x.negated(),
            final(self).y == old(self).y,
    {
        self.x = self.x.neg();
    }

    /// Flips the sign of the vertical component.
    pub fn flip_y(&mut self)
        ensures
            final(self).x == old(self).x,
            final(self).y == old(self).y.negated(),
    {
        self.y = self.y.neg();
    }
}

impl Default for Vec2 {
    /// The origin.
    fn default() -> (r: Vec2)
        ensures
            r.x@ == 0,
            r.y@ == 0,
    {
        Vec2 { x: FixedPoint::zero(), y: FixedPoint::zero() }
    }
}

/// A ball: where it is and how far it moves per tick.
#[derive(Clone, Copy, Debug, PartialEq, Eq, Structural, Hash, PartialOrd, Ord)]
pub struct Ball {
    pub position: Vec2,
    pub velocity: Vec2,
}

impl Default for Ball {
    /// A ball at rest at the origin.
    fn default() -> (r: Ball)
        ensures
            r.position.x@ == 0,
            r.position.y@ == 0,
            r.velocity.x@ == 0,
            r.velocity.y@ == 0,
    {
        Ball { position: Vec2::default(), velocity: Vec2::default() }
    }
}

/// Raw word of each component of the initial velocity: four times an
/// approximation of the 45-degree unit vector's component.
pub const INITIAL_SPEED_RAW: i16 = 4 * 0b1011_0110;

/// Where one axis of the ball is after a tick: the position moved by the
/// velocity, then held inside `[0, extent)`.
pub open spec fn step_position(position: FixedPoint, velocity: FixedPoint, extent: int) -> FixedPoint {
    let moved = position.plus(velocity);
    if moved@ < 0 {
        FixedPoint::of_integer(0)
    } else if moved@ >= extent * 256 {
        FixedPoint::of_integer(extent - 1)
    } else {
        moved
    }
}

/// The velocity of one axis after a tick: reversed if the move left
/// `[0, extent)`, unchanged otherwise.
pub open spec fn step_velocity(position: FixedPoint, velocity: FixedPoint, extent: int) -> FixedPoint {
    let moved = position.plus(velocity);
    if moved@ < 0 || moved@ >= extent * 256 {
        velocity.negated()
    } else {
        velocity
    }
}

/// The display row of the pixel that byte `i` of a frame belongs to.
pub open spec fn pixel_row(i: int) -> int {
    i / (DISPLAY_ROW_BYTES as int)
}

/// The display column of the pixel that byte `i` of a frame belongs to.
pub open spec fn pixel_column(i: int) -> int {
    (i % (DISPLAY_ROW_BYTES as int)) / (BYTES_PER_PIXEL as int)
}

/// Whether the pixel at `column`, `row` of the display lies on the one-pixel
/// ring just outside the playfield interior.
pub open spec fn on_border(column: int, row: int) -> bool {
    let left = PLAYFIELD_LEFT - 1;
    let right = PLAYFIELD_LEFT + PLAYFIELD_WIDTH;
    let top = PLAYFIELD_TOP - 1;
    let bottom = PLAYFIELD_TOP + PLAYFIELD_HEIGHT;
    &&& left <= column <= right
    &&& top <= row <= bottom
    &&& (column == left || column == right || row == top || row == bottom)
}

/// The playfield and the one ball it owns.
pub struct Playfield {
    pub ball: Ball,
}

impl Playfield {
    /// Whether the ball lies inside the playfield.
    pub open spec fn in_bounds(self) -> bool {
        &&& 0 <= self.ball.position.x@ < PLAYFIELD_WIDTH * 256
        &&& 0 <= self.ball.position.y@ < PLAYFIELD_HEIGHT * 256
    }

    /// Whether the pixel at `column`, `row` of the display is the ball's.
    pub open spec fn ball_at(self, column: int, row: int) -> bool {
        &&& column == PLAYFIELD_LEFT + self.ball.position.x.floor()
        &&& row == PLAYFIELD_TOP + self.ball.position.y.floor()
    }

    /// Whether the pixel at `column`, `row` of the display is white in the
    /// frame of this state.
    pub open spec fn lit(self, column: int, row: int) -> bool {
        on_border(column, row) || self.ball_at(column, row)
    }

    /// The frame of this state: row-major, two bytes per pixel, white where
    /// [`Playfield::lit`] holds and black elsewhere.
    pub open spec fn frame(self) -> Seq<u8> {
        Seq::new(
            DISPLAY_BYTES as nat,
            |i: int|
                if self.lit(pixel_column(i), pixel_row(i)) {
                    0xFFu8
                } else {
                    0u8
                },
        )
    }

    /// The state one tick later.
    pub open spec fn advanced(self) -> Playfield {
        let b = self.ball;
        Playfield {
            ball: Ball {
                position: Vec2 {
                    x: step_position(b.position.x, b.velocity.x, PLAYFIELD_WIDTH as int),
                    y: step_position(b.position.y, b.velocity.y, PLAYFIELD_HEIGHT as int),
                },
                velocity: Vec2 {
                    x: step_velocity(b.position.x, b.velocity.x, PLAYFIELD_WIDTH as int),
                    y: step_velocity(b.position.y, b.velocity.y, PLAYFIELD_HEIGHT as int),
                },
            },
        }
    }

    /// The state `ticks` ticks later.
    pub open spec fn advanced_by(self, ticks: nat) -> Playfield
        decreases ticks,
    {
        if ticks == 0 {
            self
        } else {
            self.advanced_by((ticks - 1) as nat).advanced()
        }
    }

    /// A playfield with the ball at the origin, heading down and to the right.
    pub fn new() -> (r: Self)
        ensures
            r.ball.position.x@ == 0,
            r.ball.position.y@ == 0,
            r.ball.velocity.x@ == INITIAL_SPEED_RAW,
            r.ball.velocity.y@ == INITIAL_SPEED_RAW,
            r.in_bounds(),
    {
        Self {
            ball: Ball {
                position: Vec2 { x: FixedPoint::zero(), y: FixedPoint::zero() },
                velocity: Vec2 {
                    x: FixedPoint::new_raw(INITIAL_SPEED_RAW),
                    y: FixedPoint::new_raw(INITIAL_SPEED_RAW),
                },
            },
        }
    }

    /// Whether the ball lies inside the playfield, as [`Playfield::draw`] and
    /// [`Playfield::render`] need it to.
    pub fn ball_in_bounds(&self) -> (r: bool)
        ensures
            r == self.in_bounds(),
    {
        let x = self.ball.position.x.as_raw();
        let y = self.ball.position.y.as_raw();
        let width = FixedPoint::new_integer(PLAYFIELD_WIDTH).as_raw();
        let height = FixedPoint::new_integer(PLAYFIELD_HEIGHT).as_raw();
        0 <= x && x < width && 0 <= y && y < height
    }

    fn advance_ball(&mut self)
        ensures
            *final(self) == old(self).advanced(),
            final(self).in_bounds(),
    {
        let width = FixedPoint::new_integer(PLAYFIELD_WIDTH);
        let height = FixedPoint::new_integer(PLAYFIELD_HEIGHT);

        self.ball.position.x = self.ball.position.x + self.ball.velocity.x;
        self.ball.position.y = self.ball.position.y + self.ball.velocity.y;

        if self.ball.position.x < FixedPoint::zero() {
            self.ball.position.x = FixedPoint::zero();
            self.ball.velocity.flip_x();
        }
        if self.ball.position.x >= width {
            self.ball.position.x = width - FixedPoint::one();
            self.ball.velocity.flip_x();
        }
        if self.ball.position.y < FixedPoint::zero() {
            self.ball.position.y = FixedPoint::zero();
            self.ball.velocity.flip_y();
        }
        if self.ball.position.y >= height {
            self.ball.position.y = height - FixedPoint::one();
            self.ball.velocity.flip_y();
        }
    }

    fn draw_horizontal_line(&self, buffer: &mut [u8], x: usize, y: usize, length: usize)
        requires
            old(buffer)@.len() == DISPLAY_BYTES,
            x + length <= DISPLAY_WIDTH,
            y < DISPLAY_HEIGHT,
        ensures
            final(buffer)@.len() == DISPLAY_BYTES,
            forall|i: int|
                0 <= i < DISPLAY_BYTES ==> #[trigger] final(buffer)@[i] == (if pixel_row(i) == y
                    && x <= pixel_column(i) < x + length {
                    0xFFu8
                } else {
                    old(buffer)@[i]
                }),
    {
        assert(DISPLAY_ROW_BYTES == 192 && DISPLAY_BYTES == 18432);
        let y_offset: usize = y * DISPLAY_ROW_BYTES;
        let mut my_x: usize = x;
        while my_x < x + length
            invariant
                buffer@.len() == DISPLAY_BYTES,
                old(buffer)@.len() == DISPLAY_BYTES,
                y_offset == y * 192,
                x <= my_x <= x + length <= DISPLAY_WIDTH,
                y < DISPLAY_HEIGHT,
                forall|i: int|
                    0 <= i < DISPLAY_BYTES ==> #[trigger] buffer@[i] == (if pixel_row(i) == y
                        && x <= pixel_column(i) < my_x {
                        0xFFu8
                    } else {
                        old(buffer)@[i]
                    }),
            decreases x + length - my_x,
        {
            let base: usize = y_offset + my_x * BYTES_PER_PIXEL;
            buffer[base] = 0xFF;
            buffer[base + 1] = 0xFF;
            my_x += 1;
        }
    }

    fn draw_vertical_line(&self, buffer: &mut [u8], x: usize, y: usize, length: usize)
        requires
            old(buffer)@.len() == DISPLAY_BYTES,
            x < DISPLAY_WIDTH,
            y + length <= DISPLAY_HEIGHT,
        ensures
            final(buffer)@.len() == DISPLAY_BYTES,
            forall|i: int|
                0 <= i < DISPLAY_BYTES ==> #[trigger] final(buffer)@[i] == (if pixel_column(i) == x
                    && y <= pixel_row(i) < y + length {
                    0xFFu8
                } else {
                    old(buffer)@[i]
                }),
    {
        assert(DISPLAY_ROW_BYTES == 192 && DISPLAY_BYTES == 18432);
        let mut my_y: usize = y;
        while my_y < y + length
            invariant
                buffer@.len() == DISPLAY_BYTES,
                old(buffer)@.len() == DISPLAY_BYTES,
                x < DISPLAY_WIDTH,
                y <= my_y <= y + length <= DISPLAY_HEIGHT,
                forall|i: int|
                    0 <= i < DISPLAY_BYTES ==> #[trigger] buffer@[i] == (if pixel_column(i) == x
                        && y <= pixel_row(i) < my_y {
                        0xFFu8
                    } else {
                        old(buffer)@[i]
                    }),
            decreases y + length - my_y,
        {
            let y_offset: usize = my_y * DISPLAY_ROW_BYTES;
            let base: usize = y_offset + x * BYTES_PER_PIXEL;
            buffer[base] = 0xFF;
            buffer[base + 1] = 0xFF;
            my_y += 1;
        }
    }

    /// Draws the one-pixel border around the playfield into the buffer.
    fn draw_playfield_border(&self, buffer: &mut [u8])
        requires
            old(buffer)@.len() == DISPLAY_BYTES,
        ensures
            final(buffer)@.len() == DISPLAY_BYTES,
            forall|i: int|
                0 <= i < DISPLAY_BYTES ==> #[trigger] final(buffer)@[i] == (if on_border(
                    pixel_column(i),
                    pixel_row(i),
                ) {
                    0xFFu8
                } else {
                    old(buffer)@[i]
                }),
    {
        let border_left: usize = PLAYFIELD_LEFT - 1;
        let border_top: usize = PLAYFIELD_TOP - 1;
        let width: usize = PLAYFIELD_WIDTH as usize;
        let height: usize = PLAYFIELD_HEIGHT as usize;

        // top border
        self.draw_horizontal_line(buffer, border_left, border_top, width + 2);

        // bottom border
        self.draw_horizontal_line(buffer, border_left, PLAYFIELD_TOP + height, width + 2);

        // left border
        self.draw_vertical_line(buffer, border_left, border_top, height + 1);

        // right border
        self.draw_vertical_line(buffer, border_left + width + 1, border_top, height + 1);
    }

    fn draw_ball(&self, buffer: &mut [u8])
        requires
            old(buffer)@.len() == DISPLAY_BYTES,
            self.in_bounds(),
        ensures
            final(buffer)@.len() == DISPLAY_BYTES,
            forall|i: int|
                0 <= i < DISPLAY_BYTES ==> #[trigger] final(buffer)@[i] == (if self.ball_at(
                    pixel_column(i),
                    pixel_row(i),
                ) {
                    0xFFu8
                } else {
                    old(buffer)@[i]
                }),
    {
        assert(DISPLAY_ROW_BYTES == 192 && DISPLAY_BYTES == 18432);
        let ball_x: usize = PLAYFIELD_LEFT + (self.ball.position.x.as_integer() as usize);
        let ball_y: usize = PLAYFIELD_TOP + (self.ball.position.y.as_integer() as usize);
        let ball_offset: usize = ball_y * DISPLAY_ROW_BYTES + ball_x * BYTES_PER_PIXEL;
        buffer[ball_offset] = 0xFF;
        buffer[ball_offset + 1] = 0xFF;
    }

    /// Draws the current state over the frame in `screen`: the border and the
    /// ball's pixel become white, every other byte keeps its value. On an
    /// all-zero buffer the result is exactly [`Playfield::frame`].
    pub fn draw(&self, screen: &mut [u8])
        requires
            old(screen)@.len() == DISPLAY_BYTES,
            self.in_bounds(),
        ensures
            final(screen)@.len() == DISPLAY_BYTES,
            forall|i: int|
                0 <= i < DISPLAY_BYTES ==> #[trigger] final(screen)@[i] == (if self.lit(
                    pixel_column(i),
                    pixel_row(i),
                ) {
                    0xFFu8
                } else {
                    old(screen)@[i]
                }),
            (forall|i: int| 0 <= i < DISPLAY_BYTES ==> old(screen)@[i] == 0) ==> final(screen)@
                == self.frame(),
    {
        // draw playfield border
        self.draw_playfield_border(screen);

        self.draw_ball(screen);

        assert((forall|i: int| 0 <= i < DISPLAY_BYTES ==> old(screen)@[i] == 0) ==> screen@
            =~= self.frame());
    }

    /// A fresh frame of the current state, ready for the display: exactly
    /// [`DISPLAY_BYTES`] bytes, white on the border and at the ball, black
    /// everywhere else.
    pub fn render(&self) -> (r: Vec<u8>)
        requires
            self.in_bounds(),
        ensures
            r@ == self.frame(),
    {
        let mut screen: Vec<u8> = vec![0u8; DISPLAY_BYTES];
        self.draw(screen.as_mut_slice());
        screen
    }

    /// Advances the simulation by one tick.
    pub fn advance(&mut self)
        ensures
            *final(self) == old(self).advanced(),
            final(self).in_bounds(),
    {
        self.advance_ball();
    }
}

/// The ball never escapes: after one tick or more the ball lies inside the
/// playfield whatever state the simulation started from, and a ball that
/// starts inside, as that of a new playfield does, lies inside after any
/// number of ticks.
pub proof fn lemma_bounce_invariant(start: Playfield, ticks: nat)
    ensures
        ticks >= 1 ==> start.advanced_by(ticks).in_bounds(),
        start.in_bounds() ==> start.advanced_by(ticks).in_bounds(),
    decreases ticks,
{
    if ticks > 0 {
        lemma_bounce_invariant(start, (ticks - 1) as nat);
    }
}

/// A ball whose next move carries it to or past the right edge, while its
/// vertical move stays inside, ends the tick on the last column with its
/// horizontal velocity reversed and its vertical velocity untouched.
pub proof fn lemma_reflect_right_edge(start: Playfield)
    requires
        start.ball.velocity.x@ > 0,
        PLAYFIELD_WIDTH * 256 <= start.ball.position.x@ + start.ball.velocity.x@ < 32768,
        0 <= start.ball.position.y@ + start.ball.velocity.y@ < PLAYFIELD_HEIGHT * 256,
    ensures
        start.advanced().ball.position.x == FixedPoint::of_integer(PLAYFIELD_WIDTH - 1),
        start.advanced().ball.velocity.x@ == -start.ball.velocity.x@,
        start.advanced().ball.velocity.y == start.ball.velocity.y,
{
}

/// Reflection keeps the speed: after a tick each velocity component has its
/// old magnitude, except that the most negative word, which has no positive
/// counterpart, stays as it is.
pub proof fn lemma_speed_preserved(start: Playfield)
    ensures
        start.advanced().ball.velocity.x@ == start.ball.velocity.x@
            || start.advanced().ball.velocity.x@ == -start.ball.velocity.x@,
        start.advanced().ball.velocity.y@ == start.ball.velocity.y@
            || start.advanced().ball.velocity.y@ == -start.ball.velocity.y@,
{
}

} // verus!
