//! Pixel canvas for the debug view: plotting, Bresenham lines, the block
//! glyphs of the status text, and the colour coding of the deviation.

use vstd::prelude::*;

verus! {

/// A rectangular pixel buffer in row-major order.
pub struct Canvas {
    pub buffer: Vec<u32>,
    pub width: usize,
    pub height: usize,
}

/// Coordinate magnitude up to which the line and text routines promise
/// overflow-free arithmetic; far beyond any real screen.
pub const COORDINATE_LIMIT: i32 = 0x0800_0000;

impl Canvas {
    /// The buffer holds exactly one pixel per coordinate pair, and the
    /// dimensions fit the coordinate type of the drawing routines.
    pub open spec fn well_formed(self) -> bool {
        &&& self.buffer@.len() == self.width * self.height
        &&& self.width <= i32::MAX
        &&& self.height <= i32::MAX
    }

    /// Whether a coordinate pair lies on the canvas.
    pub open spec fn spec_in_bounds(self, x: int, y: int) -> bool {
        0 <= x < self.width && 0 <= y < self.height
    }

    /// A canvas of the given dimensions, all pixels zero.
    pub fn new(width: usize, height: usize) -> (c: Canvas)
        requires
            width * height <= usize::MAX,
            width <= i32::MAX,
            height <= i32::MAX,
        ensures
            c.well_formed(),
            c.width == width,
            c.height == height,
            forall|k: int| 0 <= k < c.buffer@.len() ==> c.buffer@[k] == 0u32,
    {
        proof {
            assert(width * height <= usize::MAX) by (nonlinear_arith)
                requires
                    width * height <= usize::MAX,
            ;
        }
        let mut buffer: Vec<u32> = Vec::new();
        let n: usize = width * height;
        let mut i: usize = 0;
        while i < n
            invariant
                i <= n,
                buffer@.len() == i,
                forall|k: int| 0 <= k < i ==> buffer@[k] == 0u32,
            decreases n - i,
        {
            buffer.push(0);
            i = i + 1;
        }
        Canvas { buffer, width, height }
    }

    /// Writes one pixel, ignoring coordinates that fall off the canvas.
    pub fn plot(&mut self, x: i32, y: i32, color: u32)
        requires
            old(self).well_formed(),
        ensures
            final(self).well_formed(),
            final(self).width == old(self).width,
            final(self).height == old(self).height,
            old(self).spec_in_bounds(x as int, y as int) ==> final(self).buffer@ == old(
                self,
            ).buffer@.update(y as int * old(self).width as int + x as int, color),
            !old(self).spec_in_bounds(x as int, y as int) ==> final(self).buffer@ == old(
                self,
            ).buffer@,
            final(self).buffer@.len() == old(self).buffer@.len(),
            forall|k: int|
                0 <= k < final(self).buffer@.len() ==> final(self).buffer@[k] == old(
                    self,
                ).buffer@[k] || final(self).buffer@[k] == color,
    {
        if x >= 0 && x < self.width as i32 && y >= 0 && y < self.height as i32 {
            let len: usize = self.buffer.len();
            proof {
                assert(y * self.width + x < self.width * self.height) by (nonlinear_arith)
                    requires
                        0 <= x < self.width,
                        0 <= y < self.height,
                ;
            }
            let idx: usize = y as usize * self.width + x as usize;
            self.buffer[idx] = color;
        }
    }

    /// Draws the line from `(x0, y0)` to `(x1, y1)` with Bresenham's
    /// algorithm, clipping every pixel to the canvas.  The walk is bounded
    /// by one step per unit of the line's bounding box, which the
    /// algorithm never exceeds.
    #[verifier::loop_isolation(false)]
    pub fn draw_line(&mut self, x0: i32, y0: i32, x1: i32, y1: i32, color: u32)
        requires
            old(self).well_formed(),
            -COORDINATE_LIMIT <= x0 <= COORDINATE_LIMIT,
            -COORDINATE_LIMIT <= y0 <= COORDINATE_LIMIT,
            -COORDINATE_LIMIT <= x1 <= COORDINATE_LIMIT,
            -COORDINATE_LIMIT <= y1 <= COORDINATE_LIMIT,
        ensures
            final(self).well_formed(),
            final(self).width == old(self).width,
            final(self).height == old(self).height,
            final(self).buffer@.len() == old(self).buffer@.len(),
            forall|k: int|
                0 <= k < final(self).buffer@.len() ==> final(self).buffer@[k] == old(
                    self,
                ).buffer@[k] || final(self).buffer@[k] == color,
            old(self).spec_in_bounds(x0 as int, y0 as int) ==> final(self).buffer@[y0 as int
                * old(self).width as int + x0 as int] == color,
    {
        let dx: i32 = if x1 >= x0 {
            x1 - x0
        } else {
            x0 - x1
        };
        let sx: i32 = if x0 < x1 {
            1
        } else {
            -1
        };
        let dy: i32 = if y1 >= y0 {
            -(y1 - y0)
        } else {
            -(y0 - y1)
        };
        let sy: i32 = if y0 < y1 {
            1
        } else {
            -1
        };
        let mut err: i32 = dx + dy;
        let mut x: i32 = x0;
        let mut y: i32 = y0;
        let steps: i64 = dx as i64 - dy as i64 + 1;
        let mut fuel: i64 = steps;
        let ghost mut start_plotted: bool = false;
        while fuel > 0
            invariant
                start_plotted ==> (self.spec_in_bounds(x0 as int, y0 as int)
                    ==> self.buffer@[y0 as int * self.width as int + x0 as int] == color),
                !start_plotted ==> x == x0 && y == y0 && fuel == steps,
                self.well_formed(),
                self.width == old(self).width,
                self.height == old(self).height,
                self.buffer@.len() == old(self).buffer@.len(),
                forall|k: int|
                    0 <= k < self.buffer@.len() ==> self.buffer@[k] == old(self).buffer@[k]
                        || self.buffer@[k] == color,
                0 <= fuel <= steps,
                2 * dy <= err <= 2 * dx,
                x0 - (steps - fuel) <= x <= x0 + (steps - fuel),
                y0 - (steps - fuel) <= y <= y0 + (steps - fuel),
            decreases fuel,
        {
            self.plot(x, y, color);
            proof {
                if self.spec_in_bounds(x0 as int, y0 as int) {
                    let k0: int = y0 as int * self.width as int + x0 as int;
                    assert(0 <= k0 && k0 < self.width * self.height) by (nonlinear_arith)
                        requires
                            k0 == y0 as int * self.width as int + x0 as int,
                            0 <= x0 < self.width as int,
                            0 <= y0 < self.height as int,
                    ;
                }
                start_plotted = true;
            }
            if x == x1 && y == y1 {
                break ;
            }
            let e2: i32 = 2 * err;
            if e2 >= dy {
                err = err + dy;
                x = x + sx;
            }
            if e2 <= dx {
                err = err + dx;
                y = y + sy;
            }
            fuel = fuel - 1;
        }
    }
}

/// Packs one 8-bit channel triple into the `0x00RRGGBB` pixel format the
/// debug window consumes.
pub fn from_u8_rgb(r: u8, g: u8, b: u8) -> (c: u32)
    ensures
        c == 0x10000 * (r as u32) + 0x100 * (g as u32) + (b as u32),
{
    let (r, g, b) = (r as u32, g as u32, b as u32);
    proof {
        assert((r << 16) | (g << 8) | b == 0x10000 * r + 0x100 * g + b) by (bit_vector)
            requires
                r < 256 && g < 256 && b < 256,
        ;
    }
    (r << 16) | (g << 8) | b
}

/// The colour of the current-position line in the debug view: red once the
/// deviation is past the threshold, yellow while drifting down toward it,
/// green otherwise.
pub fn status_color(delta: i64, good_posture_deviation: i64) -> (c: u32)
    ensures
        delta > good_posture_deviation ==> c == 0xFFFF0000u32,
        delta <= good_posture_deviation && delta > 0 ==> c == 0xFFFFFF00u32,
        delta <= good_posture_deviation && delta <= 0 ==> c == 0xFF00FF00u32,
{
    if delta > good_posture_deviation {
        0xFFFF0000
    } else if delta > 0 {
        0xFFFFFF00
    } else {
        0xFF00FF00
    }
}

/// Draws placeholder block glyphs for `text`: one filled 6x8 rectangle per
/// character, advancing 8 pixels per character, clipped to the canvas.
#[verifier::loop_isolation(false)]
pub fn draw_text(canvas: &mut Canvas, text: &str, x: i32, y: i32, color: u32)
    requires
        old(canvas).well_formed(),
        -COORDINATE_LIMIT <= x <= COORDINATE_LIMIT,
        -COORDINATE_LIMIT <= y <= COORDINATE_LIMIT,
        text@.len() <= 0x0100_0000,
    ensures
        final(canvas).well_formed(),
        final(canvas).width == old(canvas).width,
        final(canvas).height == old(canvas).height,
        final(canvas).buffer@.len() == old(canvas).buffer@.len(),
        forall|k: int|
            0 <= k < final(canvas).buffer@.len() ==> final(canvas).buffer@[k] == old(
                canvas,
            ).buffer@[k] || final(canvas).buffer@[k] == color,
    {
    let n: usize = text.unicode_len();
    let mut i: usize = 0;
    while i < n
        invariant
            canvas.well_formed(),
            canvas.width == old(canvas).width,
            canvas.height == old(canvas).height,
            canvas.buffer@.len() == old(canvas).buffer@.len(),
            forall|k: int|
                0 <= k < canvas.buffer@.len() ==> canvas.buffer@[k] == old(canvas).buffer@[k]
                    || canvas.buffer@[k] == color,
            i <= n,
        decreases n - i,
    {
        let char_x: i32 = x + (i as i32) * 8;
        let mut dy: i32 = 0;
        while dy < 8
            invariant
                canvas.well_formed(),
                canvas.width == old(canvas).width,
                canvas.height == old(canvas).height,
                canvas.buffer@.len() == old(canvas).buffer@.len(),
                forall|k: int|
                    0 <= k < canvas.buffer@.len() ==> canvas.buffer@[k] == old(
                        canvas,
                    ).buffer@[k] || canvas.buffer@[k] == color,
                0 <= dy <= 8,
            decreases 8 - dy,
        {
            let mut dx: i32 = 0;
            while dx < 6
                invariant
                    canvas.well_formed(),
                    canvas.width == old(canvas).width,
                    canvas.height == old(canvas).height,
                    canvas.buffer@.len() == old(canvas).buffer@.len(),
                    forall|k: int|
                        0 <= k < canvas.buffer@.len() ==> canvas.buffer@[k] == old(
                            canvas,
                        ).buffer@[k] || canvas.buffer@[k] == color,
                    0 <= dx <= 6,
                decreases 6 - dx,
            {
                canvas.plot(char_x + dx, y + dy, color);
                dx = dx + 1;
            }
            dy = dy + 1;
        }
        i = i + 1;
    }
}

} // verus!
