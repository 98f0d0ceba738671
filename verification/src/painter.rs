//! The software rasterizer: a flat, row-major frame buffer and the
//! primitives that paint lines, rectangles and numerals into it.

use vstd::prelude::*;
use crate::Coord;
use crate::rect::Rect;
use crate::color::{ColorRGB, UnpackRGB, DATA_COLOR, DEFAULT_COLOR, FOUND_COLOR, SEARCH_COLOR};
use crate::digit::{
    decimal_digits, decimal_digits_are_exact, decimal_digits_are_few, glyph_mask, num_to_digits,
    Digit, DIGIT_COLS, DIGIT_RECT_SIZE, DIGIT_ROWS, DIGIT_WIDTH,
};
use crate::case::TestCase;

verus! {

broadcast use vstd::std_specs::hash::group_hash_axioms;

/// The pixel `(px, py)` lies on the run from `x0` to `x1`, both included, of row `y`.
pub open spec fn on_hline(x0: int, x1: int, y: int, px: int, py: int) -> bool {
    py == y && x0 <= px <= x1
}

/// The pixel `(px, py)` lies on the run from `y0` to `y1`, both included, of column `x`.
pub open spec fn on_vline(y0: int, y1: int, x: int, px: int, py: int) -> bool {
    px == x && y0 <= py <= y1
}

/// The pixel lies on one of the four border lines of the rectangle.
pub open spec fn on_border(rect: Rect, px: int, py: int) -> bool {
    ||| on_hline(rect.left as int, rect.right as int, rect.top as int, px, py)
    ||| on_hline(rect.left as int, rect.right as int, rect.bottom as int, px, py)
    ||| on_vline(rect.top as int, rect.bottom as int, rect.left as int, px, py)
    ||| on_vline(rect.top as int, rect.bottom as int, rect.right as int, px, py)
}

/// The pixel is one of the first `count` of the listed pixels.
pub open spec fn on_listed(coords: Seq<(Coord, Coord)>, count: int, px: int, py: int) -> bool {
    exists|k: int| 0 <= k < count && k < coords.len() && (#[trigger] coords[k]).0 == px && coords[k].1 == py
}

/// The buffer after every pixel for which `hit` holds took `color`. The
/// pixel at column `x` of row `y` is the element `y * width + x`.
pub open spec fn painted(
    buffer: Seq<ColorRGB>,
    width: int,
    color: ColorRGB,
    hit: spec_fn(int, int) -> bool,
) -> Seq<ColorRGB> {
    Seq::new(buffer.len(), |i: int| if hit(i % width, i / width) { color } else { buffer[i] })
}

/// The buffer after a horizontal run was painted.
pub open spec fn paint_hline(buffer: Seq<ColorRGB>, width: int, color: ColorRGB, x0: int, x1: int, y: int) -> Seq<ColorRGB> {
    painted(buffer, width, color, |px: int, py: int| on_hline(x0, x1, y, px, py))
}

/// The buffer after a vertical run was painted.
pub open spec fn paint_vline(buffer: Seq<ColorRGB>, width: int, color: ColorRGB, y0: int, y1: int, x: int) -> Seq<ColorRGB> {
    painted(buffer, width, color, |px: int, py: int| on_vline(y0, y1, x, px, py))
}

/// The buffer after the listed pixels were painted.
pub open spec fn paint_pixels(buffer: Seq<ColorRGB>, width: int, color: ColorRGB, coords: Seq<(Coord, Coord)>) -> Seq<ColorRGB> {
    painted(buffer, width, color, |px: int, py: int| on_listed(coords, coords.len() as int, px, py))
}

/// The buffer after the inside of a rectangle was painted: its top and
/// left edges belong to it, its bottom and right edges do not.
pub open spec fn paint_filled(buffer: Seq<ColorRGB>, width: int, color: ColorRGB, rect: Rect) -> Seq<ColorRGB> {
    painted(buffer, width, color, |px: int, py: int| rect.holds_cell(px, py))
}

/// The buffer after the four border lines of a rectangle were painted.
pub open spec fn paint_hollow(buffer: Seq<ColorRGB>, width: int, color: ColorRGB, rect: Rect) -> Seq<ColorRGB> {
    painted(buffer, width, color, |px: int, py: int| on_border(rect, px, py))
}

/// The element `y * width + x` is the only one in row `y` and column `x`.
proof fn cell_of_index(width: int, x: int, y: int, i: int)
    requires
        0 <= x < width,
    ensures
        (i == y * width + x) <==> (i / width == y && i % width == x),
{
    if i == y * width + x {
        vstd::arithmetic::div_mod::lemma_fundamental_div_mod_converse(i, width, y, x);
    }
    if i / width == y && i % width == x {
        vstd::arithmetic::div_mod::lemma_fundamental_div_mod(i, width);
        assert(width * (i / width) == y * width) by (nonlinear_arith)
            requires
                i / width == y,
        ;
    }
}

/// Painting changes the pixels for which `hit` holds, and no others: the
/// pixel at column `x` of row `y` has the colour afterwards if `hit(x, y)`,
/// and is as it was if not.
pub proof fn painting_changes_hit_pixels(
    buffer: Seq<ColorRGB>,
    width: int,
    color: ColorRGB,
    hit: spec_fn(int, int) -> bool,
    x: int,
    y: int,
)
    requires
        0 <= x < width,
        0 <= y * width + x < buffer.len(),
    ensures
        painted(buffer, width, color, hit).len() == buffer.len(),
        painted(buffer, width, color, hit)[y * width + x] == if hit(x, y) {
            color
        } else {
            buffer[y * width + x]
        },
{
    cell_of_index(width, x, y, y * width + x);
}

/// Painting the same pixels in the same colour once more changes nothing:
/// corners that two lines share come out as if painted once.
pub proof fn painting_twice_is_painting_once(
    buffer: Seq<ColorRGB>,
    width: int,
    color: ColorRGB,
    hit: spec_fn(int, int) -> bool,
)
    ensures
        painted(painted(buffer, width, color, hit), width, color, hit) == painted(buffer, width, color, hit),
{
    assert(painted(painted(buffer, width, color, hit), width, color, hit) =~= painted(buffer, width, color, hit));
}

/// Two filled rectangles side by side paint what the rectangle that
/// spans both does: the edge between them is painted once.
pub proof fn filled_rects_tile(buffer: Seq<ColorRGB>, width: int, color: ColorRGB, rect: Rect, split: Coord)
    requires
        rect.left <= split <= rect.right,
    ensures
        paint_filled(
            paint_filled(buffer, width, color, Rect { right: split, ..rect }),
            width,
            color,
            Rect { left: split, ..rect },
        ) == paint_filled(buffer, width, color, rect),
{
    assert(paint_filled(
        paint_filled(buffer, width, color, Rect { right: split, ..rect }),
        width,
        color,
        Rect { left: split, ..rect },
    ) =~= paint_filled(buffer, width, color, rect));
}

/// A pixel inside the canvas has its element inside the buffer.
proof fn cell_is_inside(width: int, height: int, x: int, y: int)
    requires
        0 <= x < width,
        0 <= y < height,
    ensures
        0 <= y * width + x < width * height,
{
    assert(0 <= y * width && y * width + width <= width * height) by (nonlinear_arith)
        requires
            0 <= y,
            y + 1 <= height,
            0 < width,
    ;
}

/// A frame buffer of `width` by `height` pixels with the font to label it.
pub struct Painter {
    frame_buffer: Vec<ColorRGB>,
    width: usize,
    height: usize,
    digits: Vec<Digit>,
}

impl Painter {
    /// The frame buffer, row after row.
    pub closed spec fn view(&self) -> Seq<ColorRGB> {
        self.frame_buffer@
    }

    /// The number of pixels in a row.
    pub closed spec fn canvas_width(&self) -> int {
        self.width as int
    }

    /// The number of rows.
    pub closed spec fn canvas_height(&self) -> int {
        self.height as int
    }

    /// The buffer holds one element for each pixel, and the font table holds
    /// the ten glyphs.
    pub closed spec fn wf(&self) -> bool {
        &&& self.frame_buffer@.len() == self.width * self.height
        &&& self.width * self.height <= usize::MAX
        &&& self.digits@.len() == 10
        &&& forall|d: int| 0 <= d < 10 ==> (#[trigger] self.digits@[d]).0 == glyph_mask(d)
    }

    /// This painter is `before` with `buffer` as its frame buffer.
    pub open spec fn repainted(&self, before: &Painter, buffer: Seq<ColorRGB>) -> bool {
        &&& self.wf()
        &&& self.canvas_width() == before.canvas_width()
        &&& self.canvas_height() == before.canvas_height()
        &&& self@ == buffer
    }

    /// The pixel lies inside the canvas.
    pub open spec fn holds_pixel(&self, x: int, y: int) -> bool {
        0 <= x < self.canvas_width() && 0 <= y < self.canvas_height()
    }

    /// Every pixel of the horizontal run lies inside the canvas.
    pub open spec fn hline_fits(&self, x0: int, x1: int, y: int) -> bool {
        x0 <= x1 ==> self.holds_pixel(x0, y) && self.holds_pixel(x1, y)
    }

    /// Every pixel of the vertical run lies inside the canvas.
    pub open spec fn vline_fits(&self, y0: int, y1: int, x: int) -> bool {
        y0 <= y1 ==> self.holds_pixel(x, y0) && self.holds_pixel(x, y1)
    }

    /// Every pixel of the rectangle's four border lines lies inside the canvas.
    pub open spec fn hollow_fits(&self, rect: Rect) -> bool {
        &&& self.hline_fits(rect.left as int, rect.right as int, rect.top as int)
        &&& self.hline_fits(rect.left as int, rect.right as int, rect.bottom as int)
        &&& self.vline_fits(rect.top as int, rect.bottom as int, rect.left as int)
        &&& self.vline_fits(rect.top as int, rect.bottom as int, rect.right as int)
    }

    /// Every pixel inside the rectangle lies inside the canvas.
    pub open spec fn fill_fits(&self, rect: Rect) -> bool {
        rect.left < rect.right && rect.top < rect.bottom ==> {
            &&& 0 <= rect.left && rect.right <= self.canvas_width()
            &&& 0 <= rect.top && rect.bottom <= self.canvas_height()
        }
    }

    /// Every listed pixel lies inside the canvas.
    pub open spec fn pixels_fit(&self, coords: Seq<(Coord, Coord)>) -> bool {
        forall|k: int| 0 <= k < coords.len() ==> self.holds_pixel((#[trigger] coords[k]).0 as int, coords[k].1 as int)
    }

    /// In a valid painter the buffer has a pixel for each place of the canvas.
    pub proof fn buffer_covers_canvas(&self)
        requires
            self.wf(),
        ensures
            self@.len() == self.canvas_width() * self.canvas_height(),
            0 <= self.canvas_width() <= usize::MAX,
            0 <= self.canvas_height() <= usize::MAX,
    {
    }

    /// A canvas of the given size in the background colour.
    pub fn new(width: usize, height: usize) -> (painter: Painter)
        requires
            width * height <= usize::MAX,
        ensures
            painter.wf(),
            painter.canvas_width() == width,
            painter.canvas_height() == height,
            painter@ == Seq::new((width * height) as nat, |i: int| DEFAULT_COLOR),
    {
        let mut digits: Vec<Digit> = Vec::new();
        let mut d: u8 = 0;
        while d < 10
            invariant
                d <= 10,
                digits@.len() == d,
                forall|k: int| 0 <= k < d ==> (#[trigger] digits@[k]).0 == glyph_mask(k),
            decreases 10 - d,
        {
            digits.push(Digit::of(d));
            d += 1;
        }
        let frame_buffer: Vec<ColorRGB> = vec![DEFAULT_COLOR; width * height];
        assert(frame_buffer@ =~= Seq::new((width * height) as nat, |i: int| DEFAULT_COLOR));

        Painter { frame_buffer, width, height, digits }
    }

    /// The width of the canvas in pixels.
    pub fn width(&self) -> (width: usize)
        ensures
            width == self.canvas_width(),
    {
        self.width
    }

    /// The height of the canvas in pixels.
    pub fn height(&self) -> (height: usize)
        ensures
            height == self.canvas_height(),
    {
        self.height
    }

    /// The frame buffer, for whoever presents it.
    pub fn frame_buffer(&self) -> (buffer: &Vec<ColorRGB>)
        ensures
            buffer@ == self@,
    {
        &self.frame_buffer
    }

    /// The colour that erases: the background.
    pub fn clear_color() -> (color: ColorRGB)
        ensures
            color == DEFAULT_COLOR,
    {
        0x00ffffff
    }

    fn coords_to_index(width: usize, x: Coord, y: Coord) -> (index: usize)
        requires
            0 <= x < width,
            0 <= y,
            y * width + x <= usize::MAX,
        ensures
            index == y * width + x,
    {
        assert(y <= y * width) by (nonlinear_arith)
            requires
                0 <= y,
                1 <= width,
        ;
        y as usize * width + x as usize
    }

    fn put_pixel(&mut self, color: ColorRGB, x: Coord, y: Coord)
        requires
            old(self).wf(),
            old(self).holds_pixel(x as int, y as int),
        ensures
            0 <= y * old(self).canvas_width() + x < old(self)@.len(),
            final(self).repainted(old(self), old(self)@.update(y * old(self).canvas_width() + x, color)),
    {
        proof {
            cell_is_inside(self.width as int, self.height as int, x as int, y as int);
        }
        let index = Self::coords_to_index(self.width, x, y);
        self.frame_buffer.set(index, color);
    }

    /// Paints the pixels of row `y` from `x0` to `x1`, both included;
    /// nothing where `x0 > x1`.
    pub fn draw_hline(&mut self, color: ColorRGB, x0: Coord, x1: Coord, y: Coord)
        requires
            old(self).wf(),
            old(self).hline_fits(x0 as int, x1 as int, y as int),
        ensures
            final(self).repainted(
                old(self),
                paint_hline(old(self)@, old(self).canvas_width(), color, x0 as int, x1 as int, y as int),
            ),
    {
        let ghost before = self@;
        let ghost w = self.canvas_width();
        if x0 > x1 {
            assert(self@ =~= paint_hline(before, w, color, x0 as int, x1 as int, y as int));
            return;
        }
        let mut x: Coord = x0;
        assert(self@ =~= paint_hline(before, w, color, x0 as int, x - 1, y as int));
        while x < x1
            invariant
                x0 <= x <= x1,
                self.holds_pixel(x0 as int, y as int),
                self.holds_pixel(x1 as int, y as int),
                self.repainted(old(self), paint_hline(before, w, color, x0 as int, x - 1, y as int)),
                w == self.canvas_width(),
                before.len() == self@.len(),
            decreases x1 - x,
        {
            self.put_pixel(color, x, y);
            proof {
                assert forall|i: int| 0 <= i < before.len() implies self@[i] == paint_hline(
                    before, w, color, x0 as int, x as int, y as int)[i] by {
                    cell_of_index(w, x as int, y as int, i);
                }
                assert(self@ =~= paint_hline(before, w, color, x0 as int, x as int, y as int));
            }
            x += 1;
        }
        self.put_pixel(color, x1, y);
        proof {
            assert forall|i: int| 0 <= i < before.len() implies self@[i] == paint_hline(
                before, w, color, x0 as int, x1 as int, y as int)[i] by {
                cell_of_index(w, x1 as int, y as int, i);
            }
            assert(self@ =~= paint_hline(before, w, color, x0 as int, x1 as int, y as int));
        }
    }

    /// Paints the pixels of column `x` from `y0` to `y1`, both included;
    /// nothing where `y0 > y1`.
    pub fn draw_vline(&mut self, color: ColorRGB, y0: Coord, y1: Coord, x: Coord)
        requires
            old(self).wf(),
            old(self).vline_fits(y0 as int, y1 as int, x as int),
        ensures
            final(self).repainted(
                old(self),
                paint_vline(old(self)@, old(self).canvas_width(), color, y0 as int, y1 as int, x as int),
            ),
    {
        let ghost before = self@;
        let ghost w = self.canvas_width();
        if y0 > y1 {
            assert(self@ =~= paint_vline(before, w, color, y0 as int, y1 as int, x as int));
            return;
        }
        let mut y: Coord = y0;
        assert(self@ =~= paint_vline(before, w, color, y0 as int, y - 1, x as int));
        while y < y1
            invariant
                y0 <= y <= y1,
                self.holds_pixel(x as int, y0 as int),
                self.holds_pixel(x as int, y1 as int),
                self.repainted(old(self), paint_vline(before, w, color, y0 as int, y - 1, x as int)),
                w == self.canvas_width(),
                before.len() == self@.len(),
            decreases y1 - y,
        {
            self.put_pixel(color, x, y);
            proof {
                assert forall|i: int| 0 <= i < before.len() implies self@[i] == paint_vline(
                    before, w, color, y0 as int, y as int, x as int)[i] by {
                    cell_of_index(w, x as int, y as int, i);
                }
                assert(self@ =~= paint_vline(before, w, color, y0 as int, y as int, x as int));
            }
            y += 1;
        }
        self.put_pixel(color, x, y1);
        proof {
            assert forall|i: int| 0 <= i < before.len() implies self@[i] == paint_vline(
                before, w, color, y0 as int, y1 as int, x as int)[i] by {
                cell_of_index(w, x as int, y1 as int, i);
            }
            assert(self@ =~= paint_vline(before, w, color, y0 as int, y1 as int, x as int));
        }
    }

    /// Paints each of the listed pixels.
    pub fn draw_pixels(&mut self, color: ColorRGB, coords: &Vec<(Coord, Coord)>)
        requires
            old(self).wf(),
            old(self).pixels_fit(coords@),
        ensures
            final(self).repainted(
                old(self),
                paint_pixels(old(self)@, old(self).canvas_width(), color, coords@),
            ),
    {
        let ghost before = self@;
        let ghost w = self.canvas_width();
        let mut k: usize = 0;
        assert(self@ =~= painted(before, w, color, |px: int, py: int| on_listed(coords@, 0, px, py)));
        while k < coords.len()
            invariant
                k <= coords.len(),
                self.pixels_fit(coords@),
                self.repainted(
                    old(self),
                    painted(before, w, color, |px: int, py: int| on_listed(coords@, k as int, px, py)),
                ),
                w == self.canvas_width(),
                before.len() == self@.len(),
            decreases coords.len() - k,
        {
            let (x, y) = coords[k];
            assert(self.holds_pixel(coords@[k as int].0 as int, coords@[k as int].1 as int));
            self.put_pixel(color, x, y);
            proof {
                let next = painted(before, w, color, |px: int, py: int| on_listed(coords@, k + 1, px, py));
                assert forall|i: int| 0 <= i < before.len() implies self@[i] == next[i] by {
                    cell_of_index(w, x as int, y as int, i);
                    let px = i % w;
                    let py = i / w;
                    if on_listed(coords@, k + 1, px, py) {
                        let j = choose|j: int| 0 <= j < k + 1 && j < coords@.len() && (#[trigger] coords@[j]).0 == px && coords@[j].1 == py;
                        if j < k {
                            assert(on_listed(coords@, k as int, px, py));
                        }
                    }
                    if on_listed(coords@, k as int, px, py) {
                        assert(on_listed(coords@, k + 1, px, py));
                    }
                    if i == y * w + x {
                        assert(coords@[k as int].0 == px && coords@[k as int].1 == py);
                        assert(on_listed(coords@, k + 1, px, py));
                    }
                }
                assert(self@ =~= next);
            }
            k += 1;
        }
    }

    /// Paints every pixel inside the rectangle, from its top and left edges
    /// up to, not including, its bottom and right edges.
    pub fn draw_filled_rect(&mut self, color: ColorRGB, rect: &Rect)
        requires
            old(self).wf(),
            old(self).fill_fits(*rect),
        ensures
            final(self).repainted(
                old(self),
                paint_filled(old(self)@, old(self).canvas_width(), color, *rect),
            ),
    {
        let ghost before = self@;
        let ghost w = self.canvas_width();
        if rect.left >= rect.right || rect.top >= rect.bottom {
            assert(self@ =~= paint_filled(before, w, color, *rect));
            return;
        }
        let mut y: Coord = rect.top;
        assert(self@ =~= paint_filled(before, w, color, Rect { bottom: y, ..*rect }));
        while y < rect.bottom
            invariant
                rect.top <= y <= rect.bottom,
                rect.left < rect.right,
                self.fill_fits(*rect),
                self.repainted(old(self), paint_filled(before, w, color, Rect { bottom: y, ..*rect })),
                w == self.canvas_width(),
                before.len() == self@.len(),
            decreases rect.bottom - y,
        {
            self.draw_hline(color, rect.left, rect.right - 1, y);
            assert(self@ =~= paint_filled(before, w, color, Rect { bottom: (y + 1) as Coord, ..*rect }));
            y += 1;
        }
    }

    /// Paints the four border lines of the rectangle, corners included.
    pub fn draw_hollow_rect(&mut self, color: ColorRGB, rect: &Rect)
        requires
            old(self).wf(),
            old(self).hollow_fits(*rect),
        ensures
            final(self).repainted(
                old(self),
                paint_hollow(old(self)@, old(self).canvas_width(), color, *rect),
            ),
    {
        let ghost before = self@;
        let ghost w = self.canvas_width();
        self.draw_hline(color, rect.left, rect.right, rect.top);
        self.draw_hline(color, rect.left, rect.right, rect.bottom);
        self.draw_vline(color, rect.top, rect.bottom, rect.left);
        self.draw_vline(color, rect.top, rect.bottom, rect.right);
        assert(self@ =~= paint_hollow(before, w, color, *rect));
    }
}

/// The pixel lies on one of the first `count` dots of a glyph whose upper
/// left corner is `(x, y)`. The dots are counted row by row, and each painted
/// dot is a square of two by two pixels.
pub open spec fn on_glyph_dots(glyph: Digit, x: int, y: int, count: int, px: int, py: int) -> bool {
    let row = (py - y) / 2;
    let col = (px - x) / 2;
    glyph.dot(row, col) && row * 8 + col < count
}

/// The pixel lies on a painted dot of the glyph whose upper left corner is `(x, y)`.
pub open spec fn on_glyph(glyph: Digit, x: int, y: int, px: int, py: int) -> bool {
    on_glyph_dots(glyph, x, y, 64, px, py)
}

/// The pixel lies on one of the `count` leading glyphs of a numeral centred
/// on `(x, y)`. `digits` holds the numeral's digits, the least significant
/// first; the most significant digit is painted leftmost, and each glyph is
/// sixteen pixels wide.
pub open spec fn on_leading_glyphs(digits: Seq<u8>, x: int, y: int, count: int, px: int, py: int) -> bool {
    let n = digits.len() as int;
    let left = x - 8 * n;
    let k = (px - left) / 16;
    &&& 0 <= k < count
    &&& k < n
    &&& on_glyph(Digit(glyph_mask(digits[n - 1 - k] as int)), left + 16 * k, y - 8, px, py)
}

/// The pixel lies on the numeral `num` centred on `(x, y)`.
pub open spec fn on_num(x: int, y: int, num: usize, px: int, py: int) -> bool {
    on_leading_glyphs(decimal_digits(num as nat), x, y, decimal_digits(num as nat).len() as int, px, py)
}

/// The middle between two coordinates, nearer to the first where the
/// distance is odd.
pub open spec fn midpoint(a: int, b: int) -> int {
    if a <= b {
        a + (b - a) / 2
    } else {
        a - (a - b) / 2
    }
}

/// The buffer after a glyph was painted with its upper left corner at `(x, y)`.
pub open spec fn paint_glyph(buffer: Seq<ColorRGB>, width: int, color: ColorRGB, glyph: Digit, x: int, y: int) -> Seq<ColorRGB> {
    painted(buffer, width, color, |px: int, py: int| on_glyph(glyph, x, y, px, py))
}

/// The buffer after the numeral `num` was painted centred on `(x, y)`.
pub open spec fn paint_num(buffer: Seq<ColorRGB>, width: int, color: ColorRGB, x: int, y: int, num: usize) -> Seq<ColorRGB> {
    painted(buffer, width, color, |px: int, py: int| on_num(x, y, num, px, py))
}

/// The buffer after a rectangle's border was painted and then its index in
/// its middle.
pub open spec fn paint_indexed(buffer: Seq<ColorRGB>, width: int, color: ColorRGB, rect: Rect, index: usize) -> Seq<ColorRGB> {
    paint_num(
        paint_hollow(buffer, width, color, rect),
        width,
        color,
        midpoint(rect.left as int, rect.right as int),
        midpoint(rect.top as int, rect.bottom as int),
        index,
    )
}

/// The colour of the data rectangle at `index`: one for those in `found`,
/// another for the rest.
pub open spec fn data_color(found: Set<usize>, index: usize) -> ColorRGB {
    if found.contains(index) {
        FOUND_COLOR
    } else {
        DATA_COLOR
    }
}

/// The buffer after the first `count` data rectangles were painted, each
/// with its index, in the order of the list.
pub open spec fn paint_rects(buffer: Seq<ColorRGB>, width: int, rects: Seq<Rect>, found: Set<usize>, count: int) -> Seq<ColorRGB>
    decreases count,
{
    if count <= 0 {
        buffer
    } else {
        paint_indexed(
            paint_rects(buffer, width, rects, found, count - 1),
            width,
            data_color(found, (count - 1) as usize),
            rects[count - 1],
            (count - 1) as usize,
        )
    }
}

/// The buffer after all the data rectangles and then the search rectangle,
/// if there is one, were painted.
pub open spec fn paint_scene(buffer: Seq<ColorRGB>, width: int, rects: Seq<Rect>, found: Set<usize>, search: Option<Rect>) -> Seq<ColorRGB> {
    let with_rects = paint_rects(buffer, width, rects, found, rects.len() as int);
    match search {
        Some(rect) => paint_hollow(with_rects, width, SEARCH_COLOR, rect),
        None => with_rects,
    }
}

/// The bytes of a buffer as an image of three bytes a pixel: red, green, blue.
pub open spec fn rgb_stream(buffer: Seq<ColorRGB>) -> Seq<u8> {
    Seq::new(
        3 * buffer.len(),
        |j: int|
            if j % 3 == 0 {
                buffer[j / 3].channels().0
            } else if j % 3 == 1 {
                buffer[j / 3].channels().1
            } else {
                buffer[j / 3].channels().2
            },
    )
}

/// Every pixel that the glyph paints with its upper left corner at `(x, y)`
/// lies inside a canvas of the given size.
pub open spec fn glyph_fits_in(width: int, height: int, glyph: Digit, x: int, y: int) -> bool {
    forall|px: int, py: int| #[trigger]
        on_glyph(glyph, x, y, px, py) ==> 0 <= px < width && 0 <= py < height
}

/// Every pixel that the numeral `num` paints when centred on `(x, y)` lies
/// inside a canvas of the given size, and the corners of the numeral's box
/// are coordinates.
pub open spec fn num_fits_in(width: int, height: int, x: int, y: int, num: usize) -> bool {
    let n = decimal_digits(num as nat).len() as int;
    &&& i64::MIN <= x - 8 * n && x + 8 * n <= i64::MAX
    &&& i64::MIN <= y - 8 && y + 8 <= i64::MAX
    &&& forall|px: int, py: int| #[trigger]
        on_num(x, y, num, px, py) ==> 0 <= px < width && 0 <= py < height
}

fn middle(a: Coord, b: Coord) -> (m: Coord)
    requires
        i64::MIN <= b - a <= i64::MAX,
    ensures
        m == midpoint(a as int, b as int),
{
    let distance: Coord = b - a;
    if distance >= 0 {
        a + distance / 2
    } else if distance == i64::MIN {
        a - 0x4000_0000_0000_0000
    } else {
        a - (-distance) / 2
    }
}

impl Painter {
    /// Every pixel that the glyph paints with its upper left corner at
    /// `(x, y)` lies inside the canvas.
    pub open spec fn glyph_fits(&self, glyph: Digit, x: int, y: int) -> bool {
        glyph_fits_in(self.canvas_width(), self.canvas_height(), glyph, x, y)
    }

    /// Every pixel that the numeral `num` paints when centred on `(x, y)`
    /// lies inside the canvas, and the corners of its box are coordinates.
    pub open spec fn num_fits(&self, x: int, y: int, num: usize) -> bool {
        num_fits_in(self.canvas_width(), self.canvas_height(), x, y, num)
    }

    /// The border of the rectangle lies inside the canvas, and so does its
    /// index painted in its middle; the width and the height of the
    /// rectangle are coordinates.
    pub open spec fn indexed_rect_fits(&self, rect: Rect, index: usize) -> bool {
        &&& self.hollow_fits(rect)
        &&& i64::MIN <= rect.right - rect.left <= i64::MAX
        &&& i64::MIN <= rect.bottom - rect.top <= i64::MAX
        &&& self.num_fits(
            midpoint(rect.left as int, rect.right as int),
            midpoint(rect.top as int, rect.bottom as int),
            index,
        )
    }

    /// Each of the rectangles fits with its position as its index.
    pub open spec fn rects_fit(&self, rects: Seq<Rect>) -> bool {
        forall|i: int| 0 <= i < rects.len() ==> self.indexed_rect_fits(#[trigger] rects[i], i as usize)
    }

    /// The sides of a canvas with more than one row and more than one column
    /// are coordinates.
    pub proof fn sides_are_coords(&self)
        requires
            self.wf(),
            2 <= self.canvas_width(),
            2 <= self.canvas_height(),
        ensures
            self.canvas_width() <= i64::MAX,
            self.canvas_height() <= i64::MAX,
    {
        assert(self.width * 2 <= self.width * self.height && 2 * self.height <= self.width
            * self.height) by (nonlinear_arith)
            requires
                2 <= self.height,
                2 <= self.width,
        ;
    }

    fn draw_digit(&mut self, color: ColorRGB, x: Coord, y: Coord, digit: u8)
        requires
            old(self).wf(),
            digit < 10,
            x + 16 <= i64::MAX,
            y + 16 <= i64::MAX,
            old(self).glyph_fits(Digit(glyph_mask(digit as int)), x as int, y as int),
        ensures
            final(self).repainted(
                old(self),
                paint_glyph(
                    old(self)@,
                    old(self).canvas_width(),
                    color,
                    Digit(glyph_mask(digit as int)),
                    x as int,
                    y as int,
                ),
            ),
    {
        let ghost before = self@;
        let ghost w = self.canvas_width();
        let ghost glyph = Digit(glyph_mask(digit as int));
        let mut row: Coord = 0;
        assert(self@ =~= painted(before, w, color, |px: int, py: int| on_glyph_dots(glyph, x as int, y as int, 0, px, py)));
        while row < DIGIT_ROWS
            invariant
                0 <= row <= 8,
                digit < 10,
                x + 16 <= i64::MAX,
                y + 16 <= i64::MAX,
                glyph == Digit(glyph_mask(digit as int)),
                self.glyph_fits(glyph, x as int, y as int),
                self.repainted(
                    old(self),
                    painted(before, w, color, |px: int, py: int| on_glyph_dots(glyph, x as int, y as int, row * 8, px, py)),
                ),
                w == self.canvas_width(),
            decreases 8 - row,
        {
            let mut col: Coord = 0;
            while col < DIGIT_COLS
                invariant
                    0 <= row < 8,
                    0 <= col <= 8,
                    digit < 10,
                    x + 16 <= i64::MAX,
                    y + 16 <= i64::MAX,
                    glyph == Digit(glyph_mask(digit as int)),
                    self.glyph_fits(glyph, x as int, y as int),
                    self.repainted(
                        old(self),
                        painted(before, w, color, |px: int, py: int| on_glyph_dots(glyph, x as int, y as int, row * 8 + col, px, py)),
                    ),
                    w == self.canvas_width(),
                decreases 8 - col,
            {
                assert(self.digits@[digit as int].0 == glyph.0);
                if self.digits[digit as usize].bit_at(row as usize, col as usize) {
                    proof {
                        assert(on_glyph(glyph, x as int, y as int, x + 2 * col, y + 2 * row));
                        assert(on_glyph(glyph, x as int, y as int, x + 2 * col + 1, y + 2 * row + 1));
                    }
                    let top = y + DIGIT_RECT_SIZE * row;
                    let bottom = top + DIGIT_RECT_SIZE;
                    let left = x + DIGIT_RECT_SIZE * col;
                    let right = left + DIGIT_RECT_SIZE;

                    self.draw_filled_rect(color, &Rect { top, bottom, left, right });
                }
                assert(self@ =~= painted(before, w, color, |px: int, py: int| on_glyph_dots(glyph, x as int, y as int, row * 8 + col + 1, px, py)));
                col += 1;
            }
            row += 1;
        }
        assert(self@ =~= paint_glyph(before, w, color, glyph, x as int, y as int));
    }

    /// Paints `num` in decimal, centred on `(x, y)`: one glyph for each
    /// digit, the most significant leftmost.
    pub fn draw_num(&mut self, color: ColorRGB, x: Coord, y: Coord, num: usize)
        requires
            old(self).wf(),
            old(self).num_fits(x as int, y as int, num),
        ensures
            final(self).repainted(
                old(self),
                paint_num(old(self)@, old(self).canvas_width(), color, x as int, y as int, num),
            ),
    {
        let ghost before = self@;
        let ghost w = self.canvas_width();
        let ghost centre = x as int;
        let ghost middle = y as int;
        let mut digits = num_to_digits(num);
        let ghost all = digits@;
        proof {
            decimal_digits_are_exact(num as nat);
            decimal_digits_are_few(num as nat);
        }
        let count = digits.len();
        let mut x: Coord = x - (DIGIT_WIDTH / 2) * (count as Coord);
        let ghost left = x as int;
        let y: Coord = y - DIGIT_WIDTH / 2;
        assert(self@ =~= painted(before, w, color, |px: int, py: int| on_leading_glyphs(all, centre, middle, 0, px, py)));

        while digits.len() > 0
            invariant
                all == decimal_digits(num as nat),
                all.len() <= 20,
                forall|k: int| 0 <= k < all.len() ==> #[trigger] all[k] < 10,
                digits@.len() <= all.len(),
                digits@ =~= all.take(digits@.len() as int),
                x == left + 16 * (all.len() - digits@.len()),
                centre == left + 8 * all.len(),
                middle == y + 8,
                centre + 8 * all.len() <= i64::MAX,
                middle + 8 <= i64::MAX,
                self.num_fits(centre, middle, num),
                self.repainted(
                    old(self),
                    painted(before, w, color, |px: int, py: int| on_leading_glyphs(all, centre, middle, all.len() - digits@.len(), px, py)),
                ),
                w == self.canvas_width(),
            decreases digits.len(),
        {
            let ghost drawn = all.len() - digits@.len();
            let digit = digits.pop().unwrap();
            assert(digit == all[all.len() - 1 - drawn]);
            proof {
                let glyph = Digit(glyph_mask(digit as int));
                assert forall|px: int, py: int| #[trigger]
                    on_glyph(glyph, x as int, y as int, px, py) implies 0 <= px < self.canvas_width()
                    && 0 <= py < self.canvas_height() by {
                    assert((px - left) / 16 == drawn);
                    assert(on_num(centre, middle, num, px, py));
                }
            }
            self.draw_digit(color, x, y, digit);
            assert(self@ =~= painted(before, w, color, |px: int, py: int| on_leading_glyphs(all, centre, middle, drawn + 1, px, py)));
            x += DIGIT_WIDTH;
        }
        assert(self@ =~= paint_num(before, w, color, centre, middle, num));
    }

    /// Paints the border of a data rectangle and its index in its middle.
    pub fn draw_indexed_rect(&mut self, rect: &Rect, color: ColorRGB, index: usize)
        requires
            old(self).wf(),
            old(self).indexed_rect_fits(*rect, index),
        ensures
            final(self).repainted(
                old(self),
                paint_indexed(old(self)@, old(self).canvas_width(), color, *rect, index),
            ),
    {
        let index_x = middle(rect.left, rect.right);
        let index_y = middle(rect.top, rect.bottom);

        self.draw_hollow_rect(color, rect);
        self.draw_num(color, index_x, index_y, index);
    }

    /// Paints a stored scene: each data rectangle in the colour that says
    /// whether it is listed as found, then the search rectangle.
    pub fn draw_test_case(&mut self, case: &TestCase)
        requires
            old(self).wf(),
            old(self).rects_fit(case.data_rects@),
            old(self).hollow_fits(case.search_rect),
        ensures
            final(self).repainted(
                old(self),
                paint_scene(
                    old(self)@,
                    old(self).canvas_width(),
                    case.data_rects@,
                    case.founded@,
                    Some(case.search_rect),
                ),
            ),
    {
        let ghost before = self@;
        let ghost w = self.canvas_width();
        let mut i: usize = 0;
        while i < case.data_rects.len()
            invariant
                i <= case.data_rects.len(),
                self.rects_fit(case.data_rects@),
                self.hollow_fits(case.search_rect),
                self.repainted(old(self), paint_rects(before, w, case.data_rects@, case.founded@, i as int)),
                w == self.canvas_width(),
            decreases case.data_rects.len() - i,
        {
            let color;

            if case.founded.contains(&i) {
                color = FOUND_COLOR;
            } else {
                color = DATA_COLOR;
            }

            self.draw_indexed_rect(&case.data_rects[i], color, i);
            i += 1;
        }

        self.draw_hollow_rect(SEARCH_COLOR, &case.search_rect);
    }

    /// The frame buffer as the bytes of an image: red, green and blue for
    /// each pixel, row after row.
    pub fn rgb_bytes(&self) -> (bytes: Vec<u8>)
        ensures
            bytes@ == rgb_stream(self@),
    {
        let mut bytes: Vec<u8> = Vec::new();
        let mut i: usize = 0;
        while i < self.frame_buffer.len()
            invariant
                i <= self.frame_buffer.len(),
                bytes@ =~= rgb_stream(self@.take(i as int)),
            decreases self.frame_buffer.len() - i,
        {
            let (r, g, b) = self.frame_buffer[i].unpack_rgb();
            bytes.push(r);
            bytes.push(g);
            bytes.push(b);
            i += 1;
        }
        assert(self@.take(self.frame_buffer.len() as int) =~= self@);
        bytes
    }

    /// Whether the pixel lies inside the canvas.
    pub fn contains_pixel(&self, x: Coord, y: Coord) -> (inside: bool)
        ensures
            inside == self.holds_pixel(x as int, y as int),
    {
        x >= 0 && y >= 0 && (x as u64) < (self.width as u64) && (y as u64) < (self.height as u64)
    }

    /// Whether `draw_hline` can paint this run.
    pub fn can_draw_hline(&self, x0: Coord, x1: Coord, y: Coord) -> (fits: bool)
        ensures
            fits == self.hline_fits(x0 as int, x1 as int, y as int),
    {
        x0 > x1 || (self.contains_pixel(x0, y) && self.contains_pixel(x1, y))
    }

    /// Whether `draw_vline` can paint this run.
    pub fn can_draw_vline(&self, y0: Coord, y1: Coord, x: Coord) -> (fits: bool)
        ensures
            fits == self.vline_fits(y0 as int, y1 as int, x as int),
    {
        y0 > y1 || (self.contains_pixel(x, y0) && self.contains_pixel(x, y1))
    }

    /// Whether `draw_hollow_rect` can paint this rectangle.
    pub fn can_draw_hollow_rect(&self, rect: &Rect) -> (fits: bool)
        ensures
            fits == self.hollow_fits(*rect),
    {
        self.can_draw_hline(rect.left, rect.right, rect.top)
            && self.can_draw_hline(rect.left, rect.right, rect.bottom)
            && self.can_draw_vline(rect.top, rect.bottom, rect.left)
            && self.can_draw_vline(rect.top, rect.bottom, rect.right)
    }

    /// Whether `draw_filled_rect` can paint this rectangle.
    pub fn can_draw_filled_rect(&self, rect: &Rect) -> (fits: bool)
        ensures
            fits == self.fill_fits(*rect),
    {
        if rect.left < rect.right && rect.top < rect.bottom {
            rect.left >= 0 && rect.top >= 0 && (rect.right as u64) <= (self.width as u64)
                && (rect.bottom as u64) <= (self.height as u64)
        } else {
            true
        }
    }

    /// Whether every pixel that the glyph of `digit` paints with its upper
    /// left corner at `(x, y)` lies inside the canvas.
    fn can_draw_digit(&self, x: Coord, y: Coord, digit: u8) -> (fits: bool)
        requires
            self.wf(),
            digit < 10,
            x + 16 <= i64::MAX,
            y + 16 <= i64::MAX,
        ensures
            fits == self.glyph_fits(Digit(glyph_mask(digit as int)), x as int, y as int),
    {
        let ghost glyph = Digit(glyph_mask(digit as int));
        let mut row: Coord = 0;
        while row < DIGIT_ROWS
            invariant
                0 <= row <= 8,
                digit < 10,
                self.wf(),
                x + 16 <= i64::MAX,
                y + 16 <= i64::MAX,
                glyph == Digit(glyph_mask(digit as int)),
                forall|px: int, py: int| #[trigger]
                    on_glyph_dots(glyph, x as int, y as int, row * 8, px, py) ==> self.holds_pixel(px, py),
            decreases 8 - row,
        {
            let mut col: Coord = 0;
            while col < DIGIT_COLS
                invariant
                    0 <= row < 8,
                    0 <= col <= 8,
                    digit < 10,
                    self.wf(),
                    x + 16 <= i64::MAX,
                    y + 16 <= i64::MAX,
                    glyph == Digit(glyph_mask(digit as int)),
                    forall|px: int, py: int| #[trigger]
                        on_glyph_dots(glyph, x as int, y as int, row * 8 + col, px, py) ==> self.holds_pixel(px, py),
                decreases 8 - col,
            {
                assert(self.digits@[digit as int].0 == glyph.0);
                if self.digits[digit as usize].bit_at(row as usize, col as usize) {
                    let left = x + DIGIT_RECT_SIZE * col;
                    let top = y + DIGIT_RECT_SIZE * row;
                    if !self.contains_pixel(left, top) || !self.contains_pixel(left + 1, top + 1) {
                        proof {
                            assert(on_glyph(glyph, x as int, y as int, left as int, top as int));
                            assert(on_glyph(glyph, x as int, y as int, left + 1, top + 1));
                        }
                        return false;
                    }
                }
                assert forall|px: int, py: int| #[trigger]
                    on_glyph_dots(glyph, x as int, y as int, row * 8 + (col + 1), px, py) implies self.holds_pixel(
                    px,
                    py,
                ) by {
                    if (py - y) / 2 == row && (px - x) / 2 == col {
                        assert(x + 2 * col <= px <= x + 2 * col + 1);
                        assert(y + 2 * row <= py <= y + 2 * row + 1);
                    } else {
                        assert(on_glyph_dots(glyph, x as int, y as int, row * 8 + col, px, py));
                    }
                }
                col += 1;
            }
            assert forall|px: int, py: int| #[trigger]
                on_glyph_dots(glyph, x as int, y as int, (row + 1) * 8, px, py) implies self.holds_pixel(px, py) by {
                assert(on_glyph_dots(glyph, x as int, y as int, row * 8 + col, px, py));
            }
            row += 1;
        }
        assert forall|px: int, py: int| #[trigger]
            on_glyph(glyph, x as int, y as int, px, py) implies self.holds_pixel(px, py) by {
            assert(on_glyph_dots(glyph, x as int, y as int, row * 8, px, py));
        }
        true
    }

    /// Whether `draw_num` can paint this numeral.
    pub fn can_draw_num(&self, x: Coord, y: Coord, num: usize) -> (fits: bool)
        requires
            self.wf(),
        ensures
            fits == self.num_fits(x as int, y as int, num),
    {
        proof {
            decimal_digits_are_few(num as nat);
            decimal_digits_are_exact(num as nat);
        }
        let digits = num_to_digits(num);
        let count = digits.len();
        let half: Coord = (DIGIT_WIDTH / 2) * (count as Coord);
        let rise: Coord = DIGIT_WIDTH / 2;
        if x < i64::MIN + half || x > i64::MAX - half || y < i64::MIN + rise || y > i64::MAX - rise {
            return false;
        }
        let left: Coord = x - half;
        let top: Coord = y - rise;
        let mut k: usize = 0;
        while k < count
            invariant
                k <= count,
                count == digits@.len(),
                digits@ == decimal_digits(num as nat),
                forall|j: int| 0 <= j < digits@.len() ==> #[trigger] digits@[j] < 10,
                count <= 20,
                self.wf(),
                left == x - 8 * count,
                top == y - 8,
                x + 8 * count <= i64::MAX,
                y + 8 <= i64::MAX,
                forall|px: int, py: int| #[trigger]
                    on_leading_glyphs(digits@, x as int, y as int, k as int, px, py) ==> self.holds_pixel(px, py),
            decreases count - k,
        {
            let digit = digits[count - 1 - k];
            let corner: Coord = left + DIGIT_WIDTH * (k as Coord);
            if !self.can_draw_digit(corner, top, digit) {
                proof {
                    let glyph = Digit(glyph_mask(digit as int));
                    if self.num_fits(x as int, y as int, num) {
                        assert forall|px: int, py: int| #[trigger]
                            on_glyph(glyph, corner as int, top as int, px, py) implies 0 <= px
                            < self.canvas_width() && 0 <= py < self.canvas_height() by {
                            assert((px - left) / 16 == k);
                            assert(on_num(x as int, y as int, num, px, py));
                        }
                        assert(self.glyph_fits(glyph, corner as int, top as int));
                    }
                }
                return false;
            }
            assert forall|px: int, py: int|
                on_leading_glyphs(digits@, x as int, y as int, k + 1, px, py) implies self.holds_pixel(px, py) by {
                if (px - left) / 16 == k {
                    assert(on_glyph(Digit(glyph_mask(digit as int)), corner as int, top as int, px, py));
                } else {
                    assert(on_leading_glyphs(digits@, x as int, y as int, k as int, px, py));
                }
            }
            k += 1;
        }
        true
    }

    /// Whether `draw_indexed_rect` can paint this rectangle with this index.
    pub fn can_draw_indexed_rect(&self, rect: &Rect, index: usize) -> (fits: bool)
        requires
            self.wf(),
        ensures
            fits == self.indexed_rect_fits(*rect, index),
    {
        self.can_draw_hollow_rect(rect) && rect.right.checked_sub(rect.left).is_some()
            && rect.bottom.checked_sub(rect.top).is_some()
            && self.can_draw_num(middle(rect.left, rect.right), middle(rect.top, rect.bottom), index)
    }

    /// Whether each of the rectangles can be painted with its position as
    /// its index.
    pub fn can_draw_rects(&self, rects: &Vec<Rect>) -> (fits: bool)
        requires
            self.wf(),
        ensures
            fits == self.rects_fit(rects@),
    {
        let mut i: usize = 0;
        while i < rects.len()
            invariant
                self.wf(),
                i <= rects.len(),
                forall|k: int| 0 <= k < i ==> self.indexed_rect_fits(#[trigger] rects@[k], k as usize),
            decreases rects.len() - i,
        {
            if !self.can_draw_indexed_rect(&rects[i], i) {
                return false;
            }
            i += 1;
        }
        true
    }
}

} // verus!
