use crate::color::Color;
use vstd::arithmetic::div_mod::lemma_multiply_divide_lt;
use vstd::arithmetic::mul::{lemma_mul_strict_inequality, lemma_mul_upper_bound};
use vstd::prelude::*;

verus! {

/// Holds the image crate's RGB pixel buffer. Verus sees the store as one
/// opaque value; its contents are reached only through the named functions
/// below. The field is public so that unverified code can encode and save
/// the finished buffer.
#[verifier::external_body]
pub struct PixelStore {
    pub img: image::RgbImage,
}

/// The width and height that the held buffer was created with.
pub uninterp spec fn img_dims(s: PixelStore) -> (u32, u32);

/// What the held buffer holds: the channels of the pixel at each coordinate
/// pair inside the buffer's bounds.
pub uninterp spec fn img_pixels(s: PixelStore) -> Map<(int, int), (u8, u8, u8)>;

/// The map holding `c` at every coordinate pair of a `w` by `h` rectangle.
pub open spec fn full_rect_map(w: int, h: int, c: (u8, u8, u8)) -> Map<(int, int), (u8, u8, u8)> {
    Map::new(|q: (int, int)| 0 <= q.0 < w && 0 <= q.1 < h, |q: (int, int)| c)
}

/// Relies on `image::ImageBuffer::new`: the buffer has the given
/// dimensions and every pixel of it is zero. The size bound keeps the call
/// from its documented panic on a buffer length that overflows `usize`.
#[verifier::external_body]
fn image_new(width: u32, height: u32) -> (r: PixelStore)
    requires
        3 * (width as int) * (height as int) <= usize::MAX as int,
    ensures
        img_dims(r) == (width, height),
        img_pixels(r) == full_rect_map(width as int, height as int, (0u8, 0u8, 0u8)),
{
    PixelStore { img: image::RgbImage::new(width, height) }
}

/// Relies on `imageproc::drawing::draw_filled_rect_mut` over a rectangle
/// covering the whole canvas: every pixel in bounds is overwritten with the
/// color, and the dimensions stay. The dimension bounds keep the rectangle
/// constructor and the intersection arithmetic from their panics.
#[verifier::external_body]
fn image_fill(img: &mut PixelStore, width: u32, height: u32, c: Color)
    requires
        img_dims(*old(img)) == (width, height),
        1 <= width <= 0x7fff_ffff,
        1 <= height <= 0x7fff_ffff,
    ensures
        img_dims(*final(img)) == (width, height),
        img_pixels(*final(img)) == full_rect_map(width as int, height as int, (c.r, c.g, c.b)),
{
    imageproc::drawing::draw_filled_rect_mut(
        &mut img.img,
        imageproc::rect::Rect::at(0, 0).of_size(width, height),
        image::Rgb([c.r, c.g, c.b]),
    )
}

/// Relies on `image::ImageBuffer::put_pixel`: the pixel at `(x, y)` is
/// overwritten with the color and every other pixel stays. The bounds keep
/// the call from its documented out-of-bounds panic.
#[verifier::external_body]
fn image_put(img: &mut PixelStore, x: u32, y: u32, c: Color)
    requires
        x < img_dims(*old(img)).0,
        y < img_dims(*old(img)).1,
    ensures
        img_dims(*final(img)) == img_dims(*old(img)),
        img_pixels(*final(img)) == img_pixels(*old(img)).insert(
            (x as int, y as int),
            (c.r, c.g, c.b),
        ),
{
    img.img.put_pixel(x, y, image::Rgb([c.r, c.g, c.b]))
}

/// Relies on `image::ImageBuffer::get_pixel`: the returned channels are the
/// ones held at `(x, y)`. The bounds keep the call from its documented
/// out-of-bounds panic.
#[verifier::external_body]
fn image_get(img: &PixelStore, x: u32, y: u32) -> (r: Color)
    requires
        x < img_dims(*img).0,
        y < img_dims(*img).1,
    ensures
        r.channels() == img_pixels(*img)[(x as int, y as int)],
{
    let p = img.img.get_pixel(x, y);
    Color { r: p.0[0], g: p.0[1], b: p.0[2] }
}

/// Fixed-point scale for normalized coordinates: an `i64` value `v` stands
/// for the coordinate `v / SCALE`, with the drawable range `[-1, 1)`
/// running from `-SCALE` to `SCALE`.
pub const SCALE: i64 = 1_000_000;

/// Twice the coordinate scale: the width of the drawable range.
pub const TWO_SCALE: u64 = 2_000_000;

/// The largest canvas dimension accepted, the greatest signed 32-bit value:
/// beyond it the background fill's rectangle arithmetic would overflow.
pub const MAX_DIM: u32 = 0x7fff_ffff;

/// True when a scaled normalized coordinate pair falls inside the drawable
/// square: each axis at least `-1` and strictly below `1`.
pub open spec fn dot_in_range(x: int, y: int) -> bool {
    -(SCALE as int) <= x < SCALE as int && -(SCALE as int) <= y < SCALE as int
}

/// The pixel index that a scaled normalized coordinate maps to on an axis
/// of `d` pixels: `(v + 1) / 2 * d`, rounded down.
pub open spec fn pixel_index_spec(v: int, d: int) -> int {
    (v + SCALE as int) * d / (TWO_SCALE as int)
}

/// What one dot write leaves on the canvas: the pixel at the mapped
/// coordinates overwritten when the dot falls in the drawable square, the
/// canvas unchanged when it falls outside.
pub open spec fn write_dot_spec(
    px: Map<(int, int), (u8, u8, u8)>,
    w: int,
    h: int,
    x: int,
    y: int,
    c: (u8, u8, u8),
) -> Map<(int, int), (u8, u8, u8)> {
    if dot_in_range(x, y) {
        px.insert((pixel_index_spec(x, w), pixel_index_spec(y, h)), c)
    } else {
        px
    }
}

/// What a sequence of dot writes leaves on the canvas, first dot first:
/// later writes at the same pixel overwrite earlier ones.
pub open spec fn render_spec(
    px: Map<(int, int), (u8, u8, u8)>,
    w: int,
    h: int,
    dots: Seq<(i64, i64, Color)>,
) -> Map<(int, int), (u8, u8, u8)>
    decreases dots.len(),
{
    if dots.len() == 0 {
        px
    } else {
        render_spec(
            write_dot_spec(px, w, h, dots[0].0 as int, dots[0].1 as int, dots[0].2.channels()),
            w,
            h,
            dots.drop_first(),
        )
    }
}

/// Rendering is a function of the starting pixels and the dot sequence
/// alone: two canvases that start equal and take the same dots end equal.
pub proof fn lemma_render_deterministic(
    px1: Map<(int, int), (u8, u8, u8)>,
    px2: Map<(int, int), (u8, u8, u8)>,
    w: int,
    h: int,
    dots: Seq<(i64, i64, Color)>,
)
    requires
        px1 == px2,
    ensures
        render_spec(px1, w, h, dots) == render_spec(px2, w, h, dots),
{
}

/// A dot strictly beyond the drawable square - either coordinate below
/// minus one, or at one or beyond - leaves the canvas exactly as it was.
pub proof fn lemma_out_of_range_dot_is_noop(
    px: Map<(int, int), (u8, u8, u8)>,
    w: int,
    h: int,
    x: int,
    y: int,
    c: (u8, u8, u8),
)
    requires
        x < -(SCALE as int) || x >= SCALE as int || y < -(SCALE as int) || y >= SCALE as int,
    ensures
        write_dot_spec(px, w, h, x, y, c) == px,
{
}

/// A dot at the center of the drawable square sets the pixel at half the
/// width and half the height, rounded down, on any canvas of at least two
/// pixels a side.
pub proof fn lemma_center_dot_sets_half_dimensions(
    px: Map<(int, int), (u8, u8, u8)>,
    w: int,
    h: int,
    c: (u8, u8, u8),
)
    requires
        2 <= w,
        2 <= h,
    ensures
        write_dot_spec(px, w, h, 0, 0, c) == px.insert((w / 2, h / 2), c),
{
    lemma_center_pixel(w);
    lemma_center_pixel(h);
}

/// A pixel canvas for the dot wallpaper: a fixed-size RGB buffer that takes
/// normalized coordinates and drops the dots that fall outside its drawable
/// square.
pub struct RandomDotsWallpaper {
    width: u32,
    height: u32,
    image: PixelStore,
}

impl RandomDotsWallpaper {
    /// The held dimensions match the buffer and fit the fill's bounds.
    pub closed spec fn wf(&self) -> bool {
        img_dims(self.image) == (self.width, self.height) && 1 <= self.width <= MAX_DIM && 1
            <= self.height <= MAX_DIM
    }

    /// The canvas width in pixels.
    pub closed spec fn width_spec(&self) -> int {
        self.width as int
    }

    /// The canvas height in pixels.
    pub closed spec fn height_spec(&self) -> int {
        self.height as int
    }

    /// The pixels of the canvas.
    pub closed spec fn pixels(&self) -> Map<(int, int), (u8, u8, u8)> {
        img_pixels(self.image)
    }

    /// Builds a canvas of the given resolution with every pixel set to the
    /// background color.
    pub fn new(resolution: (u32, u32), background: Color) -> (r: Self)
        requires
            1 <= resolution.0 <= MAX_DIM,
            1 <= resolution.1 <= MAX_DIM,
            3 * (resolution.0 as int) * (resolution.1 as int) <= usize::MAX as int,
        ensures
            r.wf(),
            r.width_spec() == resolution.0,
            r.height_spec() == resolution.1,
            r.pixels() == full_rect_map(
                resolution.0 as int,
                resolution.1 as int,
                background.channels(),
            ),
    {
        let (width, height) = resolution;
        let mut image = image_new(width, height);
        image_fill(&mut image, width, height, background);
        RandomDotsWallpaper { width, height, image }
    }

    /// The canvas width in pixels.
    pub fn width(&self) -> (r: u32)
        ensures
            r == self.width_spec(),
    {
        self.width
    }

    /// The canvas height in pixels.
    pub fn height(&self) -> (r: u32)
        ensures
            r == self.height_spec(),
    {
        self.height
    }

    /// Writes one dot: maps each scaled normalized coordinate to a pixel
    /// index by `(v + 1) / 2 * dimension`, rounded down, and overwrites
    /// that pixel when both indices are in bounds; a dot outside the
    /// drawable square is silently dropped.
    pub fn add_dot(&mut self, dot: (i64, i64), color: Color)
        requires
            old(self).wf(),
        ensures
            final(self).wf(),
            final(self).width_spec() == old(self).width_spec(),
            final(self).height_spec() == old(self).height_spec(),
            final(self).pixels() == write_dot_spec(
                old(self).pixels(),
                old(self).width_spec(),
                old(self).height_spec(),
                dot.0 as int,
                dot.1 as int,
                color.channels(),
            ),
    {
        let (x, y) = dot;
        if -SCALE <= x && x < SCALE && -SCALE <= y && y < SCALE {
            let nx: u64 = (x + SCALE) as u64;
            let ny: u64 = (y + SCALE) as u64;
            proof {
                lemma_mul_upper_bound(nx as int, TWO_SCALE - 1, self.width as int, MAX_DIM as int);
                lemma_mul_strict_inequality(nx as int, TWO_SCALE as int, self.width as int);
                lemma_multiply_divide_lt(
                    (nx as int) * (self.width as int),
                    TWO_SCALE as int,
                    self.width as int,
                );
                lemma_mul_upper_bound(ny as int, TWO_SCALE - 1, self.height as int, MAX_DIM as int);
                lemma_mul_strict_inequality(ny as int, TWO_SCALE as int, self.height as int);
                lemma_multiply_divide_lt(
                    (ny as int) * (self.height as int),
                    TWO_SCALE as int,
                    self.height as int,
                );
            }
            let px: u64 = nx * (self.width as u64) / TWO_SCALE;
            let py: u64 = ny * (self.height as u64) / TWO_SCALE;
            image_put(&mut self.image, px as u32, py as u32, color);
        }
    }

    /// Writes a sequence of dots in order, first dot first.
    pub fn add_dots(&mut self, dots: &Vec<(i64, i64, Color)>)
        requires
            old(self).wf(),
        ensures
            final(self).wf(),
            final(self).width_spec() == old(self).width_spec(),
            final(self).height_spec() == old(self).height_spec(),
            final(self).pixels() == render_spec(
                old(self).pixels(),
                old(self).width_spec(),
                old(self).height_spec(),
                dots@,
            ),
    {
        let ghost start = self.pixels();
        let ghost w = self.width_spec();
        let ghost h = self.height_spec();
        let mut i: usize = 0;
        proof {
            assert(dots@.skip(0) =~= dots@);
        }
        while i < dots.len()
            invariant
                i <= dots.len(),
                self.wf(),
                self.width_spec() == w,
                self.height_spec() == h,
                render_spec(start, w, h, dots@) == render_spec(
                    self.pixels(),
                    w,
                    h,
                    dots@.skip(i as int),
                ),
            decreases dots.len() - i,
        {
            let d = dots[i];
            proof {
                assert(dots@.skip(i as int)[0] == dots@[i as int]);
                assert(dots@.skip(i as int).drop_first() =~= dots@.skip(i as int + 1));
            }
            self.add_dot((d.0, d.1), d.2);
            i = i + 1;
        }
        proof {
            assert(dots@.skip(dots@.len() as int) =~= Seq::<(i64, i64, Color)>::empty());
        }
    }

    /// Reads the pixel at the given indices.
    pub fn pixel_at(&self, x: u32, y: u32) -> (r: Color)
        requires
            self.wf(),
            x < self.width_spec(),
            y < self.height_spec(),
        ensures
            r.channels() == self.pixels()[(x as int, y as int)],
    {
        image_get(&self.image, x, y)
    }

    /// Hands the finished buffer's store out, for encoding and saving
    /// outside the library.
    pub fn into_store(self) -> (r: PixelStore)
        requires
            self.wf(),
        ensures
            img_dims(r).0 == self.width_spec(),
            img_dims(r).1 == self.height_spec(),
            img_pixels(r) == self.pixels(),
    {
        self.image
    }
}

/// Writing a dot at the center of the drawable square lands on the pixel at
/// half the dimension: the index mapped from coordinate zero is `d / 2`.
pub proof fn lemma_center_pixel(d: int)
    requires
        0 <= d,
    ensures
        pixel_index_spec(0, d) == d / 2,
{
    vstd::arithmetic::div_mod::lemma_div_multiples_vanish_quotient(SCALE as int, d, 2);
}

} // verus!
