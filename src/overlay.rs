use vstd::prelude::*;

use crate::raster::{rgb_len, Raster};

verus! {

/// A rectangle in whole pixels: its top-left corner and its extent.
#[derive(Clone, Copy, Debug, PartialEq, Eq, Structural)]
pub struct PixelRect {
    pub left: i32,
    pub top: i32,
    pub width: u32,
    pub height: u32,
}

/// Coordinates up to this far from the origin survive the line drawer's
/// single-precision arithmetic exactly; no farther ones can all be met.
pub const DRAW_LIMIT: i32 = 16777216;

/// Outline colour, RGB.
pub const LINE_RED: u8 = 0;
pub const LINE_GREEN: u8 = 255;
pub const LINE_BLUE: u8 = 0;

/// A rectangle is drawn if it covers at least one pixel. An empty one (from a
/// box with `x2 <= x1` or `y2 <= y1`) draws nothing.
pub open spec fn drawable(r: PixelRect) -> bool {
    r.width > 0 && r.height > 0
}

/// Greatest column reached by `r`.
pub open spec fn right_of(r: PixelRect) -> int {
    r.left + r.width - 1
}

/// Greatest row reached by `r`.
pub open spec fn bottom_of(r: PixelRect) -> int {
    r.top + r.height - 1
}

/// All four edges of `r` lie where the line drawer's arithmetic is exact.
pub open spec fn in_exact_range(r: PixelRect) -> bool {
    &&& -DRAW_LIMIT <= r.left
    &&& right_of(r) <= DRAW_LIMIT
    &&& -DRAW_LIMIT <= r.top
    &&& bottom_of(r) <= DRAW_LIMIT
}

/// An image with these sides can be drawn on exactly: every pixel, and the
/// one-pixel margin round them, lies within `DRAW_LIMIT`.
pub open spec fn canvas_fits(width: u32, height: u32) -> bool {
    width <= DRAW_LIMIT as int && height <= DRAW_LIMIT as int
}

/// Pixel `(x, y)` lies on the one-pixel border of `r`.
pub open spec fn on_outline(r: PixelRect, x: int, y: int) -> bool {
    ||| (y == r.top || y == bottom_of(r)) && r.left <= x <= right_of(r)
    ||| (x == r.left || x == right_of(r)) && r.top <= y <= bottom_of(r)
}

/// `a` and `b` have the same border pixels on a `width` by `height` canvas.
pub open spec fn same_outline_on(width: u32, height: u32, a: PixelRect, b: PixelRect) -> bool {
    forall|x: int, y: int|
        #![trigger on_outline(a, x, y)]
        #![trigger on_outline(b, x, y)]
        0 <= x < width && 0 <= y < height ==> on_outline(a, x, y) == on_outline(b, x, y)
}

/// No border pixel of `r` lies on a `width` by `height` canvas.
pub open spec fn outline_off_canvas(width: u32, height: u32, r: PixelRect) -> bool {
    forall|x: int, y: int|
        0 <= x < width && 0 <= y < height ==> !#[trigger] on_outline(r, x, y)
}

/// Sample `k` (0 red, 1 green, 2 blue) of an RGB colour.
pub open spec fn channel(colour: (u8, u8, u8), k: int) -> u8 {
    if k == 0 {
        colour.0
    } else if k == 1 {
        colour.1
    } else {
        colour.2
    }
}

/// An RGB sample buffer, rows of `width` pixels, with the border of `r` set
/// to `colour`; every other sample is kept.
pub open spec fn outlined(width: u32, pixels: Seq<u8>, r: PixelRect, colour: (u8, u8, u8)) -> Seq<
    u8,
> {
    Seq::new(
        pixels.len(),
        |i: int|
            if on_outline(r, (i / 3) % (width as int), (i / 3) / (width as int)) {
                channel(colour, i % 3)
            } else {
                pixels[i]
            },
    )
}

/// The samples after outlining each drawable rectangle of `rects` in turn,
/// in the outline colour, later rectangles over earlier ones.
pub open spec fn overlaid(width: u32, pixels: Seq<u8>, rects: Seq<PixelRect>) -> Seq<u8>
    decreases rects.len(),
{
    if rects.len() == 0 {
        pixels
    } else {
        let before = overlaid(width, pixels, rects.drop_last());
        let r = rects.last();
        if drawable(r) {
            outlined(width, before, r, (LINE_RED, LINE_GREEN, LINE_BLUE))
        } else {
            before
        }
    }
}

/// Relies on imageproc::drawing::draw_hollow_rect_mut, on an RGB image buffer
/// of the image crate: it colours exactly the in-bounds pixels of the
/// rectangle's border (four Bresenham segments, axis-aligned here, whose
/// float endpoints are exact within `DRAW_LIMIT`) and leaves the rest.
/// `Rect::of_size` asserts a positive size; the bounds test casts the image's
/// sides to `i32`.
#[verifier::external_body]
fn draw_outline(
    width: u32,
    height: u32,
    pixels: &mut Vec<u8>,
    rect: PixelRect,
    colour: (u8, u8, u8),
)
    requires
        old(pixels)@.len() == rgb_len(width, height),
        width <= i32::MAX,
        height <= i32::MAX,
        drawable(rect),
        in_exact_range(rect),
    ensures
        final(pixels)@ == outlined(width, old(pixels)@, rect, colour),
{
    let samples = std::mem::take(pixels);
    let mut canvas: image::RgbImage = image::ImageBuffer::from_raw(width, height, samples).expect(
        "buffer holds one RGB triple per pixel",
    );
    let r = imageproc::rect::Rect::at(rect.left, rect.top).of_size(rect.width, rect.height);
    imageproc::drawing::draw_hollow_rect_mut(&mut canvas, r, image::Rgb([colour.0, colour.1, colour.2]));
    *pixels = canvas.into_raw();
}

/// Whether `r` is drawn (see `drawable`).
pub fn is_drawable(r: PixelRect) -> (b: bool)
    ensures
        b == drawable(r),
{
    r.width > 0 && r.height > 0
}

/// Cuts a drawable rectangle down to the canvas and a one-pixel margin round
/// it, which keeps every border pixel that lies on the canvas. `None` where
/// no border pixel does.
pub fn clip_to_canvas(r: PixelRect, width: u32, height: u32) -> (c: Option<PixelRect>)
    requires
        drawable(r),
        canvas_fits(width, height),
    ensures
        match c {
            Some(c) => drawable(c) && in_exact_range(c) && same_outline_on(width, height, r, c),
            None => outline_off_canvas(width, height, r),
        },
{
    let right: i64 = r.left as i64 + r.width as i64 - 1;
    let bottom: i64 = r.top as i64 + r.height as i64 - 1;
    let l: i64 = if (r.left as i64) < -1 { -1 } else { r.left as i64 };
    let t: i64 = if (r.top as i64) < -1 { -1 } else { r.top as i64 };
    let rr: i64 = if right > width as i64 { width as i64 } else { right };
    let bb: i64 = if bottom > height as i64 { height as i64 } else { bottom };
    if l > rr || t > bb {
        return None;
    }
    let c = PixelRect {
        left: l as i32,
        top: t as i32,
        width: (rr - l + 1) as u32,
        height: (bb - t + 1) as u32,
    };
    assert(right_of(c) == rr && bottom_of(c) == bb);
    Some(c)
}

/// Pixel `i / 3` of a `width` by `height` sample buffer lies on the canvas.
proof fn sample_on_canvas(width: u32, height: u32, i: int)
    requires
        0 <= i < rgb_len(width, height),
    ensures
        width > 0,
        0 <= (i / 3) % (width as int) < width,
        0 <= (i / 3) / (width as int) < height,
{
    let w = width as int;
    let h = height as int;
    let p = i / 3;
    assert(p < w * h);
    assert(w > 0) by (nonlinear_arith)
        requires
            0 <= p < w * h,
            h >= 0,
    ;
    assert(0 <= p / w < h) by (nonlinear_arith)
        requires
            0 <= p < w * h,
            w > 0,
    ;
}

/// Outlining two rectangles with the same border on the canvas gives the
/// same samples.
proof fn outline_of_same_border(
    width: u32,
    height: u32,
    pixels: Seq<u8>,
    a: PixelRect,
    b: PixelRect,
    colour: (u8, u8, u8),
)
    requires
        pixels.len() == rgb_len(width, height),
        same_outline_on(width, height, a, b),
    ensures
        outlined(width, pixels, a, colour) == outlined(width, pixels, b, colour),
{
    assert forall|i: int| 0 <= i < pixels.len() implies outlined(width, pixels, a, colour)[i]
        == outlined(width, pixels, b, colour)[i] by {
        sample_on_canvas(width, height, i);
        let x = (i / 3) % (width as int);
        let y = (i / 3) / (width as int);
        assert(on_outline(a, x, y) == on_outline(b, x, y));
    }
    assert(outlined(width, pixels, a, colour) =~= outlined(width, pixels, b, colour));
}

/// Outlining a rectangle whose border misses the canvas changes nothing.
proof fn outline_off_canvas_changes_nothing(
    width: u32,
    height: u32,
    pixels: Seq<u8>,
    r: PixelRect,
    colour: (u8, u8, u8),
)
    requires
        pixels.len() == rgb_len(width, height),
        outline_off_canvas(width, height, r),
    ensures
        outlined(width, pixels, r, colour) == pixels,
{
    assert forall|i: int| 0 <= i < pixels.len() implies outlined(width, pixels, r, colour)[i]
        == pixels[i] by {
        sample_on_canvas(width, height, i);
        assert(!on_outline(r, (i / 3) % (width as int), (i / 3) / (width as int)));
    }
    assert(outlined(width, pixels, r, colour) =~= pixels);
}

/// Draws the outline of each rectangle onto a copy of `img`, in order, and
/// returns the copy; `img` itself is left as it was. Empty rectangles are
/// skipped, and border pixels off the image are not drawn. The drawing
/// routine computes with single-precision endpoints, so where something is
/// to be drawn the image's sides are bounded by `DRAW_LIMIT`.
pub fn overlay(img: &Raster, rects: &Vec<PixelRect>) -> (r: Raster)
    requires
        img.wf(),
        canvas_fits(img.width, img.height) || forall|i: int|
            0 <= i < rects@.len() ==> !drawable(#[trigger] rects@[i]),
    ensures
        r.wf(),
        r.width == img.width,
        r.height == img.height,
        r.pixels@ == overlaid(img.width, img.pixels@, rects@),
{
    let mut pixels: Vec<u8> = img.pixels.clone();
    assert(pixels@ =~= img.pixels@);
    let mut i: usize = 0;
    while i < rects.len()
        invariant
            i <= rects@.len(),
            img.wf(),
            canvas_fits(img.width, img.height) || forall|i: int|
                0 <= i < rects@.len() ==> !drawable(#[trigger] rects@[i]),
            pixels@.len() == img.pixels@.len(),
            pixels@ == overlaid(img.width, img.pixels@, rects@.take(i as int)),
        decreases rects@.len() - i,
    {
        let rect = rects[i];
        let colour: (u8, u8, u8) = (LINE_RED, LINE_GREEN, LINE_BLUE);
        if is_drawable(rect) {
            assert(rects@[i as int] == rect);
            let ghost before = pixels@;
            match clip_to_canvas(rect, img.width, img.height) {
                Some(c) => {
                    draw_outline(img.width, img.height, &mut pixels, c, colour);
                    proof {
                        outline_of_same_border(img.width, img.height, before, rect, c, colour);
                    }
                },
                None => {
                    proof {
                        outline_off_canvas_changes_nothing(img.width, img.height, before, rect, colour);
                    }
                },
            }
        }
        assert(rects@.take(i + 1).drop_last() =~= rects@.take(i as int));
        i = i + 1;
    }
    assert(rects@.take(i as int) =~= rects@);
    Raster { width: img.width, height: img.height, pixels }
}

/// With no rectangles, the overlay is a plain copy of the image.
pub proof fn overlay_of_no_boxes_is_copy(img: Raster)
    ensures
        overlaid(img.width, img.pixels@, Seq::<PixelRect>::empty()) == img.pixels@,
{
}

/// The overlay depends on nothing but the image and the rectangles: equal
/// inputs give equal samples.
pub proof fn overlay_is_deterministic(a: Raster, b: Raster, ra: Seq<PixelRect>, rb: Seq<PixelRect>)
    requires
        a.width == b.width,
        a.pixels@ == b.pixels@,
        ra == rb,
    ensures
        overlaid(a.width, a.pixels@, ra) == overlaid(b.width, b.pixels@, rb),
{
}

/// Rectangles that are not drawable (empty, or too far out) change nothing.
pub proof fn undrawable_boxes_change_nothing(width: u32, pixels: Seq<u8>, rects: Seq<PixelRect>)
    requires
        forall|i: int| 0 <= i < rects.len() ==> !drawable(#[trigger] rects[i]),
    ensures
        overlaid(width, pixels, rects) == pixels,
    decreases rects.len(),
{
    if rects.len() > 0 {
        let rest = rects.drop_last();
        assert forall|i: int| 0 <= i < rest.len() implies !drawable(#[trigger] rest[i]) by {
            assert(rest[i] == rects[i]);
        }
        undrawable_boxes_change_nothing(width, pixels, rest);
        assert(!drawable(rects[rects.len() - 1]));
    }
}

} // verus!
