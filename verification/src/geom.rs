//! Pure geometry: choosing a scroll direction and fitting an image to a
//! frame.
//!
//! Aspect ratios are compared by cross multiplication, never through
//! floating point, so the decision is exact even for dimensions that a
//! float could not represent.

use vstd::prelude::*;

use crate::frac::lemma_mul_u32_fits;

verus! {

/// The size of the display surface a slot renders into, in pixels.
#[derive(Clone, Copy, Debug, PartialEq, Eq, Structural)]
pub struct FrameSize {
    pub width: u32,
    pub height: u32,
}

impl FrameSize {
    pub open spec fn wf(self) -> bool {
        1 <= self.width && 1 <= self.height
    }

    /// The size of one cell when this frame is divided into a
    /// `grid_w x grid_h` grid, rounding down; `None` when the grid is so
    /// fine that a cell would lose a dimension entirely.
    pub fn cell(&self, grid_w: u32, grid_h: u32) -> (r: Option<FrameSize>)
        requires
            1 <= grid_w,
            1 <= grid_h,
        ensures
            r is Some <==> (grid_w <= self.width && grid_h <= self.height),
            r matches Some(c) ==> {
                &&& c.width == self.width as int / grid_w as int
                &&& c.height == self.height as int / grid_h as int
                &&& c.wf()
            },
    {
        proof {
            lemma_unit_quotient(self.width as int, grid_w as int);
            lemma_unit_quotient(self.height as int, grid_h as int);
        }
        let width = self.width / grid_w;
        let height = self.height / grid_h;
        if width >= 1 && height >= 1 {
            Some(FrameSize { width, height })
        } else {
            None
        }
    }
}

/// Along which axis an image scrolls inside its frame.
#[derive(Clone, Copy, Debug, PartialEq, Eq, Structural)]
pub enum ScrollDir {
    /// The image is wider, relative to its height, than the frame.
    Horizontal,
    /// The image is taller, relative to its width, than the frame.
    Vertical,
    /// Image and frame have exactly the same aspect ratio.
    Still,
}

/// The scroll direction for an `image_w x image_h` image in a
/// `frame_w x frame_h` frame: the image scrolls along the axis on which it
/// is proportionally larger than the frame, and not at all when the two
/// aspect ratios are exactly equal.
pub open spec fn scroll_dir_spec(image_w: u32, image_h: u32, frame_w: u32, frame_h: u32) -> ScrollDir {
    if image_w * frame_h > frame_w * image_h {
        ScrollDir::Horizontal
    } else if image_w * frame_h < frame_w * image_h {
        ScrollDir::Vertical
    } else {
        ScrollDir::Still
    }
}

/// Decides the scroll direction by exact aspect-ratio comparison.
pub fn scroll_dir(image_w: u32, image_h: u32, frame_w: u32, frame_h: u32) -> (r: ScrollDir)
    ensures
        r == scroll_dir_spec(image_w, image_h, frame_w, frame_h),
{
    proof {
        lemma_mul_u32_fits(image_w as int, frame_h as int);
        lemma_mul_u32_fits(frame_w as int, image_h as int);
    }
    let left: u64 = (image_w as u64) * (frame_h as u64);
    let right: u64 = (frame_w as u64) * (image_h as u64);
    if left > right {
        ScrollDir::Horizontal
    } else if left < right {
        ScrollDir::Vertical
    } else {
        ScrollDir::Still
    }
}

/// Whether decoding shrinks the image at all: only when it exceeds the
/// frame on the non-scroll axis (or on both axes when nothing scrolls).
/// An image is never upscaled.
pub open spec fn needs_resize_spec(image_w: u32, image_h: u32, frame_w: u32, frame_h: u32) -> bool {
    match scroll_dir_spec(image_w, image_h, frame_w, frame_h) {
        ScrollDir::Vertical => image_w > frame_w,
        ScrollDir::Horizontal => image_h > frame_h,
        ScrollDir::Still => image_w > frame_w,
    }
}

/// The dimensions an image ends up with after fitting: the non-scroll axis
/// is shrunk to match the frame exactly (keeping proportions on the scroll
/// axis), an image that already fits is left untouched.
pub open spec fn fitted_dims_spec(image_w: u32, image_h: u32, frame_w: u32, frame_h: u32) -> (
    int,
    int,
) {
    match scroll_dir_spec(image_w, image_h, frame_w, frame_h) {
        ScrollDir::Vertical => if image_w > frame_w {
            (frame_w as int, (frame_w * image_h) as int / (image_w as int))
        } else {
            (image_w as int, image_h as int)
        },
        ScrollDir::Horizontal => if image_h > frame_h {
            ((frame_h * image_w) as int / (image_h as int), frame_h as int)
        } else {
            (image_w as int, image_h as int)
        },
        ScrollDir::Still => if image_w > frame_w {
            (frame_w as int, frame_h as int)
        } else {
            (image_w as int, image_h as int)
        },
    }
}

/// Computes the fitted dimensions, returning `None` when the image already
/// fits and no resize is needed.
pub fn resize_size(image_w: u32, image_h: u32, frame_w: u32, frame_h: u32) -> (r: Option<
    (u32, u32),
>)
    requires
        1 <= image_w,
        1 <= image_h,
        1 <= frame_w,
        1 <= frame_h,
    ensures
        r is Some <==> needs_resize_spec(image_w, image_h, frame_w, frame_h),
        r matches Some(d) ==> (d.0 as int, d.1 as int) == fitted_dims_spec(
            image_w,
            image_h,
            frame_w,
            frame_h,
        ),
        r is None ==> (image_w as int, image_h as int) == fitted_dims_spec(
            image_w,
            image_h,
            frame_w,
            frame_h,
        ),
{
    let dir = scroll_dir(image_w, image_h, frame_w, frame_h);
    match dir {
        ScrollDir::Vertical => {
            if image_w > frame_w {
                proof {
                    lemma_mul_u32_fits(frame_w as int, image_h as int);
                }
                let scaled: u64 = (frame_w as u64) * (image_h as u64);
                let new_h: u64 = scaled / (image_w as u64);
                proof {
                    lemma_div_shrinks(frame_w as int, image_h as int, image_w as int);
                }
                Some((frame_w, new_h as u32))
            } else {
                None
            }
        },
        ScrollDir::Horizontal => {
            if image_h > frame_h {
                proof {
                    lemma_mul_u32_fits(frame_h as int, image_w as int);
                }
                let scaled: u64 = (frame_h as u64) * (image_w as u64);
                let new_w: u64 = scaled / (image_h as u64);
                proof {
                    lemma_div_shrinks(frame_h as int, image_w as int, image_h as int);
                }
                Some((new_w as u32, frame_h))
            } else {
                None
            }
        },
        ScrollDir::Still => {
            if image_w > frame_w {
                Some((frame_w, frame_h))
            } else {
                None
            }
        },
    }
}

/// The quotient `x / d` reaches 1 exactly when `x` reaches `d`.
proof fn lemma_unit_quotient(x: int, d: int)
    requires
        0 <= x,
        1 <= d,
    ensures
        x / d >= 1 <==> x >= d,
{
    if x < d {
        vstd::arithmetic::div_mod::lemma_basic_div(x, d);
    } else {
        vstd::arithmetic::div_mod::lemma_div_is_ordered(d, x, d);
        vstd::arithmetic::div_mod::lemma_div_by_self(d);
    }
}

/// Scaling `b` by the proper fraction `a / c` cannot grow it:
/// `(a * b) / c <= b` whenever `a < c`.
proof fn lemma_div_shrinks(a: int, b: int, c: int)
    requires
        0 <= a,
        0 <= b,
        a < c,
    ensures
        0 <= (a * b) / c,
        (a * b) / c <= b,
{
    assert(a * b <= c * b) by (nonlinear_arith)
        requires
            0 <= a,
            0 <= b,
            a < c,
    ;
    assert(0 <= (a * b) / c && (a * b) / c <= b) by (nonlinear_arith)
        requires
            0 <= a,
            0 <= b,
            0 < c,
            a * b <= c * b,
    ;
}

/// Fitting never upscales and never produces a zero dimension: for positive
/// inputs the fitted size is positive and no larger than the original
/// image on either axis.
pub proof fn lemma_fit_shrinks(image_w: u32, image_h: u32, frame_w: u32, frame_h: u32)
    requires
        1 <= image_w,
        1 <= image_h,
        1 <= frame_w,
        1 <= frame_h,
    ensures
        1 <= fitted_dims_spec(image_w, image_h, frame_w, frame_h).0 <= image_w,
        1 <= fitted_dims_spec(image_w, image_h, frame_w, frame_h).1 <= image_h,
{
    let iw = image_w as int;
    let ih = image_h as int;
    let fw = frame_w as int;
    let fh = frame_h as int;
    match scroll_dir_spec(image_w, image_h, frame_w, frame_h) {
        ScrollDir::Vertical => {
            if image_w > frame_w {
                lemma_div_shrinks(fw, ih, iw);
                assert(iw * fh < fw * ih) by (nonlinear_arith)
                    requires
                        image_w * frame_h < frame_w * image_h,
                        iw == image_w as int,
                        ih == image_h as int,
                        fw == frame_w as int,
                        fh == frame_h as int,
                ;
                assert(iw <= iw * fh) by (nonlinear_arith)
                    requires
                        1 <= iw,
                        1 <= fh,
                ;
                assert((fw * ih) / iw >= 1) by (nonlinear_arith)
                    requires
                        1 <= iw,
                        iw <= fw * ih,
                ;
            }
        },
        ScrollDir::Horizontal => {
            if image_h > frame_h {
                lemma_div_shrinks(fh, iw, ih);
                assert(fw * ih < iw * fh) by (nonlinear_arith)
                    requires
                        image_w * frame_h > frame_w * image_h,
                        iw == image_w as int,
                        ih == image_h as int,
                        fw == frame_w as int,
                        fh == frame_h as int,
                ;
                assert(ih <= ih * fw) by (nonlinear_arith)
                    requires
                        1 <= ih,
                        1 <= fw,
                ;
                assert((fh * iw) / ih >= 1) by (nonlinear_arith)
                    requires
                        1 <= ih,
                        ih <= fh * iw,
                ;
            }
        },
        ScrollDir::Still => {
            if image_w > frame_w {
                assert(image_w * frame_h == frame_w * image_h);
                assert(frame_h <= image_h) by (nonlinear_arith)
                    requires
                        image_w * frame_h == frame_w * image_h,
                        frame_w < image_w,
                        1 <= frame_h,
                        1 <= image_h,
                ;
            }
        },
    }
}

} // verus!
