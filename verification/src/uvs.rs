//! Texture coordinates for a scrolling image.
//!
//! An image that is larger than its frame along the scroll axis is sampled
//! through a sub-window: the visible fraction of the scroll axis is the
//! exact ratio of the two aspect ratios. `offset` interpolates the window
//! from one edge of the image to the other as progress runs from 0 to 1.

use vstd::prelude::*;

use crate::frac::Frac;
use crate::frac::lemma_mul_u32_fits;
use crate::frac::lemma_mul_u64_fits;
use crate::frac::lemma_mul_le_mono;
use crate::frac::lemma_mul_ge_one;

verus! {

/// The uv sub-window of an image inside a frame.
///
/// The window starts at `[ratio, 1]` (or `[1, ratio]` for a vertical
/// scroll) and ends at `[1, 1]`, where `ratio = ratio_num / ratio_den` is
/// the fraction of the scroll axis that is visible at once.
#[derive(Clone, Copy, Debug, PartialEq, Eq, Structural)]
pub struct Uvs {
    /// Numerator of the visible fraction of the scroll axis.
    pub ratio_num: u64,
    /// Denominator of the visible fraction of the scroll axis.
    pub ratio_den: u64,
    /// True when the x axis scrolls, false when the y axis scrolls.
    pub horizontal: bool,
    /// Scroll from the far edge back to the near one instead.
    pub swap_dir: bool,
}

impl Uvs {
    pub open spec fn wf(self) -> bool {
        &&& 1 <= self.ratio_num
        &&& self.ratio_num <= self.ratio_den
    }

    /// The uv coordinate of the window's start on the scroll axis.
    pub open spec fn start_ratio(self) -> Frac {
        Frac { num: self.ratio_num as u128, den: self.ratio_den as u128 }
    }

    /// Progress along the scroll, with the direction reversed under
    /// `swap_dir`: the numerator of the effective progress over `t.den`.
    pub open spec fn effective_num(self, t: Frac) -> int {
        if self.swap_dir {
            t.den - t.num
        } else {
            t.num as int
        }
    }

    /// Numerator of the scroll-axis offset at progress `t`: the linear
    /// interpolation from the window start to 1, over `offset_den`.
    pub open spec fn offset_num(self, t: Frac) -> int {
        self.ratio_num * t.den + self.effective_num(t) * (self.ratio_den - self.ratio_num)
    }

    /// Denominator of the scroll-axis offset at progress `t`.
    pub open spec fn offset_den(self, t: Frac) -> int {
        self.ratio_den * t.den
    }

    /// Builds the uv window for an `image_w x image_h` image shown in a
    /// `frame_w x frame_h` frame.
    ///
    /// The visible fraction equals the ratio of the frame's aspect ratio to
    /// the image's, taken along the axis on which the image is
    /// proportionally larger; when the aspect ratios are exactly equal the
    /// fraction is 1 and nothing scrolls.
    pub fn new(image_w: u32, image_h: u32, frame_w: u32, frame_h: u32, swap_dir: bool) -> (r: Uvs)
        requires
            1 <= image_w,
            1 <= image_h,
            1 <= frame_w,
            1 <= frame_h,
        ensures
            r.wf(),
            r.swap_dir == swap_dir,
            r.horizontal == (image_w * frame_h >= frame_w * image_h),
            r.horizontal ==> r.ratio_num == frame_w * image_h && r.ratio_den == image_w * frame_h,
            !r.horizontal ==> r.ratio_num == frame_h * image_w && r.ratio_den == image_h * frame_w,
            // the window is degenerate (nothing scrolls) exactly when the
            // two aspect ratios are exactly equal
            (r.ratio_num == r.ratio_den) <==> (image_w * frame_h == frame_w * image_h),
    {
        proof {
            lemma_mul_u32_fits(image_w as int, frame_h as int);
            lemma_mul_u32_fits(frame_w as int, image_h as int);
            lemma_mul_u32_fits(frame_h as int, image_w as int);
            lemma_mul_u32_fits(image_h as int, frame_w as int);
        }
        proof {
            lemma_mul_ge_one(frame_w as int, image_h as int);
            lemma_mul_ge_one(frame_h as int, image_w as int);
        }
        let image_wide: u64 = (image_w as u64) * (frame_h as u64);
        let frame_wide: u64 = (frame_w as u64) * (image_h as u64);
        if image_wide >= frame_wide {
            Uvs { ratio_num: frame_wide, ratio_den: image_wide, horizontal: true, swap_dir }
        } else {
            let num: u64 = (frame_h as u64) * (image_w as u64);
            let den: u64 = (image_h as u64) * (frame_w as u64);
            proof {
                assert(num < den) by (nonlinear_arith)
                    requires
                        image_w * frame_h < frame_w * image_h,
                        num == frame_h * image_w,
                        den == image_h * frame_w,
                ;
            }
            Uvs { ratio_num: num, ratio_den: den, horizontal: false, swap_dir }
        }
    }

    /// Builds the uv window with the scroll direction sampled uniformly
    /// at random, once per image, so consecutive images do not all scroll
    /// the same way.
    pub fn new_randomized(image_w: u32, image_h: u32, frame_w: u32, frame_h: u32) -> (r: Uvs)
        requires
            1 <= image_w,
            1 <= image_h,
            1 <= frame_w,
            1 <= frame_h,
        ensures
            r.wf(),
            r.horizontal == (image_w * frame_h >= frame_w * image_h),
            r.horizontal ==> r.ratio_num == frame_w * image_h && r.ratio_den == image_w * frame_h,
            !r.horizontal ==> r.ratio_num == frame_h * image_w && r.ratio_den == image_h * frame_w,
            (r.ratio_num == r.ratio_den) <==> (image_w * frame_h == frame_w * image_h),
    {
        let swap_dir = crate::rng::random_flip();
        Uvs::new(image_w, image_h, frame_w, frame_h, swap_dir)
    }

    /// The uv coordinates at which the visible window starts: the visible
    /// fraction on the scroll axis, 1 on the other.
    pub fn start(&self) -> (r: [Frac; 2])
        requires
            self.wf(),
        ensures
            self.horizontal ==> r[0] == self.start_ratio() && r[1] == (Frac {
                num: 1u128,
                den: 1u128,
            }),
            !self.horizontal ==> r[0] == (Frac { num: 1u128, den: 1u128 }) && r[1]
                == self.start_ratio(),
            r[0].wf() && r[1].wf(),
    {
        let ratio = Frac { num: self.ratio_num as u128, den: self.ratio_den as u128 };
        let unit = Frac { num: 1, den: 1 };
        if self.horizontal {
            [ratio, unit]
        } else {
            [unit, ratio]
        }
    }

    /// The uv coordinates at which the visible window ends: the far edge
    /// of the image on both axes. Unless the aspect ratios are exactly
    /// equal, exactly one axis (the scroll axis) differs between start
    /// and end.
    pub fn end(&self) -> (r: [Frac; 2])
        ensures
            r[0] == (Frac { num: 1u128, den: 1u128 }),
            r[1] == (Frac { num: 1u128, den: 1u128 }),
    {
        [Frac { num: 1, den: 1 }, Frac { num: 1, den: 1 }]
    }

    /// The uv offset at progress `t`: the exact linear interpolation
    /// between the start and the end of the window, walked backwards when
    /// `swap_dir` is set. The non-scroll axis always reads 1.
    pub fn offset(&self, t: Frac) -> (r: [Frac; 2])
        requires
            self.wf(),
            t.wf(),
            t.small(),
        ensures
            ({
                let scroll = if self.horizontal {
                    r[0]
                } else {
                    r[1]
                };
                let still = if self.horizontal {
                    r[1]
                } else {
                    r[0]
                };
                &&& scroll.num == self.offset_num(t)
                &&& scroll.den == self.offset_den(t)
                &&& scroll.wf()
                &&& still == (Frac { num: 1u128, den: 1u128 })
            }),
    {
        let rn: u128 = self.ratio_num as u128;
        let rd: u128 = self.ratio_den as u128;
        let tn: u128 = if self.swap_dir {
            t.den - t.num
        } else {
            t.num
        };
        let td: u128 = t.den;
        proof {
            lemma_mul_u64_fits(rd as int, td as int);
            lemma_mul_u64_fits(rn as int, td as int);
            lemma_mul_u64_fits(tn as int, (rd - rn) as int);
            lemma_mul_le_mono(tn as int, td as int, (rd - rn) as int);
            assert(rn * td + td * (rd - rn) == rd * td) by (nonlinear_arith);
            lemma_mul_ge_one(rd as int, td as int);
        }
        let den: u128 = rd * td;
        let num: u128 = rn * td + tn * (rd - rn);
        let scroll = Frac { num, den };
        let unit = Frac { num: 1, den: 1 };
        if self.horizontal {
            [scroll, unit]
        } else {
            [unit, scroll]
        }
    }
}

/// Every well-formed uv window lies in the unit square: the start
/// coordinate on the scroll axis is in `(0, 1]` (the other start
/// component and both end components are exactly 1), and start and end
/// differ on exactly one axis — the scroll axis — unless the window is
/// degenerate because the aspect ratios were exactly equal.
pub proof fn lemma_window_bounds(u: Uvs)
    requires
        u.wf(),
    ensures
        u.start_ratio().wf(),
        0 < u.start_ratio().num,
        u.start_ratio().num <= u.start_ratio().den,
        // the scroll axis moves exactly when the window is not degenerate
        !u.start_ratio().same_value(Frac { num: 1u128, den: 1u128 }) <==> u.ratio_num
            != u.ratio_den,
{
}

/// At progress 0 the offset is exactly the window's start coordinate and at
/// progress 1 exactly its end (the value 1), with the two endpoints
/// exchanged when the scroll direction is reversed.
pub proof fn lemma_offset_endpoints(u: Uvs)
    requires
        u.wf(),
    ensures
        u.offset_den(Frac { num: 0u128, den: 1u128 }) == u.ratio_den,
        u.offset_den(Frac { num: 1u128, den: 1u128 }) == u.ratio_den,
        !u.swap_dir ==> u.offset_num(Frac { num: 0u128, den: 1u128 }) == u.ratio_num,
        !u.swap_dir ==> u.offset_num(Frac { num: 1u128, den: 1u128 }) == u.ratio_den,
        u.swap_dir ==> u.offset_num(Frac { num: 0u128, den: 1u128 }) == u.ratio_den,
        u.swap_dir ==> u.offset_num(Frac { num: 1u128, den: 1u128 }) == u.ratio_num,
{
    let z = Frac { num: 0u128, den: 1u128 };
    let o = Frac { num: 1u128, den: 1u128 };
    assert(u.offset_num(z) == u.ratio_num + u.effective_num(z) * (u.ratio_den - u.ratio_num));
    assert(u.offset_num(o) == u.ratio_num + u.effective_num(o) * (u.ratio_den - u.ratio_num));
    if u.swap_dir {
        assert(u.effective_num(z) == 1);
        assert(u.effective_num(o) == 0);
        assert(1int * (u.ratio_den - u.ratio_num) == u.ratio_den - u.ratio_num);
        assert(0int * (u.ratio_den - u.ratio_num) == 0);
    }
}

} // verus!
