//! The per-slot transition scheduler.
//!
//! A slot shows a current image and cross-fades into the next one. Its
//! progress through one display cycle is kept as an exact fraction: the
//! denominator is `total_ticks * fade_den`, so that both one render tick
//! (`1 / total_ticks`) and the fade threshold (`fade_num / fade_den`) are
//! whole numbers of progress units and every comparison is exact.
//!
//! One render tick is split in two halves around the fetch the host
//! performs: `begin_tick` advances progress and says what kind of fetch is
//! needed; `complete_tick` absorbs the fetch outcome, detects starvation at
//! the fade boundary, and swaps the images at the end of the cycle.

use vstd::prelude::*;

use crate::frac::Frac;
use crate::frac::lemma_mul_u32_fits;
use crate::frac::lemma_mul_ge_one;
use crate::frac::lemma_mul_le_mono;
use crate::rng::random_below;

verus! {

/// What kind of fetch for the next image a tick requires.
#[derive(Clone, Copy, Debug, PartialEq, Eq, Structural)]
pub enum FetchKind {
    /// The next image is already in hand.
    Skip,
    /// Poll without blocking; the fade has not started yet.
    Poll,
    /// The fade window has begun with no successor: wait for one.
    Block,
}

/// The one fatal per-slot condition: the cross-fade must begin and even a
/// blocking fetch produced no successor image.
#[derive(Clone, Copy, Debug, PartialEq, Eq, Structural)]
pub enum SlotError {
    /// No next image by the time the fade had to start.
    FadeStarved,
}

/// Alphas and per-image progress for drawing one slot this tick.
#[derive(Clone, Copy, Debug, PartialEq, Eq, Structural)]
pub struct DrawPlan {
    /// Alpha of the current image.
    pub cur_alpha: Frac,
    /// Alpha of the next image; only meaningful when `draw_next`.
    pub next_alpha: Frac,
    /// Scroll progress of the current image.
    pub cur_progress: Frac,
    /// Locally renormalized scroll progress of the next image.
    pub next_progress: Frac,
    /// Whether the next image is drawn at all.
    pub draw_next: bool,
}

/// One independent scrolling/fading display unit.
#[derive(Clone, Copy, Debug, PartialEq, Eq, Structural)]
pub struct Slot {
    /// Render ticks in one full display cycle (duration times tick rate).
    pub total_ticks: u64,
    /// Numerator of the fade threshold, a fraction in `[1/2, 1]`.
    pub fade_num: u64,
    /// Denominator of the fade threshold.
    pub fade_den: u64,
    /// Progress through the cycle, in units of `1 / cycle_units()`.
    pub progress: u64,
    /// Whether the successor image has already arrived.
    pub next_ready: bool,
}

impl Slot {
    /// Progress units in one full cycle: the denominator of `progress`.
    pub open spec fn cycle_units(self) -> int {
        self.total_ticks * self.fade_den
    }

    /// The fade threshold in progress units.
    pub open spec fn fade_units(self) -> int {
        self.fade_num * self.total_ticks
    }

    /// The fixed configuration is well formed: both factors of the
    /// denominator fit in 32 bits and the fade fraction lies in `[1/2, 1]`.
    pub open spec fn config_wf(self) -> bool {
        &&& 1 <= self.total_ticks <= 0xffff_ffff
        &&& 1 <= self.fade_num
        &&& self.fade_num <= self.fade_den <= 0xffff_ffff
        &&& self.fade_den <= 2 * self.fade_num
    }

    /// Well-formed between ticks: progress has not yet reached the end of
    /// the cycle.
    pub open spec fn wf(self) -> bool {
        &&& self.config_wf()
        &&& self.progress < self.cycle_units()
    }

    /// `other` has the same configuration as `self`.
    pub open spec fn same_config(self, other: Slot) -> bool {
        &&& self.total_ticks == other.total_ticks
        &&& self.fade_num == other.fade_num
        &&& self.fade_den == other.fade_den
    }

    /// Ambient facts every method needs: the denominator fits in a `u64`,
    /// and the fade threshold lies between 1 and the cycle length.
    proof fn lemma_units(self)
        requires
            self.config_wf(),
        ensures
            1 <= self.cycle_units() <= 0xffff_fffe_0000_0001,
            1 <= self.fade_units() <= self.cycle_units(),
    {
        lemma_mul_u32_fits(self.total_ticks as int, self.fade_den as int);
        lemma_mul_ge_one(self.total_ticks as int, self.fade_den as int);
        lemma_mul_ge_one(self.fade_num as int, self.total_ticks as int);
        lemma_mul_le_mono(self.fade_num as int, self.fade_den as int, self.total_ticks as int);
        assert(self.fade_den * self.total_ticks == self.total_ticks * self.fade_den)
            by (nonlinear_arith);
        assert(self.fade_num * self.total_ticks <= self.fade_den * self.total_ticks);
    }

    /// The cycle length in progress units, as a machine integer.
    pub fn cycle_units_u64(&self) -> (r: u64)
        requires
            self.config_wf(),
        ensures
            r == self.cycle_units(),
    {
        proof {
            self.lemma_units();
        }
        self.total_ticks * self.fade_den
    }

    /// The fade threshold in progress units, as a machine integer.
    pub fn fade_units_u64(&self) -> (r: u64)
        requires
            self.config_wf(),
        ensures
            r == self.fade_units(),
    {
        proof {
            self.lemma_units();
        }
        self.fade_num * self.total_ticks
    }

    /// Creates a slot that starts `start_units` of the way into its cycle
    /// with no successor image in hand.
    pub fn new(total_ticks: u32, fade_num: u32, fade_den: u32, start_units: u64) -> (r: Slot)
        requires
            1 <= total_ticks,
            1 <= fade_num,
            fade_num <= fade_den,
            fade_den <= 2 * fade_num,
            start_units < total_ticks * fade_den,
        ensures
            r.wf(),
            r.total_ticks == total_ticks,
            r.fade_num == fade_num,
            r.fade_den == fade_den,
            r.progress == start_units,
            !r.next_ready,
    {
        Slot {
            total_ticks: total_ticks as u64,
            fade_num: fade_num as u64,
            fade_den: fade_den as u64,
            progress: start_units,
            next_ready: false,
        }
    }

    /// Creates a slot whose initial progress is drawn uniformly at random,
    /// so that the slots of a grid desynchronize visually.
    pub fn new_randomized(total_ticks: u32, fade_num: u32, fade_den: u32) -> (r: Slot)
        requires
            1 <= total_ticks,
            1 <= fade_num,
            fade_num <= fade_den,
            fade_den <= 2 * fade_num,
        ensures
            r.wf(),
            r.total_ticks == total_ticks,
            r.fade_num == fade_num,
            r.fade_den == fade_den,
            !r.next_ready,
    {
        proof {
            lemma_mul_u32_fits(total_ticks as int, fade_den as int);
            lemma_mul_ge_one(total_ticks as int, fade_den as int);
        }
        let units: u64 = (total_ticks as u64) * (fade_den as u64);
        let start = random_below(units);
        Slot::new(total_ticks, fade_num, fade_den, start)
    }

    /// First half of a render tick: progress advances by exactly one tick
    /// (`fade_den` units), and the result says what fetch the host must
    /// now attempt — none if the successor is in hand, a non-blocking poll
    /// before the fade starts, a blocking wait once inside the fade window.
    ///
    /// Progress strictly increases here; only a swap in `complete_tick`
    /// ever moves it backwards.
    pub fn begin_tick(&mut self) -> (r: FetchKind)
        requires
            old(self).wf(),
        ensures
            old(self).same_config(*final(self)),
            final(self).progress == old(self).progress + old(self).fade_den,
            final(self).next_ready == old(self).next_ready,
            r == FetchKind::Skip <==> old(self).next_ready,
            r == FetchKind::Block <==> !old(self).next_ready && final(self).progress
                >= final(self).fade_units(),
            r == FetchKind::Poll <==> !old(self).next_ready && final(self).progress
                < final(self).fade_units(),
    {
        proof {
            self.lemma_units();
        }
        self.progress = self.progress + self.fade_den;
        if self.next_ready {
            FetchKind::Skip
        } else {
            let fade_at = self.fade_units_u64();
            if self.progress >= fade_at {
                FetchKind::Block
            } else {
                FetchKind::Poll
            }
        }
    }

    /// Second half of a render tick. `fetched` says whether the fetch that
    /// `begin_tick` asked for produced an image.
    ///
    /// If the fade window has begun and there is still no successor, the
    /// slot is starved: that is fatal for the slot and nothing changes.
    /// Otherwise, when progress has reached the end of the cycle the images
    /// swap: progress resets to exactly `1 - fade` (continuity with the
    /// point the fade started from) and the new successor is owed again;
    /// the call returns whether this swap happened, and after a swap the
    /// host should poll once more and report through `offer_next`.
    pub fn complete_tick(&mut self, fetched: bool) -> (r: Result<bool, SlotError>)
        requires
            old(self).config_wf(),
            old(self).progress <= old(self).cycle_units() + old(self).fade_den,
        ensures
            r is Err <==> !old(self).next_ready && !fetched && old(self).progress
                >= old(self).fade_units(),
            r is Err ==> *final(self) == *old(self),
            r matches Ok(swapped) ==> {
                &&& final(self).wf()
                &&& old(self).same_config(*final(self))
                &&& swapped == (old(self).progress >= old(self).cycle_units())
                &&& swapped ==> final(self).progress == old(self).cycle_units()
                    - old(self).fade_units() && !final(self).next_ready
                &&& !swapped ==> final(self).progress == old(self).progress
                    && final(self).next_ready == (old(self).next_ready || fetched)
            },
    {
        proof {
            self.lemma_units();
        }
        let fade_at = self.fade_units_u64();
        let ready = self.next_ready || fetched;
        if !ready && self.progress >= fade_at {
            return Err(SlotError::FadeStarved);
        }
        self.next_ready = ready;
        let units = self.cycle_units_u64();
        if self.progress >= units {
            // the swap: what was next becomes current, and the new image
            // picks up exactly where the old one entered its fade
            self.progress = units - fade_at;
            self.next_ready = false;
            Ok(true)
        } else {
            Ok(false)
        }
    }

    /// Records the outcome of an opportunistic poll for the successor
    /// image (after a swap, or at startup).
    pub fn offer_next(&mut self, got: bool)
        requires
            old(self).config_wf(),
        ensures
            old(self).same_config(*final(self)),
            final(self).progress == old(self).progress,
            final(self).next_ready == (old(self).next_ready || got),
    {
        self.next_ready = self.next_ready || got;
    }

    /// Whether the cross-fade window has begun.
    pub fn in_fade(&self) -> (r: bool)
        requires
            self.config_wf(),
        ensures
            r == (self.progress >= self.fade_units()),
    {
        proof {
            self.lemma_units();
        }
        self.progress >= self.fade_units_u64()
    }

    /// The slot's progress through its cycle as an exact fraction.
    pub fn progress_frac(&self) -> (r: Frac)
        requires
            self.wf(),
        ensures
            r.num == self.progress,
            r.den == self.cycle_units(),
            r.wf(),
            r.small(),
    {
        proof {
            self.lemma_units();
        }
        Frac::new(self.progress, self.cycle_units_u64())
    }

    /// What to draw this tick.
    ///
    /// Before the fade threshold only the current image is drawn, fully
    /// opaque, at the slot's progress. Inside the fade window both images
    /// are drawn: the next one at alpha `(progress - fade) / (1 - fade)`,
    /// the current one at the complement, and the next image's scroll
    /// progress is its own local `progress - fade`. The two alphas always
    /// sum to exactly 1.
    pub fn draw_plan(&self) -> (r: DrawPlan)
        requires
            self.wf(),
        ensures
            r.cur_progress.num == self.progress && r.cur_progress.den == self.cycle_units(),
            r.draw_next == (self.progress >= self.fade_units()),
            !r.draw_next ==> {
                &&& r.cur_alpha == (Frac { num: 1u128, den: 1u128 })
                &&& r.next_alpha == (Frac { num: 0u128, den: 1u128 })
                &&& r.next_progress == (Frac { num: 0u128, den: 1u128 })
            },
            r.draw_next ==> {
                &&& r.next_alpha.num == self.progress - self.fade_units()
                &&& r.next_alpha.den == self.cycle_units() - self.fade_units()
                &&& r.cur_alpha.num == self.cycle_units() - self.progress
                &&& r.cur_alpha.den == self.cycle_units() - self.fade_units()
                // the alphas are exact complements
                &&& r.cur_alpha.num + r.next_alpha.num == r.cur_alpha.den
                &&& r.next_progress.num == self.progress - self.fade_units()
                &&& r.next_progress.den == self.cycle_units()
            },
            r.cur_alpha.wf() && r.next_alpha.num <= r.next_alpha.den && r.cur_progress.wf()
                && r.next_progress.num <= r.next_progress.den,
            r.cur_alpha.small() && r.next_alpha.small() && r.cur_progress.small()
                && r.next_progress.small(),
    {
        proof {
            self.lemma_units();
        }
        let units = self.cycle_units_u64();
        let fade_at = self.fade_units_u64();
        let cur_progress = Frac::new(self.progress, units);
        if self.progress >= fade_at {
            // progress < units and fade_at <= progress, so fade_at < units
            let fade_span: u64 = units - fade_at;
            let next_alpha = Frac::new(self.progress - fade_at, fade_span);
            let cur_alpha = Frac::new(units - self.progress, fade_span);
            let next_progress = Frac::new(self.progress - fade_at, units);
            DrawPlan { cur_alpha, next_alpha, cur_progress, next_progress, draw_next: true }
        } else {
            DrawPlan {
                cur_alpha: Frac { num: 1, den: 1 },
                next_alpha: Frac { num: 0, den: 1 },
                cur_progress,
                next_progress: Frac { num: 0, den: 1 },
                draw_next: false,
            }
        }
    }
}

/// Across one whole render tick a slot's progress is monotonically
/// increasing — it grows by exactly one tick's worth — until a swap
/// resets it to exactly `1 - fade` of the cycle. The three states are one
/// slot as `begin_tick` found it, left it, and as `complete_tick` left
/// it, related as those two functions' contracts state.
pub proof fn lemma_tick_progress(before: Slot, mid: Slot, after: Slot, swapped: bool)
    requires
        before.wf(),
        before.same_config(mid),
        mid.progress == before.progress + before.fade_den,
        mid.same_config(after),
        swapped == (mid.progress >= mid.cycle_units()),
        swapped ==> after.progress == mid.cycle_units() - mid.fade_units(),
        !swapped ==> after.progress == mid.progress,
    ensures
        !swapped ==> after.progress > before.progress,
        !swapped ==> after.progress == before.progress + before.fade_den,
        swapped ==> after.progress == before.cycle_units() - before.fade_units(),
{
}

/// All the slots of one display: one for single mode, one per cell in
/// grid mode. Each runs the whole per-slot state machine independently,
/// with its own images, uv windows and progress, so cells desynchronize.
pub struct TransitionScheduler {
    pub slots: Vec<Slot>,
}

impl TransitionScheduler {
    pub open spec fn wf(self) -> bool {
        forall|i: int| 0 <= i < self.slots@.len() ==> (#[trigger] self.slots@[i]).wf()
    }

    /// Every slot carries the given configuration.
    pub open spec fn configured(self, total_ticks: u32, fade_num: u32, fade_den: u32) -> bool {
        forall|i: int|
            0 <= i < self.slots@.len() ==> {
                &&& (#[trigger] self.slots@[i]).total_ticks == total_ticks
                &&& self.slots@[i].fade_num == fade_num
                &&& self.slots@[i].fade_den == fade_den
            }
    }

    /// One slot covering the whole frame, starting at progress zero.
    pub fn new_single(total_ticks: u32, fade_num: u32, fade_den: u32) -> (r: TransitionScheduler)
        requires
            1 <= total_ticks,
            1 <= fade_num,
            fade_num <= fade_den,
            fade_den <= 2 * fade_num,
        ensures
            r.wf(),
            r.configured(total_ticks, fade_num, fade_den),
            r.slots@.len() == 1,
            r.slots@[0].progress == 0,
    {
        proof {
            lemma_mul_ge_one(total_ticks as int, fade_den as int);
        }
        let mut slots: Vec<Slot> = Vec::new();
        slots.push(Slot::new(total_ticks, fade_num, fade_den, 0));
        TransitionScheduler { slots }
    }

    /// One slot per grid cell, each starting at an independently random
    /// progress.
    pub fn new_grid(
        width: usize,
        height: usize,
        total_ticks: u32,
        fade_num: u32,
        fade_den: u32,
    ) -> (r: TransitionScheduler)
        requires
            width * height <= usize::MAX,
            1 <= total_ticks,
            1 <= fade_num,
            fade_num <= fade_den,
            fade_den <= 2 * fade_num,
        ensures
            r.wf(),
            r.configured(total_ticks, fade_num, fade_den),
            r.slots@.len() == width * height,
    {
        let count: usize = width * height;
        let mut slots: Vec<Slot> = Vec::new();
        let mut i: usize = 0;
        while i < count
            invariant
                0 <= i <= count,
                slots@.len() == i,
                1 <= total_ticks,
                1 <= fade_num,
                fade_num <= fade_den,
                fade_den <= 2 * fade_num,
                forall|j: int| 0 <= j < i ==> (#[trigger] slots@[j]).wf(),
                forall|j: int|
                    0 <= j < i ==> {
                        &&& (#[trigger] slots@[j]).total_ticks == total_ticks
                        &&& slots@[j].fade_num == fade_num
                        &&& slots@[j].fade_den == fade_den
                    },
            decreases count - i,
        {
            slots.push(Slot::new_randomized(total_ticks, fade_num, fade_den));
            i = i + 1;
        }
        TransitionScheduler { slots }
    }

    /// How many slots the display drives.
    pub fn len(&self) -> (r: usize)
        ensures
            r == self.slots@.len(),
    {
        self.slots.len()
    }

    /// Borrows one slot to read.
    pub fn slot(&self, i: usize) -> (r: &Slot)
        requires
            i < self.slots@.len(),
        ensures
            *r == self.slots@[i as int],
    {
        &self.slots[i]
    }

    /// Borrows one slot for its tick; the other slots are untouched.
    pub fn slot_mut(&mut self, i: usize) -> (r: &mut Slot)
        requires
            i < old(self).slots@.len(),
        ensures
            *r == old(self).slots@[i as int],
            final(self).slots@ == old(self).slots@.update(i as int, *final(r)),
    {
        &mut self.slots[i]
    }
}

/// The number of render ticks a display duration spans: the duration
/// `secs_num / secs_den` seconds at `tick_hz` ticks per second, rounded
/// down. `None` when that is zero or does not fit the scheduler's 32-bit
/// tick budget.
pub fn ticks_in_duration(secs_num: u64, secs_den: u64, tick_hz: u32) -> (r: Option<u32>)
    requires
        1 <= secs_den,
    ensures
        r is Some <==> 1 <= (secs_num * tick_hz) / (secs_den as int) <= 0xffff_ffff,
        r matches Some(t) ==> t == (secs_num * tick_hz) / (secs_den as int),
{
    proof {
        crate::frac::lemma_mul_u64_fits(secs_num as int, tick_hz as int);
    }
    let total: u128 = (secs_num as u128) * (tick_hz as u128);
    let ticks: u128 = total / (secs_den as u128);
    if ticks >= 1 && ticks <= 0xffff_ffff {
        Some(ticks as u32)
    } else {
        None
    }
}

} // verus!
