//! The per-slot transition scheduler.

use zss::frac::Frac;
use zss::sched::{FetchKind, Slot, SlotError, TransitionScheduler, ticks_in_duration};

/// One full tick with the successor already in hand.
fn tick_ready(slot: &mut Slot) -> bool {
    let kind = slot.begin_tick();
    assert_eq!(kind, FetchKind::Skip);
    slot.complete_tick(false).expect("a slot with a successor never starves")
}

#[test]
fn fade_begins_at_exactly_the_configured_tick() {
    // duration 10 s at 60 Hz: 600 ticks per cycle, fade at 0.8; the
    // cross-fade begins on tick 480 (8 s in), not a tick before
    let total = ticks_in_duration(10, 1, 60).unwrap();
    assert_eq!(total, 600);
    let mut slot = Slot::new(total, 4, 5, 0);
    slot.offer_next(true);
    for _ in 0..479 {
        tick_ready(&mut slot);
        assert!(!slot.in_fade());
        assert!(!slot.draw_plan().draw_next);
    }
    tick_ready(&mut slot);
    assert!(slot.in_fade());
    assert!(slot.draw_plan().draw_next);
    assert!(slot.progress_frac().eq_value(&Frac { num: 4, den: 5 }));
}

#[test]
fn progress_increases_until_the_swap_resets_it() {
    let mut slot = Slot::new(10, 4, 5, 0);
    slot.offer_next(true);
    let mut last = slot.progress;
    for _ in 0..9 {
        let swapped = tick_ready(&mut slot);
        assert!(!swapped);
        assert!(slot.progress > last);
        last = slot.progress;
    }
    // the tenth tick completes the cycle: progress resets to exactly
    // 1 - fade = 1/5 of the cycle
    let swapped = tick_ready(&mut slot);
    assert!(swapped);
    assert!(slot.progress_frac().eq_value(&Frac { num: 1, den: 5 }));
    assert!(!slot.next_ready);
}

#[test]
fn alphas_cross_fade_and_sum_to_one() {
    // 10 ticks, fade 0.8: after 9 ticks progress is 0.9, halfway into
    // the fade window; both images are drawn at alpha 1/2
    let mut slot = Slot::new(10, 4, 5, 0);
    slot.offer_next(true);
    for _ in 0..9 {
        tick_ready(&mut slot);
    }
    let plan = slot.draw_plan();
    assert!(plan.draw_next);
    let half = Frac { num: 1, den: 2 };
    assert!(plan.cur_alpha.eq_value(&half));
    assert!(plan.next_alpha.eq_value(&half));
    // the next image's own scroll progress is progress - fade = 0.1
    assert!(plan.next_progress.eq_value(&Frac { num: 1, den: 10 }));
    assert!(plan.cur_progress.eq_value(&Frac { num: 9, den: 10 }));
}

#[test]
fn fade_without_a_successor_asks_for_a_blocking_fetch() {
    let mut slot = Slot::new(10, 4, 5, 0);
    for _ in 0..7 {
        let kind = slot.begin_tick();
        assert_eq!(kind, FetchKind::Poll);
        slot.complete_tick(false).unwrap();
    }
    // tick 8 reaches the fade threshold with nothing in hand
    let kind = slot.begin_tick();
    assert_eq!(kind, FetchKind::Block);
    // ... and if even the blocking fetch produced nothing, the slot is
    // starved: the one fatal per-slot condition
    assert_eq!(slot.complete_tick(false), Err(SlotError::FadeStarved));
    // with an image it proceeds
    assert_eq!(slot.complete_tick(true), Ok(false));
}

#[test]
fn single_mode_drives_one_slot_from_zero() {
    let sched = TransitionScheduler::new_single(600, 4, 5);
    assert_eq!(sched.len(), 1);
    assert_eq!(sched.slot(0).progress, 0);
    assert!(!sched.slot(0).next_ready);
}

#[test]
fn grid_mode_drives_one_slot_per_cell() {
    let mut sched = TransitionScheduler::new_grid(3, 2, 600, 4, 5);
    assert_eq!(sched.len(), 6);
    for i in 0..6 {
        let slot = sched.slot_mut(i);
        assert!(slot.progress < 600 * 5);
        slot.offer_next(true);
        let swapped = tick_ready(slot);
        let _ = swapped;
    }
}

#[test]
fn tick_budget_follows_duration_and_rate() {
    assert_eq!(ticks_in_duration(30, 1, 60), Some(1800));
    // 2.5 seconds at 60 Hz
    assert_eq!(ticks_in_duration(25, 10, 60), Some(150));
    assert_eq!(ticks_in_duration(0, 1, 60), None);
    // rounds down: 1/100 s at 60 Hz is under one tick
    assert_eq!(ticks_in_duration(1, 100, 60), None);
}
