//! The exact configuration parsers.

use zss::args::{parse_fade, parse_grid, parse_usize, parse_window_id, Mode};
use zss::frac::Frac;
use zss::parse::{parse_decimal, parse_hex_u64, parse_u64};

#[test]
fn decimal_integers_parse_exactly() {
    assert_eq!(parse_u64(b"0"), Some(0));
    assert_eq!(parse_u64(b"30"), Some(30));
    assert_eq!(parse_u64(b"007"), Some(7));
    assert_eq!(parse_u64(b"18446744073709551615"), Some(u64::MAX));
    assert_eq!(parse_u64(b"18446744073709551616"), None);
    assert_eq!(parse_u64(b""), None);
    assert_eq!(parse_u64(b"12a"), None);
    assert_eq!(parse_u64(b"-3"), None);
}

#[test]
fn hex_integers_parse_exactly() {
    assert_eq!(parse_hex_u64(b"ff"), Some(255));
    assert_eq!(parse_hex_u64(b"FF"), Some(255));
    assert_eq!(parse_hex_u64(b"3c00041"), Some(0x3c00041));
    assert_eq!(parse_hex_u64(b"ffffffffffffffff"), Some(u64::MAX));
    assert_eq!(parse_hex_u64(b"10000000000000000"), None);
    assert_eq!(parse_hex_u64(b"xyz"), None);
}

#[test]
fn window_ids_need_the_hex_prefix() {
    assert_eq!(parse_window_id(b"0x3c00041"), Some(0x3c00041));
    assert_eq!(parse_window_id(b"3c00041"), None);
    assert_eq!(parse_window_id(b"0x"), None);
    assert_eq!(parse_window_id(b"0xg"), None);
}

#[test]
fn decimal_literals_become_exact_fractions() {
    assert_eq!(parse_decimal(b"30"), Some((30, 1)));
    assert_eq!(parse_decimal(b"0.8"), Some((8, 10)));
    assert_eq!(parse_decimal(b"2.5"), Some((25, 10)));
    assert_eq!(parse_decimal(b".5"), Some((5, 10)));
    assert_eq!(parse_decimal(b"3."), Some((3, 1)));
    assert_eq!(parse_decimal(b"0.125"), Some((125, 1000)));
    assert_eq!(parse_decimal(b"."), None);
    assert_eq!(parse_decimal(b""), None);
    assert_eq!(parse_decimal(b"1.2.3"), None);
    assert_eq!(parse_decimal(b"1,5"), None);
    // twenty fraction digits: the denominator no longer fits
    assert_eq!(parse_decimal(b"0.00000000000000000001"), None);
}

#[test]
fn fade_accepts_exactly_the_half_to_one_range() {
    assert_eq!(parse_fade(b"0.8"), Some(Frac { num: 8, den: 10 }));
    assert_eq!(parse_fade(b"0.5"), Some(Frac { num: 5, den: 10 }));
    assert_eq!(parse_fade(b"1"), Some(Frac { num: 1, den: 1 }));
    assert_eq!(parse_fade(b"1.0"), Some(Frac { num: 10, den: 10 }));
    assert_eq!(parse_fade(b"0.4999"), None);
    assert_eq!(parse_fade(b"1.0001"), None);
    assert_eq!(parse_fade(b"abc"), None);
}

#[test]
fn grids_are_width_by_height() {
    assert_eq!(parse_grid(b"4x3"), Some((4, 3)));
    assert_eq!(parse_grid(b"1x1"), Some((1, 1)));
    // whitespace around the numbers is tolerated
    assert_eq!(parse_grid(b" 4 x 3 "), Some((4, 3)));
    assert_eq!(parse_grid(b"4x\t3\n"), Some((4, 3)));
    assert_eq!(parse_grid(b"12x"), None);
    assert_eq!(parse_grid(b"x12"), None);
    assert_eq!(parse_grid(b"12"), None);
    assert_eq!(parse_grid(b"axb"), None);
}

#[test]
fn backlog_is_a_plain_usize() {
    assert_eq!(parse_usize(b"0"), Some(0));
    assert_eq!(parse_usize(b"16"), Some(16));
    assert_eq!(parse_usize(b"sixteen"), None);
}

#[test]
fn mode_slot_counts() {
    assert_eq!(Mode::Single.slot_count(), Some(1));
    assert_eq!(Mode::Grid { width: 3, height: 2 }.slot_count(), Some(6));
    assert_eq!(Mode::Grid { width: 0, height: 5 }.slot_count(), Some(0));
    assert_eq!(
        Mode::Grid { width: usize::MAX, height: 2 }.slot_count(),
        None
    );
}
