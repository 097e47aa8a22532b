//! The configuration values and their exact parsers.
//!
//! The command line itself is read by the unverified shell; every value in
//! it — the hexadecimal window id, the fade fraction, the grid geometry,
//! the backlog — is turned into a typed value here, with a contract that
//! says exactly which strings are accepted and what they mean.

use vstd::prelude::*;

use crate::frac::Frac;
use crate::parse::all_digits_in;
use crate::parse::decimal_den;
use crate::parse::decimal_num;
use crate::parse::decimal_wf;
use crate::parse::find_byte;
use crate::parse::parse_decimal;
use crate::parse::parse_hex_u64;
use crate::parse::parse_u64;
use crate::parse::radix_value;
use crate::parse::split_index;
use crate::parse::trim_spaces;
use crate::parse::trimmed;
use vstd::slice::slice_subrange;

verus! {

/// Display mode: the whole frame as one slot, or a grid of independent
/// cells.
#[derive(Clone, Copy, Debug, PartialEq, Eq, Structural)]
pub enum Mode {
    /// Single image covering the whole frame.
    Single,
    /// A `width x height` grid of independently scrolling cells.
    Grid { width: usize, height: usize },
}

impl Mode {
    /// How many independent slots this mode drives: 1, or the number of
    /// grid cells; `None` when the cell count overflows.
    pub fn slot_count(&self) -> (r: Option<usize>)
        ensures
            *self is Single ==> r == Some(1usize),
            *self matches Mode::Grid { width, height } ==> r == (if width * height <= usize::MAX {
                Some((width * height) as usize)
            } else {
                None::<usize>
            }),
    {
        match self {
            Mode::Single => Some(1),
            Mode::Grid { width, height } => width.checked_mul(*height),
        }
    }
}

/// The fade fraction's allowed domain is `[1/2, 1]`.
pub open spec fn fade_in_range(num: nat, den: nat) -> bool {
    &&& num <= den
    &&& den <= 2 * num
}

/// Parses a window id of the form `0x<hex digits>`. Accepts exactly the
/// strings with that prefix whose hexadecimal value fits in a `u64`.
pub fn parse_window_id(s: &[u8]) -> (r: Option<u64>)
    ensures
        r is Some <==> (s@.len() >= 3 && s@[0] == 0x30 && s@[1] == 0x78 && all_digits_in(
            s@.skip(2),
            16,
        ) && radix_value(s@.skip(2), 16) <= u64::MAX),
        r matches Some(v) ==> v == radix_value(s@.skip(2), 16),
{
    let n = s.len();
    if n < 2 || s[0] != 0x30 || s[1] != 0x78 {
        return None;
    }
    let digits = slice_subrange(s, 2, n);
    proof {
        assert(digits@ =~= s@.skip(2));
    }
    parse_hex_u64(digits)
}

/// Parses the fade fraction. Accepts exactly the decimal literals that
/// denote a value within `[1/2, 1]` (and whose parts fit in a `u64`), and
/// returns the exact fraction.
pub fn parse_fade(s: &[u8]) -> (r: Option<Frac>)
    ensures
        r is Some <==> (decimal_wf(s@) && decimal_num(s@) <= u64::MAX && decimal_den(s@)
            <= u64::MAX && fade_in_range(decimal_num(s@), decimal_den(s@))),
        r matches Some(f) ==> f.num == decimal_num(s@) && f.den == decimal_den(s@) && f.wf()
            && f.small(),
{
    match parse_decimal(s) {
        Some((num, den)) => {
            if num <= den && den - num <= num {
                Some(Frac::new(num, den))
            } else {
                None
            }
        },
        None => None,
    }
}

/// Parses a decimal `usize` (for the backlog and the grid dimensions).
pub fn parse_usize(s: &[u8]) -> (r: Option<usize>)
    ensures
        r is Some <==> (1 <= s@.len() && all_digits_in(s@, 10) && radix_value(s@, 10)
            <= usize::MAX),
        r matches Some(v) ==> v == radix_value(s@, 10),
{
    match parse_u64(s) {
        Some(v) => {
            if v <= usize::MAX as u64 {
                Some(v as usize)
            } else {
                None
            }
        },
        None => {
            proof {
                if 1 <= s@.len() && all_digits_in(s@, 10) {
                    // the value did not fit in a u64, so not in a usize
                    // either
                    assert(usize::MAX <= u64::MAX);
                }
            }
            None
        },
    }
}

/// The grid geometry `{width}x{height}`, split at the first `x`: the
/// width's digits, whitespace around them tolerated.
pub open spec fn grid_width_part(s: Seq<u8>) -> Seq<u8> {
    trimmed(s.take(split_index(s, 0x78)))
}

/// The height's digits of a grid geometry: what stands after the `x`,
/// whitespace around it tolerated.
pub open spec fn grid_height_part(s: Seq<u8>) -> Seq<u8> {
    trimmed(s.skip(split_index(s, 0x78) + 1))
}

/// Parses a grid geometry `{width}x{height}` into the two cell counts.
/// Accepts exactly the strings with an `x` whose two sides are decimal
/// numbers (surrounding whitespace tolerated) that fit in a `usize`.
pub fn parse_grid(s: &[u8]) -> (r: Option<(usize, usize)>)
    ensures
        r is Some <==> (split_index(s@, 0x78) < s@.len() && {
            let w = grid_width_part(s@);
            let h = grid_height_part(s@);
            &&& 1 <= w.len() && all_digits_in(w, 10) && radix_value(w, 10) <= usize::MAX
            &&& 1 <= h.len() && all_digits_in(h, 10) && radix_value(h, 10) <= usize::MAX
        }),
        r matches Some(v) ==> v.0 == radix_value(grid_width_part(s@), 10) && v.1 == radix_value(
            grid_height_part(s@),
            10,
        ),
{
    let n = s.len();
    let sep = find_byte(s, 0x78);
    if sep >= n {
        return None;
    }
    let w_raw = slice_subrange(s, 0, sep);
    let h_raw = slice_subrange(s, sep + 1, n);
    proof {
        assert(w_raw@ =~= s@.take(split_index(s@, 0x78)));
        assert(h_raw@ =~= s@.skip(split_index(s@, 0x78) + 1));
    }
    let w_part = trim_spaces(w_raw);
    let h_part = trim_spaces(h_raw);
    let width = match parse_usize(w_part) {
        Some(v) => v,
        None => {
            return None;
        },
    };
    let height = match parse_usize(h_part) {
        Some(v) => v,
        None => {
            return None;
        },
    };
    Some((width, height))
}

} // verus!
