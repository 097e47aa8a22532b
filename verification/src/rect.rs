//! A rectangle, and parsing one from an X geometry string.

use vstd::prelude::*;

use crate::parse::all_digits_in;
use crate::parse::find_byte;
use crate::parse::parse_u64;
use crate::parse::radix_value;
use crate::parse::split_index;
use vstd::slice::slice_subrange;
use vstd::string::StringSliceAdditionalSpecFns;

verus! {

/// A rectangle: a position and a size.
#[derive(Debug)]
pub struct Rect<T> {
    /// Position.
    pub pos: [T; 2],
    /// Size.
    pub size: [T; 2],
}

/// Why a geometry string was rejected, in the order the parts are read.
#[derive(Clone, Copy, Debug, PartialEq, Eq, Structural)]
pub enum GeometryError {
    /// No `x` between width and height.
    NoSizeSeparator,
    /// The width is not a decimal number that fits.
    BadWidth,
    /// The height is not a decimal number that fits.
    BadHeight,
    /// No `+` between the two position coordinates.
    NoPosSeparator,
    /// The x coordinate is not a decimal number that fits.
    BadX,
    /// The y coordinate is not a decimal number that fits.
    BadY,
}

/// A usable coordinate: a non-empty decimal string whose value fits in a
/// `u32`.
pub open spec fn coord_ok(part: Seq<u8>) -> bool {
    &&& 1 <= part.len()
    &&& all_digits_in(part, 10)
    &&& radix_value(part, 10) <= u32::MAX
}

/// The `{width}x{height}` half of a geometry: everything before the first
/// `+`.
pub open spec fn size_part(s: Seq<u8>) -> Seq<u8> {
    s.take(split_index(s, 0x2b))
}

/// The `{x}+{y}` half of a geometry: everything after the first `+`.
pub open spec fn pos_part(s: Seq<u8>) -> Seq<u8> {
    s.skip(split_index(s, 0x2b) + 1)
}

/// Whether the geometry has a position half at all.
pub open spec fn has_pos(s: Seq<u8>) -> bool {
    split_index(s, 0x2b) < s.len()
}

pub open spec fn width_part(s: Seq<u8>) -> Seq<u8> {
    size_part(s).take(split_index(size_part(s), 0x78))
}

pub open spec fn height_part(s: Seq<u8>) -> Seq<u8> {
    size_part(s).skip(split_index(size_part(s), 0x78) + 1)
}

pub open spec fn x_part(s: Seq<u8>) -> Seq<u8> {
    pos_part(s).take(split_index(pos_part(s), 0x2b))
}

pub open spec fn y_part(s: Seq<u8>) -> Seq<u8> {
    pos_part(s).skip(split_index(pos_part(s), 0x2b) + 1)
}

/// The whole geometry is well formed.
pub open spec fn geometry_wf(s: Seq<u8>) -> bool {
    &&& split_index(size_part(s), 0x78) < size_part(s).len()
    &&& coord_ok(width_part(s))
    &&& coord_ok(height_part(s))
    &&& has_pos(s) ==> {
        &&& split_index(pos_part(s), 0x2b) < pos_part(s).len()
        &&& coord_ok(x_part(s))
        &&& coord_ok(y_part(s))
    }
}

/// Parses one unsigned coordinate that must fit in a `u32`.
fn parse_coord(part: &[u8]) -> (r: Option<u32>)
    ensures
        r is Some <==> coord_ok(part@),
        r matches Some(v) ==> v == radix_value(part@, 10),
{
    match parse_u64(part) {
        Some(v) => {
            if v <= 0xffff_ffff {
                Some(v as u32)
            } else {
                None
            }
        },
        None => None,
    }
}

impl Rect<u32> {
    /// Parses a rect from a geometry, `{width}x{height}+{x}+{y}` or
    /// `{width}x{height}`; a geometry without a position half means
    /// position zero. Each error names the first part that is wrong, in
    /// reading order.
    pub fn parse_from_geometry(s: &str) -> (r: Result<Rect<u32>, GeometryError>)
        ensures
            r is Ok <==> geometry_wf(s.spec_bytes()),
            r matches Ok(rect) ==> {
                &&& rect.size[0] == radix_value(width_part(s.spec_bytes()), 10)
                &&& rect.size[1] == radix_value(height_part(s.spec_bytes()), 10)
                &&& has_pos(s.spec_bytes()) ==> rect.pos[0] == radix_value(
                    x_part(s.spec_bytes()),
                    10,
                ) && rect.pos[1] == radix_value(y_part(s.spec_bytes()), 10)
                &&& !has_pos(s.spec_bytes()) ==> rect.pos[0] == 0 && rect.pos[1] == 0
            },
            ({
                let b = s.spec_bytes();
                &&& r == Result::<Rect<u32>, GeometryError>::Err(GeometryError::NoSizeSeparator)
                    <==> !(split_index(size_part(b), 0x78) < size_part(b).len())
                &&& r == Result::<Rect<u32>, GeometryError>::Err(GeometryError::BadWidth) <==> (
                split_index(size_part(b), 0x78) < size_part(b).len() && !coord_ok(width_part(b)))
                &&& r == Result::<Rect<u32>, GeometryError>::Err(GeometryError::BadHeight) <==> (
                split_index(size_part(b), 0x78) < size_part(b).len() && coord_ok(width_part(b))
                    && !coord_ok(height_part(b)))
            }),
    {
        let bytes = s.as_bytes();
        let n = bytes.len();
        let plus = find_byte(bytes, 0x2b);
        let size = slice_subrange(bytes, 0, plus);
        proof {
            assert(size@ =~= size_part(s.spec_bytes()));
        }
        let xsep = find_byte(size, 0x78);
        if xsep >= size.len() {
            return Err(GeometryError::NoSizeSeparator);
        }
        let w_bytes = slice_subrange(size, 0, xsep);
        let h_bytes = slice_subrange(size, xsep + 1, size.len());
        proof {
            assert(w_bytes@ =~= width_part(s.spec_bytes()));
            assert(h_bytes@ =~= height_part(s.spec_bytes()));
        }
        let width = match parse_coord(w_bytes) {
            Some(v) => v,
            None => {
                return Err(GeometryError::BadWidth);
            },
        };
        let height = match parse_coord(h_bytes) {
            Some(v) => v,
            None => {
                return Err(GeometryError::BadHeight);
            },
        };
        if plus >= n {
            return Ok(Rect { pos: [0, 0], size: [width, height] });
        }
        let pos = slice_subrange(bytes, plus + 1, n);
        proof {
            assert(pos@ =~= pos_part(s.spec_bytes()));
        }
        let psep = find_byte(pos, 0x2b);
        if psep >= pos.len() {
            return Err(GeometryError::NoPosSeparator);
        }
        let x_bytes = slice_subrange(pos, 0, psep);
        let y_bytes = slice_subrange(pos, psep + 1, pos.len());
        proof {
            assert(x_bytes@ =~= x_part(s.spec_bytes()));
            assert(y_bytes@ =~= y_part(s.spec_bytes()));
        }
        let x = match parse_coord(x_bytes) {
            Some(v) => v,
            None => {
                return Err(GeometryError::BadX);
            },
        };
        let y = match parse_coord(y_bytes) {
            Some(v) => v,
            None => {
                return Err(GeometryError::BadY);
            },
        };
        Ok(Rect { pos: [x, y], size: [width, height] })
    }
}

} // verus!
