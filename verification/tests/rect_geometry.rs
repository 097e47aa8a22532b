//! Parsing X geometry strings into rectangles.

use zss::rect::{GeometryError, Rect};

#[test]
fn full_geometry_parses() {
    let r = Rect::parse_from_geometry("1920x1080+5+7").unwrap();
    assert_eq!(r.size, [1920, 1080]);
    assert_eq!(r.pos, [5, 7]);
}

#[test]
fn size_only_geometry_means_position_zero() {
    let r = Rect::parse_from_geometry("800x600").unwrap();
    assert_eq!(r.size, [800, 600]);
    assert_eq!(r.pos, [0, 0]);
}

#[test]
fn missing_size_separator() {
    assert_eq!(
        Rect::parse_from_geometry("1920").unwrap_err(),
        GeometryError::NoSizeSeparator
    );
}

#[test]
fn bad_width_and_height() {
    assert_eq!(
        Rect::parse_from_geometry("ax1080").unwrap_err(),
        GeometryError::BadWidth
    );
    assert_eq!(
        Rect::parse_from_geometry("x1080").unwrap_err(),
        GeometryError::BadWidth
    );
    assert_eq!(
        Rect::parse_from_geometry("1920xbad+1+2").unwrap_err(),
        GeometryError::BadHeight
    );
    // 2^32 does not fit a u32 coordinate
    assert_eq!(
        Rect::parse_from_geometry("4294967296x1080").unwrap_err(),
        GeometryError::BadWidth
    );
}

#[test]
fn missing_position_separator() {
    assert_eq!(
        Rect::parse_from_geometry("1x2+3").unwrap_err(),
        GeometryError::NoPosSeparator
    );
}

#[test]
fn bad_position_coordinates() {
    assert_eq!(
        Rect::parse_from_geometry("1x2+a+4").unwrap_err(),
        GeometryError::BadX
    );
    assert_eq!(
        Rect::parse_from_geometry("1x2+3+b").unwrap_err(),
        GeometryError::BadY
    );
}
