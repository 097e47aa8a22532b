//! Scroll direction and fitting.

use zss::geom::{scroll_dir, resize_size, FrameSize, ScrollDir};

#[test]
fn square_image_in_square_frame_stays_still() {
    assert_eq!(scroll_dir(500, 500, 1000, 1000), ScrollDir::Still);
}

#[test]
fn equal_aspect_ratios_stay_still() {
    assert_eq!(scroll_dir(1920, 1080, 3840, 2160), ScrollDir::Still);
}

#[test]
fn wide_image_in_narrow_frame_scrolls_horizontally() {
    assert_eq!(scroll_dir(3840, 1080, 1920, 1080), ScrollDir::Horizontal);
}

#[test]
fn tall_image_in_wide_frame_scrolls_vertically() {
    assert_eq!(scroll_dir(1080, 3840, 1920, 1080), ScrollDir::Vertical);
}

#[test]
fn ratio_tie_break_is_exact() {
    // both image and frame are landscape; only the exact rational
    // comparison decides: 1601/900 > 16/9 > 1599/900
    assert_eq!(scroll_dir(1601, 900, 1600, 900), ScrollDir::Horizontal);
    assert_eq!(scroll_dir(1599, 900, 1600, 900), ScrollDir::Vertical);
    assert_eq!(scroll_dir(1600, 900, 1600, 900), ScrollDir::Still);
}

#[test]
fn wide_scroll_image_needs_no_vertical_resize() {
    // the frame-height image that scrolls horizontally fits as it is
    assert_eq!(resize_size(3840, 1080, 1920, 1080), None);
}

#[test]
fn oversized_horizontal_scroller_shrinks_to_frame_height() {
    // image 4000x2000 in 1000x1000: scrolls horizontally, height halves
    // to 1000 and width scales proportionally to 2000
    assert_eq!(resize_size(4000, 2000, 1000, 1000), Some((2000, 1000)));
}

#[test]
fn oversized_vertical_scroller_shrinks_to_frame_width() {
    assert_eq!(resize_size(2000, 4000, 1000, 1000), Some((1000, 2000)));
}

#[test]
fn equal_aspect_oversize_shrinks_to_frame() {
    assert_eq!(resize_size(2000, 1000, 1000, 500), Some((1000, 500)));
}

#[test]
fn small_image_is_never_upscaled() {
    assert_eq!(resize_size(640, 480, 1920, 1080), None);
    assert_eq!(resize_size(100, 100, 1000, 1000), None);
}

#[test]
fn proportional_shrink_rounds_down() {
    // 999x500 in 100x100: vertical? 999*100 vs 100*500 -> horizontal;
    // height 500 > 100, width becomes 100*999/500 = 199 (rounded down)
    assert_eq!(resize_size(999, 500, 100, 100), Some((199, 100)));
}

#[test]
fn frame_size_fields() {
    let f = FrameSize { width: 1920, height: 1080 };
    assert_eq!(f.width, 1920);
    assert_eq!(f.height, 1080);
}

#[test]
fn grid_cells_divide_the_frame() {
    let f = FrameSize { width: 1920, height: 1080 };
    assert_eq!(f.cell(2, 2), Some(FrameSize { width: 960, height: 540 }));
    // rounds down
    assert_eq!(f.cell(7, 1), Some(FrameSize { width: 274, height: 1080 }));
    // a grid finer than the pixels leaves no cell
    assert_eq!(f.cell(1921, 1), None);
}
