use termvideo::filter::FilterType;
use termvideo::geometry::get_new_size;
use termvideo::render::{get_color, half_block_rows, Cell, Rgb};

fn uniform_raster(w: usize, h: usize, rgba: [u8; 4]) -> Vec<u8> {
    let mut v = Vec::new();
    for _ in 0..w * h {
        v.extend_from_slice(&rgba);
    }
    v
}

#[test]
fn fit_square_source_to_wide_terminal() {
    assert_eq!(get_new_size((100, 100), (40, 30)), (40, 40));
}

#[test]
fn fit_limited_by_width_rounds_height() {
    assert_eq!(get_new_size((1920, 1080), (80, 24)), (80, 45));
}

#[test]
fn fit_limited_by_height_rounds_width() {
    // 640 * 40 / 480 = 53.33
    assert_eq!(get_new_size((640, 480), (100, 20)), (53, 40));
}

#[test]
fn fit_rounds_half_up() {
    // scale 2/4 on a 3-pixel side gives 1.5, rounded to 2
    assert_eq!(get_new_size((4, 3), (2, 10)), (2, 2));
}

#[test]
fn fit_never_gives_an_empty_side() {
    assert_eq!(get_new_size((1000, 1), (40, 30)), (40, 1));
    assert_eq!(get_new_size((10, 10), (0, 0)), (1, 1));
}

#[test]
fn red_raster_renders_as_red_half_blocks() {
    let frame = uniform_raster(10, 4, [255, 0, 0, 255]);
    let rows = half_block_rows(&frame, (10, 4));
    assert_eq!(rows.len(), 2);
    let red = Rgb { r: 255, g: 0, b: 0 };
    for row in &rows {
        assert_eq!(row.len(), 10);
        for cell in row {
            assert_eq!(*cell, Cell { top: red, bottom: Some(red) });
        }
    }
}

#[test]
fn odd_height_leaves_last_bottom_unset() {
    // 2 x 3 raster, pixel (x, y) has red = 10 * y + x
    let mut frame = Vec::new();
    for y in 0..3u8 {
        for x in 0..2u8 {
            frame.extend_from_slice(&[10 * y + x, 1, 2, 255]);
        }
    }
    let rows = half_block_rows(&frame, (2, 3));
    assert_eq!(rows.len(), 2);
    assert_eq!(rows[0][1].top, Rgb { r: 1, g: 1, b: 2 });
    assert_eq!(rows[0][1].bottom, Some(Rgb { r: 11, g: 1, b: 2 }));
    assert_eq!(rows[1][0].top, Rgb { r: 20, g: 1, b: 2 });
    assert_eq!(rows[1][0].bottom, None);
}

#[test]
fn color_below_the_picture_is_unset() {
    let frame = uniform_raster(3, 2, [1, 2, 3, 4]);
    assert_eq!(get_color(&frame, (3, 2), (2, 1)), Some(Rgb { r: 1, g: 2, b: 3 }));
    assert_eq!(get_color(&frame, (3, 2), (0, 2)), None);
}

#[test]
fn filter_keys_and_selectors() {
    assert_eq!(FilterType::from_key('1'), Some(FilterType::Nearest));
    assert_eq!(FilterType::from_key('2'), Some(FilterType::Bilinear));
    assert_eq!(FilterType::from_key('3'), Some(FilterType::Gaussian));
    assert_eq!(FilterType::from_key('4'), Some(FilterType::Lanczos));
    assert_eq!(FilterType::from_key('5'), Some(FilterType::Box));
    assert_eq!(FilterType::from_key('6'), None);
    assert_eq!(FilterType::Nearest.selector(), 0);
    assert_eq!(FilterType::Box.selector(), 4);
    assert_eq!(FilterType::Lanczos.selector(), 3);
}

#[test]
fn color_below_the_picture_reads_nothing() {
    assert_eq!(get_color(&Vec::new(), (3, 2), (7, 2)), None);
}

#[test]
fn color_from_a_longer_raster() {
    let mut frame = uniform_raster(2, 2, [9, 8, 7, 6]);
    frame.extend_from_slice(&[1, 1, 1, 1]);
    assert_eq!(get_color(&frame, (2, 2), (1, 1)), Some(Rgb { r: 9, g: 8, b: 7 }));
}
