use felt::tiling::{new_image_tiled, tile_sample};
use felt::{Raster, Rgba8};

/// A tile whose pixel at `(x, y)` has the red level `10 * x + y`.
fn tile(width: u32, height: u32) -> Raster {
    let mut bytes = Vec::new();
    for y in 0..height {
        for x in 0..width {
            bytes.extend_from_slice(&[(10 * x + y) as u8, x as u8, y as u8, 255]);
        }
    }
    Raster::from_raw(width, height, bytes).unwrap()
}

fn reds(raster: &Raster) -> Vec<u8> {
    let mut reds = Vec::new();
    for y in 0..raster.height() {
        for x in 0..raster.width() {
            reds.push(raster.get_pixel(x, y).unwrap().red);
        }
    }
    reds
}

#[test]
fn tiling_mirrors_columns_and_repeats_rows() {
    let out = new_image_tiled(&tile(3, 2), 8, 5);
    assert_eq!(out.width(), 8);
    assert_eq!(out.height(), 5);
    assert_eq!(
        reds(&out),
        vec![
            0, 10, 20, 20, 10, 0, 10, 20,
            1, 11, 21, 21, 11, 1, 11, 21,
            0, 10, 20, 20, 10, 0, 10, 20,
            1, 11, 21, 21, 11, 1, 11, 21,
            0, 10, 20, 20, 10, 0, 10, 20,
        ]
    );
}

#[test]
fn tiling_keeps_all_four_channels() {
    let out = new_image_tiled(&tile(3, 2), 4, 2);
    assert_eq!(out.get_pixel(3, 1), Some(Rgba8 { red: 21, green: 2, blue: 1, alpha: 255 }));
}

#[test]
fn tiling_a_single_pixel_gives_a_solid_raster() {
    let out = new_image_tiled(&tile(1, 1), 5, 4);
    assert_eq!(reds(&out), vec![0; 20]);
    assert_eq!(out.width(), 5);
    assert_eq!(out.height(), 4);
}

#[test]
fn tiling_to_no_pixels_gives_an_empty_raster() {
    let out = new_image_tiled(&tile(3, 2), 0, 0);
    assert_eq!(out.width(), 0);
    assert_eq!(out.height(), 0);
}

#[test]
fn column_x_shows_what_column_period_minus_x_shows() {
    let source = tile(4, 3);
    let out = new_image_tiled(&source, 7, 3);
    for x in 1..=6u32 {
        for y in 0..3u32 {
            assert_eq!(out.get_pixel(x, y), out.get_pixel(7 - x, y));
        }
    }
}

#[test]
fn columns_repeat_after_a_period() {
    let source = tile(4, 3);
    let out = new_image_tiled(&source, 30, 1);
    for x in 0..23u32 {
        assert_eq!(out.get_pixel(x, 0), out.get_pixel(x + 7, 0));
    }
}

#[test]
fn tile_sample_reads_far_columns() {
    let source = tile(3, 2);
    // 4294967295 mod 5 = 0, and 4294967295 mod 2 = 1
    assert_eq!(tile_sample(&source, u32::MAX, u32::MAX).red, 1);
    // 4294967294 mod 5 = 4, which counts back to column 1
    assert_eq!(tile_sample(&source, u32::MAX - 1, 0).red, 10);
}

#[test]
fn columns_x_and_two_widths_less_two_less_x_show_neighbours() {
    let source = tile(3, 1);
    let out = new_image_tiled(&source, 5, 1);
    // tile columns 0 1 2 2 1: column 0 shows tile column 0, column 4 tile column 1
    assert_eq!(out.get_pixel(0, 0).unwrap().red, 0);
    assert_eq!(out.get_pixel(4, 0).unwrap().red, 10);
    assert_eq!(out.get_pixel(1, 0).unwrap().red, 10);
    assert_eq!(out.get_pixel(3, 0).unwrap().red, 20);
    // the last tile column is its own partner
    assert_eq!(out.get_pixel(2, 0), out.get_pixel(2, 0));
    // on a tile whose columns agree the two columns show the same
    let flat = new_image_tiled(&tile(1, 2), 1, 2);
    assert_eq!(flat.get_pixel(0, 1).unwrap().red, 1);
    let mut bytes = Vec::new();
    for _ in 0..3 {
        bytes.extend_from_slice(&[9, 8, 7, 6]);
    }
    let even = new_image_tiled(&Raster::from_raw(3, 1, bytes).unwrap(), 5, 1);
    for x in 0..5u32 {
        assert_eq!(even.get_pixel(x, 0), even.get_pixel(4 - x, 0));
    }
}
