use felt::border::composite_borders;
use felt::{Background, Board, Border, Font, Glyph, Point, Raster, Rect, Rgba8, Scale, TextureError};

/// Subpixel units to a pixel, as this font counts them.
const UNIT: i64 = 64;

/// A font of boxes. Every letter but the space is `wide` by `high` pixels
/// with the same `coverage` all over, and stands on the baseline at the pen.
struct Boxes {
    wide: i32,
    high: i32,
    coverage: u8,
    step: i32,
}

impl Font for Boxes {
    fn glyph_id(&self, letter: char) -> u32 {
        letter as u32
    }

    fn positioned(&self, letter: char, _scale: Scale, position: Point) -> Glyph {
        if letter == ' ' {
            return Glyph::blank();
        }
        let x = position.x.div_euclid(UNIT) as i32;
        let bounds = Rect { min_x: x, min_y: -self.high, max_x: x + self.wide, max_y: 0 };
        Glyph::new(bounds, vec![self.coverage; (self.wide * self.high) as usize]).unwrap()
    }

    fn advance_width(&self, _id: u32, _scale: Scale) -> i32 {
        self.step
    }

    fn pair_kerning(&self, _scale: Scale, first: u32, second: u32) -> i32 {
        if first == 'l' as u32 && second == 'l' as u32 {
            -(UNIT as i32)
        } else {
            0
        }
    }
}

fn main_font() -> Boxes {
    Boxes { wide: 2, high: 3, coverage: 200, step: 128 }
}

fn shade_font() -> Boxes {
    Boxes { wide: 3, high: 4, coverage: 120, step: 7 }
}

/// A texture whose pixels all differ from their neighbours.
fn texture(width: u32, height: u32) -> Raster {
    let mut bytes = Vec::new();
    for y in 0..height {
        for x in 0..width {
            bytes.extend_from_slice(&[(7 * x + 3 * y) as u8, (5 * x) as u8, (11 * y) as u8, 255]);
        }
    }
    Raster::from_raw(width, height, bytes).unwrap()
}

fn solid(width: u32, height: u32, pixel: [u8; 4]) -> Raster {
    let mut bytes = Vec::new();
    for _ in 0..width * height {
        bytes.extend_from_slice(&pixel);
    }
    Raster::from_raw(width, height, bytes).unwrap()
}

fn pixels(raster: &Raster) -> Vec<Rgba8> {
    let mut pixels = Vec::new();
    for y in 0..raster.height() {
        for x in 0..raster.width() {
            pixels.push(raster.get_pixel(x, y).unwrap());
        }
    }
    pixels
}

fn assert_images_equal(expected: &Raster, image: &Raster) {
    assert_eq!(expected.width(), image.width());
    assert_eq!(expected.height(), image.height());
    for y in 0..expected.height() {
        for x in 0..expected.width() {
            assert_eq!(
                expected.get_pixel(x, y),
                image.get_pixel(x, y),
                "Pixels differ at ({}, {})",
                x,
                y
            );
        }
    }
}

fn default_board() -> Board<Boxes> {
    let background = Background::open(texture(32, 32), 2).ok().unwrap();
    let border = Border::open(texture(3, 3));
    assert!(border.frames(&background));
    Board::new(background, Some(border), main_font(), shade_font())
}

fn over(bg: u8, fg: u8, alpha: u8) -> u8 {
    ((bg as u32 * (255 - alpha as u32) + fg as u32 * alpha as u32) / 255) as u8
}

/// Blends a box of ink over `canvas`, which is `width` pixels wide.
fn ink(canvas: &mut Vec<Rgba8>, width: i64, x: (i64, i64), y: (i64, i64), level: u8, alpha: u8) {
    let height = canvas.len() as i64 / width;
    for row in y.0..y.1 {
        for column in x.0..x.1 {
            if 0 <= column && column < width && 0 <= row && row < height {
                let p = &mut canvas[(row * width + column) as usize];
                p.red = over(p.red, level, alpha);
                p.green = over(p.green, level, alpha);
                p.blue = over(p.blue, level, alpha);
            }
        }
    }
}

#[test]
fn background_needs_rows() {
    assert_eq!(Background::open(texture(8, 8), 0).err(), Some(TextureError::NoRows));
    assert_eq!(Background::open(texture(1, 1), 0).err(), Some(TextureError::NoRows));
}

#[test]
fn background_needs_a_texture_of_two_by_two() {
    assert_eq!(Background::open(texture(1, 8), 4).err(), Some(TextureError::TooSmall));
    assert_eq!(Background::open(texture(8, 1), 4).err(), Some(TextureError::TooSmall));
    assert_eq!(Background::open(texture(0, 0), 4).err(), Some(TextureError::TooSmall));
    assert!(Background::open(texture(2, 2), 4).is_ok());
}

#[test]
fn background_is_twice_the_halved_texture() {
    let background = Background::open(texture(9, 7), 3).ok().unwrap();
    assert_eq!(background.image().width(), 8);
    assert_eq!(background.image().height(), 6);
    let even = Background::open(texture(10, 4), 3).ok().unwrap();
    assert_eq!(even.image().width(), 10);
    assert_eq!(even.image().height(), 4);
}

#[test]
fn background_counts_the_rows_to_the_tile() {
    let background = Background::open(texture(9, 7), 5).ok().unwrap();
    assert_eq!(background.row_height().numer(), 3);
    assert_eq!(background.row_height().denom(), 5);
    let board = Background::open(texture(64, 64), 16).ok().unwrap();
    assert_eq!(board.row_height().numer(), 32);
    assert_eq!(board.row_height().denom(), 16);
}

#[test]
fn background_is_a_mirrored_tiling() {
    let background = Background::open(texture(12, 10), 3).ok().unwrap();
    let image = background.image();
    // the tile is 6 by 5: columns 0..6 forwards, then columns 5..1 backwards
    for y in 0..10u32 {
        for x in 1..=10u32 {
            assert_eq!(image.get_pixel(x, y), image.get_pixel(11 - x, y));
        }
        assert_eq!(image.get_pixel(11, y), image.get_pixel(0, y));
    }
    for y in 0..5u32 {
        for x in 0..12u32 {
            assert_eq!(image.get_pixel(x, y), image.get_pixel(x, y + 5));
        }
    }
}

#[test]
fn border_keeps_its_tile() {
    let border = Border::open(texture(3, 4));
    assert_eq!(pixels(border.image()), pixels(&texture(3, 4)));
    assert_eq!(border.image().width(), 3);
    assert_eq!(border.image().height(), 4);
}

#[test]
fn border_frames_square_backgrounds() {
    let square = Background::open(texture(8, 8), 2).ok().unwrap();
    let wide = Background::open(texture(12, 8), 2).ok().unwrap();
    let tall = Background::open(texture(8, 12), 2).ok().unwrap();
    assert!(Border::open(texture(3, 3)).frames(&square));
    assert!(!Border::open(texture(3, 3)).frames(&wide));
    assert!(!Border::open(texture(3, 3)).frames(&tall));
    let none = Border::open(Raster::from_raw(0, 0, vec![]).unwrap());
    assert!(none.frames(&wide));
    assert!(none.frames(&tall));
}

#[test]
fn board_keeps_what_it_is_made_of() {
    let board = default_board();
    assert_eq!(board.background().image().width(), 32);
    assert_eq!(pixels(board.border().unwrap().image()), pixels(&texture(3, 3)));
    let plain = Board::new(
        Background::open(texture(8, 8), 2).ok().unwrap(),
        None,
        main_font(),
        shade_font(),
    );
    assert!(plain.border().is_none());
}

#[test]
fn write_phrase_puts_every_character() {
    let board = default_board();
    let lettered = board.write_phrase("ab\n\nc d");
    let lettering = lettered.lettering();
    assert_eq!(lettering.height(), 3);
    let lines = lettering.lines();
    assert_eq!(lines[0].letters().len(), 4);
    assert_eq!(lines[1].letters().len(), 0);
    assert_eq!(lines[2].letters().len(), 6);
    assert_eq!(lines[0].cursor().position, Point { x: 256, y: 0 });
    assert_eq!(lines[0].cursor().last, Some('b' as u32));
    assert_eq!(lines[2].cursor().position, Point { x: 384, y: 0 });
    assert_eq!(lines[2].width(), 7);
}

#[test]
fn write_phrase_of_nothing_is_one_empty_line() {
    let board = default_board();
    let lettered = board.write_phrase("");
    assert_eq!(lettered.lettering().height(), 1);
    assert_eq!(lettered.lettering().lines()[0].letters().len(), 0);
    assert_eq!(lettered.lettering().lines()[0].width(), 0);
}

#[test]
fn empty_board() {
    let board = default_board();
    let image = board.write_phrase("").render();
    let expected = composite_borders(board.background().image(), &texture(3, 3));
    assert_eq!(image.width(), 38);
    assert_eq!(image.height(), 38);
    assert_images_equal(&expected, &image);
}

#[test]
fn empty_phrase_on_a_solid_board_is_the_background() {
    let background = Background::open(solid(2, 2, [40, 80, 120, 255]), 16).ok().unwrap();
    let board = Board::new(background, None, main_font(), shade_font());
    let image = board.write_phrase("").render();
    assert_eq!(image.width(), 2);
    assert_eq!(image.height(), 2);
    assert_images_equal(board.background().image(), &image);
    let first = image.get_pixel(0, 0);
    for p in pixels(&image) {
        assert_eq!(Some(p), first);
    }
}

#[test]
fn blank_phrases_leave_the_background() {
    let board = default_board();
    let expected = composite_borders(board.background().image(), &texture(3, 3));
    for phrase in [" ", "   ", "\n", " \n \n"] {
        let image = board.write_phrase(phrase).render();
        assert_images_equal(&expected, &image);
    }
}

#[test]
fn hello_world() {
    let board = default_board();
    let image = board.write_phrase("hello, world!").render();

    // The pen moves two pixels past each letter, and one pixel less past
    // the second "l" of "ll". The row height is 16 / 2 = 8 pixels, so the
    // baseline of the one line is at 32 / 2 - 32 / 2 + 32 = 32.
    let pens: [i64; 13] = [0, 2, 4, 6, 7, 9, 11, 13, 15, 17, 19, 21, 23];
    let width = 23 + 3;
    let left = (32 - width) / 2;
    let top = 32;
    let mut canvas = pixels(board.background().image());
    for (letter, pen) in "hello, world!".chars().zip(pens) {
        if letter != ' ' {
            ink(&mut canvas, 32, (left + pen, left + pen + 2), (top - 3, top), 245, 200);
            ink(&mut canvas, 32, (left + pen, left + pen + 3), (top - 4, top), 180, 120);
        }
    }

    let tile = texture(3, 3);
    assert_eq!(image.width(), 38);
    assert_eq!(image.height(), 38);
    for y in 0..38u32 {
        for x in 0..38u32 {
            let expected = if x < 3 && x < y && x < 38 - y {
                tile.get_pixel(x, y % 3)
            } else if y < 3 && y <= x && y < 38 - x {
                tile.get_pixel(y, 2 - x % 3)
            } else if x >= 35 && x > y {
                tile.get_pixel(x - 35, y % 3)
            } else if y >= 35 && y >= x {
                tile.get_pixel(y - 35, 2 - x % 3)
            } else {
                Some(canvas[((y - 3) * 32 + (x - 3)) as usize])
            };
            assert_eq!(image.get_pixel(x, y), expected, "Pixels differ at ({}, {})", x, y);
        }
    }
    assert_ne!(pixels(board.background().image()), canvas);
}

#[test]
fn each_line_is_centred_on_its_own_width() {
    let background = Background::open(texture(40, 40), 5).ok().unwrap();
    let board = Board::new(background, None, main_font(), shade_font());
    let image = board.write_phrase("abcd\nx").render();

    // The row height is 20 / 5 = 4 pixels and a line is four rows: the
    // block of two lines is 32 pixels high and centred, so the baselines
    // are at 20 - 16 + 16 = 20 and at 36.
    let mut canvas = pixels(board.background().image());
    let first_left = (40 - 9) / 2;
    for pen in [0, 2, 4, 6] {
        ink(&mut canvas, 40, (first_left + pen, first_left + pen + 2), (17, 20), 245, 200);
        ink(&mut canvas, 40, (first_left + pen, first_left + pen + 3), (16, 20), 180, 120);
    }
    let second_left = (40 - 3) / 2;
    ink(&mut canvas, 40, (second_left, second_left + 2), (33, 36), 245, 200);
    ink(&mut canvas, 40, (second_left, second_left + 3), (32, 36), 180, 120);
    assert_eq!(pixels(&image), canvas);
}

#[test]
fn lines_beyond_the_canvas_are_clipped() {
    let background = Background::open(texture(8, 8), 1).ok().unwrap();
    let board = Board::new(background, None, main_font(), shade_font());
    let image = board.write_phrase("abcdefgh\n\n\nx").render();

    // The row height is 4 pixels: four lines make a block of 64 pixels
    // around the centre of a canvas of 8, with baselines at -12, 4, 20, 36.
    // The first line is 17 pixels wide and starts at (8 - 17) / 2 = -4.
    let mut canvas = pixels(board.background().image());
    ink(&mut canvas, 8, (-100, 100), (-15, -12), 245, 200);
    assert_eq!(pixels(&image), canvas);
    assert_eq!(pixels(&image), pixels(board.background().image()));

    let one = board.write_phrase("abcdefgh").render();
    // One line: the baseline is at 4 - 8 + 16 = 12, below the canvas, and
    // the shadows reach up to row 8.
    assert_eq!(pixels(&one), pixels(board.background().image()));

    let low = Background::open(texture(8, 8), 2).ok().unwrap();
    let low_board = Board::new(low, None, main_font(), shade_font());
    let lettered = low_board.write_phrase("abcdefgh").render();
    // The row height is 2 pixels: the baseline is at 4 - 4 + 8 = 8.
    let mut expected = pixels(low_board.background().image());
    for pen in [0, 2, 4, 6, 8, 10, 12, 14] {
        ink(&mut expected, 8, (-4 + pen, -4 + pen + 2), (5, 8), 245, 200);
        ink(&mut expected, 8, (-4 + pen, -4 + pen + 3), (4, 8), 180, 120);
    }
    assert_eq!(pixels(&lettered), expected);
}

#[test]
fn render_can_be_repeated() {
    let board = default_board();
    let before = pixels(board.background().image());
    let lettered = board.write_phrase("hi");
    let first = lettered.render();
    let second = lettered.render();
    assert_images_equal(&first, &second);
    assert_eq!(pixels(board.background().image()), before);
    let again = board.write_phrase("hi").render();
    assert_images_equal(&first, &again);
}
