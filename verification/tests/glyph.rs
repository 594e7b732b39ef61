use felt::{Font, Glyph, Lettering, Point, Rect, RowHeight, Sample, Scale};

/// A font whose every letter is the same glyph.
struct Stamp {
    bounds: Rect,
    coverage: Vec<u8>,
}

impl Font for Stamp {
    fn glyph_id(&self, _letter: char) -> u32 {
        1
    }

    fn positioned(&self, _letter: char, _scale: Scale, _position: Point) -> Glyph {
        Glyph::new(self.bounds, self.coverage.clone()).unwrap()
    }

    fn advance_width(&self, _id: u32, _scale: Scale) -> i32 {
        0
    }

    fn pair_kerning(&self, _scale: Scale, _first: u32, _second: u32) -> i32 {
        0
    }
}

fn rect(min_x: i32, min_y: i32, max_x: i32, max_y: i32) -> Rect {
    Rect { min_x, min_y, max_x, max_y }
}

fn drawn(bounds: Rect, coverage: Vec<u8>) -> Vec<Sample> {
    let font = Stamp { bounds, coverage };
    let mut lettering = Lettering::new(RowHeight::new(1, 1).unwrap(), &font, &font);
    lettering.put_character('x');
    let lines = lettering.lines();
    let letters = lines[0].letters();
    letters[0].0.draw()
}

#[test]
fn glyph_needs_one_coverage_byte_for_each_pixel() {
    assert!(Glyph::new(rect(0, 0, 3, 2), vec![0; 6]).is_some());
    assert!(Glyph::new(rect(0, 0, 3, 2), vec![0; 5]).is_none());
    assert!(Glyph::new(rect(0, 0, 3, 2), vec![0; 7]).is_none());
    assert!(Glyph::new(rect(-4, -9, -1, -7), vec![0; 6]).is_some());
}

#[test]
fn glyph_needs_ordered_bounds() {
    assert!(Glyph::new(rect(3, 0, 0, 2), vec![]).is_none());
    assert!(Glyph::new(rect(0, 2, 3, 0), vec![]).is_none());
    assert!(Glyph::new(rect(1, 0, 0, 0), vec![]).is_none());
}

#[test]
fn glyph_may_have_empty_bounds() {
    let flat = Glyph::new(rect(2, 5, 2, 9), vec![]).unwrap();
    assert_eq!(flat.pixel_bounding_box(), Some(rect(2, 5, 2, 9)));
    assert!(Glyph::new(rect(2, 5, 2, 9), vec![1]).is_none());
}

#[test]
fn glyph_keeps_its_bounds() {
    let glyph = Glyph::new(rect(-1, -7, 2, -5), vec![9; 6]).unwrap();
    assert_eq!(glyph.pixel_bounding_box(), Some(rect(-1, -7, 2, -5)));
}

#[test]
fn glyph_bounds_may_span_the_whole_range() {
    let wide = Glyph::new(rect(i32::MIN, 0, i32::MAX, 0), vec![]).unwrap();
    assert_eq!(wide.pixel_bounding_box(), Some(rect(i32::MIN, 0, i32::MAX, 0)));
    assert!(Glyph::new(rect(i32::MIN, 0, i32::MAX, 1), vec![0; 16]).is_none());
}

#[test]
fn blank_glyph_has_no_bounds() {
    assert_eq!(Glyph::blank().pixel_bounding_box(), None);
}

#[test]
fn draw_goes_row_by_row_from_the_top_left() {
    let samples = drawn(rect(4, -2, 7, 0), vec![10, 20, 30, 40, 50, 60]);
    assert_eq!(
        samples,
        vec![
            Sample { x: 4, y: -2, coverage: 10 },
            Sample { x: 5, y: -2, coverage: 20 },
            Sample { x: 6, y: -2, coverage: 30 },
            Sample { x: 4, y: -1, coverage: 40 },
            Sample { x: 5, y: -1, coverage: 50 },
            Sample { x: 6, y: -1, coverage: 60 },
        ]
    );
}

#[test]
fn draw_of_a_single_column() {
    let samples = drawn(rect(-3, 1, -2, 4), vec![1, 2, 3]);
    assert_eq!(
        samples,
        vec![
            Sample { x: -3, y: 1, coverage: 1 },
            Sample { x: -3, y: 2, coverage: 2 },
            Sample { x: -3, y: 3, coverage: 3 },
        ]
    );
}

#[test]
fn draw_of_empty_bounds_gives_nothing() {
    assert_eq!(drawn(rect(2, 5, 2, 9), vec![]), vec![]);
    assert_eq!(drawn(rect(2, 5, 6, 5), vec![]), vec![]);
}
