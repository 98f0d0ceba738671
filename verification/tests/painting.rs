use rtree_test::color::{DATA_COLOR, DEFAULT_COLOR, FOUND_COLOR, SEARCH_COLOR};
use rtree_test::digit::Digit;
use rtree_test::painter::Painter;
use rtree_test::{Rect, TestCase};

const INK: u32 = 0x00123456;

fn pixel(painter: &Painter, x: usize, y: usize) -> u32 {
    painter.frame_buffer()[y * painter.width() + x]
}

fn count(painter: &Painter, color: u32) -> usize {
    painter.frame_buffer().iter().filter(|c| **c == color).count()
}

fn on_glyph(digit: u8, left: i64, top: i64, x: i64, y: i64) -> bool {
    let dx = x - left;
    let dy = y - top;
    if dx < 0 || dx >= 16 || dy < 0 || dy >= 16 {
        return false;
    }
    let mask = Digit::of(digit).0;
    (mask >> ((dy / 2) * 8 + dx / 2)) & 1 == 1
}

#[test]
fn a_new_canvas_is_blank() {
    let painter = Painter::new(7, 5);
    assert_eq!(painter.width(), 7);
    assert_eq!(painter.height(), 5);
    assert_eq!(painter.frame_buffer().len(), 35);
    assert!(painter.frame_buffer().iter().all(|c| *c == DEFAULT_COLOR));
    assert_eq!(Painter::clear_color(), 0x00ffffff);
}

#[test]
fn an_empty_canvas_has_no_pixels() {
    let painter = Painter::new(0, 9);
    assert_eq!(painter.frame_buffer().len(), 0);
    assert!(painter.rgb_bytes().is_empty());
}

#[test]
fn hline_paints_an_inclusive_run() {
    let mut painter = Painter::new(10, 6);
    painter.draw_hline(INK, 2, 5, 3);
    for y in 0..6 {
        for x in 0..10 {
            let expected = if y == 3 && (2..=5).contains(&x) { INK } else { DEFAULT_COLOR };
            assert_eq!(pixel(&painter, x, y), expected);
        }
    }
}

#[test]
fn hline_with_reversed_ends_paints_nothing() {
    let mut painter = Painter::new(10, 6);
    painter.draw_hline(INK, 5, 2, 3);
    painter.draw_vline(INK, 4, 1, 3);
    assert_eq!(count(&painter, INK), 0);
}

#[test]
fn vline_paints_an_inclusive_run() {
    let mut painter = Painter::new(10, 6);
    painter.draw_vline(INK, 1, 4, 9);
    for y in 0..6 {
        for x in 0..10 {
            let expected = if x == 9 && (1..=4).contains(&y) { INK } else { DEFAULT_COLOR };
            assert_eq!(pixel(&painter, x, y), expected);
        }
    }
}

#[test]
fn lines_reach_the_corners_of_the_canvas() {
    let mut painter = Painter::new(4, 3);
    painter.draw_hline(INK, 0, 3, 0);
    painter.draw_hline(INK, 0, 3, 2);
    painter.draw_vline(INK, 0, 2, 0);
    painter.draw_vline(INK, 0, 2, 3);
    assert_eq!(count(&painter, INK), 10);
    assert_eq!(pixel(&painter, 1, 1), DEFAULT_COLOR);
    assert_eq!(pixel(&painter, 2, 1), DEFAULT_COLOR);
}

#[test]
fn listed_pixels_are_painted() {
    let mut painter = Painter::new(5, 5);
    painter.draw_pixels(INK, &vec![(0, 0), (4, 4), (2, 1), (2, 1)]);
    assert_eq!(count(&painter, INK), 3);
    assert_eq!(pixel(&painter, 0, 0), INK);
    assert_eq!(pixel(&painter, 4, 4), INK);
    assert_eq!(pixel(&painter, 2, 1), INK);
    assert_eq!(pixel(&painter, 1, 2), DEFAULT_COLOR);
}

#[test]
fn filled_rect_leaves_out_its_bottom_and_right_edges() {
    let mut painter = Painter::new(10, 10);
    painter.draw_filled_rect(INK, &Rect { top: 2, left: 3, bottom: 5, right: 7 });
    for y in 0..10 {
        for x in 0..10 {
            let inside = (3..7).contains(&x) && (2..5).contains(&y);
            assert_eq!(pixel(&painter, x, y), if inside { INK } else { DEFAULT_COLOR });
        }
    }
    assert_eq!(count(&painter, INK), 12);
}

#[test]
fn filled_rects_side_by_side_share_no_pixel() {
    let mut painter = Painter::new(8, 4);
    painter.draw_filled_rect(1, &Rect { top: 0, left: 0, bottom: 4, right: 4 });
    painter.draw_filled_rect(2, &Rect { top: 0, left: 4, bottom: 4, right: 8 });
    assert_eq!(count(&painter, 1), 16);
    assert_eq!(count(&painter, 2), 16);
}

#[test]
fn filled_rect_without_area_paints_nothing() {
    let mut painter = Painter::new(8, 4);
    painter.draw_filled_rect(INK, &Rect { top: 1, left: 1, bottom: 1, right: 5 });
    painter.draw_filled_rect(INK, &Rect { top: 1, left: 5, bottom: 3, right: 5 });
    painter.draw_filled_rect(INK, &Rect { top: 3, left: 5, bottom: 1, right: 1 });
    assert_eq!(count(&painter, INK), 0);
}

#[test]
fn hollow_rect_paints_the_four_border_lines() {
    let mut painter = Painter::new(10, 10);
    let rect = Rect { top: 2, left: 1, bottom: 6, right: 8 };
    painter.draw_hollow_rect(INK, &rect);
    for y in 0..10i64 {
        for x in 0..10i64 {
            let in_x = (1..=8).contains(&x);
            let in_y = (2..=6).contains(&y);
            let border = (in_x && (y == 2 || y == 6)) || (in_y && (x == 1 || x == 8));
            assert_eq!(pixel(&painter, x as usize, y as usize), if border { INK } else { DEFAULT_COLOR });
        }
    }
}

#[test]
fn hollow_rect_is_erased_by_painting_it_in_the_background() {
    let mut painter = Painter::new(10, 10);
    let rect = Rect { top: 2, left: 1, bottom: 6, right: 8 };
    painter.draw_hollow_rect(INK, &rect);
    painter.draw_hollow_rect(Painter::clear_color(), &rect);
    assert!(painter.frame_buffer().iter().all(|c| *c == DEFAULT_COLOR));
}

#[test]
fn hollow_rect_of_a_click_is_one_pixel() {
    let mut painter = Painter::new(10, 10);
    painter.draw_hollow_rect(INK, &Rect { top: 4, left: 4, bottom: 4, right: 4 });
    assert_eq!(count(&painter, INK), 1);
    assert_eq!(pixel(&painter, 4, 4), INK);
}

#[test]
fn one_digit_is_centred_on_the_point() {
    let mut painter = Painter::new(40, 30);
    painter.draw_num(INK, 20, 15, 7);
    let mut painted = 0;
    for y in 0..30i64 {
        for x in 0..40i64 {
            let expected = on_glyph(7, 12, 7, x, y);
            if expected {
                painted += 1;
            }
            assert_eq!(pixel(&painter, x as usize, y as usize), if expected { INK } else { DEFAULT_COLOR });
        }
    }
    // the glyph of 7 has 19 dots of four pixels each
    assert_eq!(painted, 76);
}

#[test]
fn zero_is_painted_as_one_glyph() {
    let mut painter = Painter::new(16, 16);
    painter.draw_num(INK, 8, 8, 0);
    for y in 0..16i64 {
        for x in 0..16i64 {
            let expected = on_glyph(0, 0, 0, x, y);
            assert_eq!(pixel(&painter, x as usize, y as usize), if expected { INK } else { DEFAULT_COLOR });
        }
    }
    // row 0 of the glyph is 0x3c: dots in columns 2 to 5
    assert_eq!(pixel(&painter, 3, 0), DEFAULT_COLOR);
    assert_eq!(pixel(&painter, 4, 0), INK);
    assert_eq!(pixel(&painter, 11, 1), INK);
    assert_eq!(pixel(&painter, 12, 0), DEFAULT_COLOR);
}

#[test]
fn the_most_significant_digit_is_leftmost() {
    let mut painter = Painter::new(100, 40);
    painter.draw_num(INK, 50, 20, 120);
    for y in 0..40i64 {
        for x in 0..100i64 {
            let expected = on_glyph(1, 26, 12, x, y) || on_glyph(2, 42, 12, x, y) || on_glyph(0, 58, 12, x, y);
            assert_eq!(pixel(&painter, x as usize, y as usize), if expected { INK } else { DEFAULT_COLOR });
        }
    }
}

#[test]
fn indexed_rect_has_its_index_in_the_middle() {
    let mut painter = Painter::new(100, 60);
    let rect = Rect { top: 10, left: 20, bottom: 50, right: 81 };
    painter.draw_indexed_rect(&rect, INK, 3);
    // middle: x = 20 + 61 / 2 = 50, y = 10 + 40 / 2 = 30
    for y in 0..60i64 {
        for x in 0..100i64 {
            let in_x = (20..=81).contains(&x);
            let in_y = (10..=50).contains(&y);
            let border = (in_x && (y == 10 || y == 50)) || (in_y && (x == 20 || x == 81));
            let expected = border || on_glyph(3, 42, 22, x, y);
            assert_eq!(pixel(&painter, x as usize, y as usize), if expected { INK } else { DEFAULT_COLOR });
        }
    }
}

#[test]
fn a_stored_scene_is_painted_in_its_colours() {
    let data = vec![
        Rect { top: 10, left: 10, bottom: 40, right: 40 },
        Rect { top: 50, left: 50, bottom: 90, right: 90 },
    ];
    let case = TestCase::new(data, Rect { top: 30, left: 30, bottom: 45, right: 45 });
    let mut painter = Painter::new(100, 100);
    assert!(painter.can_draw_rects(&case.data_rects));
    assert!(painter.can_draw_hollow_rect(&case.search_rect));
    painter.draw_test_case(&case);
    assert_eq!(pixel(&painter, 10, 10), FOUND_COLOR);
    assert_eq!(pixel(&painter, 20, 40), FOUND_COLOR);
    assert_eq!(pixel(&painter, 50, 50), DATA_COLOR);
    assert_eq!(pixel(&painter, 90, 70), DATA_COLOR);
    assert_eq!(pixel(&painter, 30, 30), SEARCH_COLOR);
    assert_eq!(pixel(&painter, 45, 45), SEARCH_COLOR);
    // the search rectangle is painted last, over the border it crosses
    assert_eq!(pixel(&painter, 40, 30), SEARCH_COLOR);
    assert_eq!(pixel(&painter, 40, 31), FOUND_COLOR);
    assert_eq!(pixel(&painter, 1, 1), DEFAULT_COLOR);
}

#[test]
fn the_image_has_three_bytes_a_pixel() {
    let mut painter = Painter::new(3, 2);
    painter.draw_hline(0x00112233, 1, 2, 0);
    painter.draw_hline(0x00fffefd, 0, 0, 1);
    let bytes = painter.rgb_bytes();
    assert_eq!(
        bytes,
        vec![
            255, 255, 255, 0x11, 0x22, 0x33, 0x11, 0x22, 0x33, 0xff, 0xfe, 0xfd, 255, 255, 255, 255, 255,
            255
        ]
    );
}

#[test]
fn what_lies_outside_the_canvas_cannot_be_painted() {
    let painter = Painter::new(100, 60);
    assert!(painter.contains_pixel(0, 0));
    assert!(painter.contains_pixel(99, 59));
    assert!(!painter.contains_pixel(100, 0));
    assert!(!painter.contains_pixel(0, 60));
    assert!(!painter.contains_pixel(-1, 0));
    assert!(painter.can_draw_hline(0, 99, 59));
    assert!(!painter.can_draw_hline(0, 100, 59));
    assert!(painter.can_draw_hline(500, 100, 700));
    assert!(painter.can_draw_vline(0, 59, 99));
    assert!(!painter.can_draw_vline(-1, 59, 99));
    assert!(painter.can_draw_filled_rect(&Rect { top: 0, left: 0, bottom: 60, right: 100 }));
    assert!(!painter.can_draw_filled_rect(&Rect { top: 0, left: 0, bottom: 61, right: 100 }));
    assert!(painter.can_draw_filled_rect(&Rect { top: 70, left: 0, bottom: 70, right: 200 }));
    assert!(painter.can_draw_hollow_rect(&Rect { top: 0, left: 0, bottom: 59, right: 99 }));
    assert!(!painter.can_draw_hollow_rect(&Rect { top: 0, left: 0, bottom: 60, right: 99 }));
    // the glyphs leave their first and last columns blank
    assert!(painter.can_draw_num(8, 8, 9));
    assert!(painter.can_draw_num(6, 8, 9));
    assert!(!painter.can_draw_num(5, 8, 9));
    assert!(!painter.can_draw_num(8, 7, 9));
    assert!(!painter.can_draw_num(8, 8, 10));
    assert!(painter.can_draw_num(16, 8, 10));
    assert!(painter.can_draw_num(86, 52, 10));
    assert!(!painter.can_draw_num(87, 52, 10));
    assert!(!painter.can_draw_num(86, 53, 10));
    assert!(!painter.can_draw_num(i64::MIN, 8, 1));
    assert!(!painter.can_draw_num(i64::MAX, 8, 1));
    assert!(painter.can_draw_indexed_rect(&Rect { top: 0, left: 0, bottom: 16, right: 16 }, 0));
    assert!(!painter.can_draw_indexed_rect(&Rect { top: 0, left: 0, bottom: 14, right: 16 }, 0));
}

#[test]
fn a_numeral_can_be_painted_where_all_its_dots_are_inside() {
    let painter = Painter::new(40, 30);
    for num in [0usize, 1, 4, 7, 10, 42] {
        let digits: Vec<u8> = rtree_test::digit::num_to_digits(num).into_iter().rev().collect();
        let n = digits.len() as i64;
        for y in -4..40i64 {
            for x in -4..60i64 {
                let mut inside = true;
                for py in (y - 8)..(y + 8) {
                    for px in (x - 8 * n)..(x + 8 * n) {
                        let k = (px - (x - 8 * n)) / 16;
                        let lit = on_glyph(digits[k as usize], x - 8 * n + 16 * k, y - 8, px, py);
                        if lit && !(0 <= px && px < 40 && 0 <= py && py < 30) {
                            inside = false;
                        }
                    }
                }
                assert_eq!(painter.can_draw_num(x, y, num), inside);
            }
        }
    }
}

#[test]
fn a_numeral_is_painted_up_to_the_edge() {
    let mut painter = Painter::new(14, 16);
    // the glyph of 1 has its dots in columns 3 to 6: pixels 6 to 13 of its box
    painter.draw_num(INK, 8, 8, 1);
    for y in 0..16i64 {
        for x in 0..14i64 {
            let expected = on_glyph(1, 0, 0, x, y);
            assert_eq!(pixel(&painter, x as usize, y as usize), if expected { INK } else { DEFAULT_COLOR });
        }
    }
    assert_eq!(pixel(&painter, 13, 15), INK);
}
