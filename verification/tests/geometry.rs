use rtree_test::case::find_hits;
use rtree_test::{Rect, TestCase};

fn rect(top: i64, left: i64, bottom: i64, right: i64) -> Rect {
    Rect { top, left, bottom, right }
}

#[test]
fn overlapping_rects_intersect() {
    let a = rect(0, 0, 10, 10);
    let b = rect(5, 5, 15, 15);
    assert!(a.intersects_with(&b));
    assert!(b.intersects_with(&a));
}

#[test]
fn rects_touching_at_a_corner_do_not_intersect() {
    let a = rect(0, 0, 10, 10);
    let b = rect(10, 10, 20, 20);
    assert!(!a.intersects_with(&b));
    assert!(!b.intersects_with(&a));
}

#[test]
fn rects_sharing_an_edge_do_not_intersect() {
    let a = rect(0, 0, 10, 10);
    let right_of = rect(0, 10, 10, 20);
    let below = rect(10, 0, 20, 10);
    assert!(!a.intersects_with(&right_of));
    assert!(!right_of.intersects_with(&a));
    assert!(!a.intersects_with(&below));
    assert!(!below.intersects_with(&a));
}

#[test]
fn rect_inside_another_intersects() {
    let outer = rect(0, 0, 100, 100);
    let inner = rect(40, 40, 60, 60);
    assert!(outer.intersects_with(&inner));
    assert!(inner.intersects_with(&outer));
    assert!(outer.intersects_with(&outer));
}

#[test]
fn rect_without_area_intersects_nothing() {
    let point = rect(5, 5, 5, 5);
    let line = rect(2, 2, 2, 8);
    let big = rect(0, 0, 10, 10);
    assert!(!point.intersects_with(&big));
    assert!(!big.intersects_with(&point));
    assert!(!point.intersects_with(&point));
    assert!(!line.intersects_with(&big));
    assert!(!line.intersects_with(&line));
}

#[test]
fn inverted_rect_is_computed_not_rejected() {
    let inverted = rect(10, 10, 0, 0);
    let big = rect(0, 0, 10, 10);
    assert!(!inverted.intersects_with(&big));
    assert!(!big.intersects_with(&inverted));
}

#[test]
fn intersection_is_symmetric_on_a_grid_of_rects() {
    let mut rects = Vec::new();
    for top in [-3i64, 0, 4] {
        for left in [-2i64, 1, 5] {
            for size in [0i64, 1, 4, 9] {
                rects.push(rect(top, left, top + size, left + size));
            }
        }
    }
    for a in rects.iter() {
        for b in rects.iter() {
            assert_eq!(a.intersects_with(b), b.intersects_with(a));
        }
    }
}

#[test]
fn extreme_coordinates_do_not_overflow() {
    let all = rect(i64::MIN, i64::MIN, i64::MAX, i64::MAX);
    let unit = rect(0, 0, 1, 1);
    assert!(all.intersects_with(&unit));
    assert!(all.intersects_with(&all));
}

#[test]
fn normalize_sorts_the_edges_whatever_the_direction() {
    let expected = rect(20, 10, 40, 30);
    assert_eq!(Rect::normalize((10, 20), (30, 40)), expected);
    assert_eq!(Rect::normalize((30, 40), (10, 20)), expected);
    assert_eq!(Rect::normalize((30, 20), (10, 40)), expected);
    assert_eq!(Rect::normalize((10, 40), (30, 20)), expected);
}

#[test]
fn normalize_of_a_click_has_no_area() {
    assert_eq!(Rect::normalize((7, 9), (7, 9)), rect(9, 7, 9, 7));
}

#[test]
fn overlapping_search_finds_the_rect() {
    let data = vec![rect(0, 0, 10, 10)];
    let found = find_hits(&data, &rect(5, 5, 15, 15));
    assert_eq!(found.len(), 1);
    assert!(found.contains(&0));
}

#[test]
fn search_touching_at_a_corner_finds_nothing() {
    let data = vec![rect(0, 0, 10, 10)];
    let found = find_hits(&data, &rect(10, 10, 20, 20));
    assert!(found.is_empty());
}

#[test]
fn find_hits_gives_positions_in_the_list() {
    let data = vec![rect(0, 0, 10, 10), rect(50, 50, 60, 60), rect(8, 8, 12, 12), rect(9, 9, 9, 9)];
    let found = find_hits(&data, &rect(5, 5, 15, 15));
    assert_eq!(found.len(), 2);
    assert!(found.contains(&0));
    assert!(found.contains(&2));
}

#[test]
fn new_case_computes_what_is_found() {
    let case = TestCase::new(vec![rect(0, 0, 10, 10), rect(20, 20, 30, 30)], rect(25, 25, 40, 40));
    assert_eq!(case.data_rects, vec![rect(0, 0, 10, 10), rect(20, 20, 30, 30)]);
    assert_eq!(case.search_rect, rect(25, 25, 40, 40));
    assert_eq!(case.founded.len(), 1);
    assert!(case.founded.contains(&1));
}
