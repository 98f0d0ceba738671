//! A scene as it is stored: the data rectangles, the search rectangle and
//! the indices of the data rectangles that the search rectangle hits.

use vstd::prelude::*;
use std::collections::HashSet;
use crate::rect::Rect;

verus! {

broadcast use vstd::std_specs::hash::group_hash_axioms;

/// The indices of the rectangles of `rects` that intersect `search`.
pub open spec fn hits(rects: Seq<Rect>, search: Rect) -> Set<usize> {
    Set::new(|i: usize| i < rects.len() && rects[i as int].intersects(search))
}

/// The indices that are hit when there is a search rectangle; none without one.
pub open spec fn hits_of(rects: Seq<Rect>, search: Option<Rect>) -> Set<usize> {
    match search {
        Some(rect) => hits(rects, rect),
        None => Set::empty(),
    }
}

/// A stored scene. `founded` holds positions in `data_rects`.
pub struct TestCase {
    pub data_rects: Vec<Rect>,
    pub search_rect: Rect,
    pub founded: HashSet<usize>,
}

impl TestCase {
    /// `founded` holds exactly the indices of the data rectangles that
    /// intersect the search rectangle.
    pub open spec fn is_consistent(&self) -> bool {
        self.founded@ == hits(self.data_rects@, self.search_rect)
    }

    /// The scene of the given rectangles, with the hit indices computed.
    pub fn new(data_rects: Vec<Rect>, search_rect: Rect) -> (case: TestCase)
        ensures
            case.data_rects@ == data_rects@,
            case.search_rect == search_rect,
            case.is_consistent(),
    {
        let founded = find_hits(&data_rects, &search_rect);
        TestCase { data_rects, search_rect, founded }
    }
}

/// Scans all the rectangles and collects the indices of those that
/// intersect `search`.
pub fn find_hits(rects: &Vec<Rect>, search: &Rect) -> (found: HashSet<usize>)
    ensures
        found@ == hits(rects@, *search),
{
    let mut found: HashSet<usize> = HashSet::new();
    let mut i: usize = 0;
    assert(found@ =~= hits(rects@.take(0), *search));
    while i < rects.len()
        invariant
            i <= rects.len(),
            found@ == hits(rects@.take(i as int), *search),
        decreases rects.len() - i,
    {
        if rects[i].intersects_with(search) {
            found.insert(i);
        }
        assert(found@ =~= hits(rects@.take(i + 1), *search));
        i += 1;
    }
    assert(rects@.take(rects.len() as int) =~= rects@);
    found
}

/// The hit indices are positions of the list.
pub proof fn hits_are_positions(rects: Seq<Rect>, search: Rect, i: usize)
    requires
        hits(rects, search).contains(i),
    ensures
        i < rects.len(),
        rects[i as int].intersects(search),
{
}

} // verus!
