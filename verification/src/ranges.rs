//! The overlap test on lists of offset ranges.

use std::ops::Range;
use vstd::prelude::*;

verus! {

/// Whether two ranges meet when both are read as closed intervals: ranges that
/// only share an endpoint meet.
pub open spec fn ranges_touch(a: Range<usize>, b: Range<usize>) -> bool {
    a.end >= b.start && b.end >= a.start
}

/// Whether the start offsets of `ranges` never decrease. Every list of sorted,
/// non-overlapping ranges is ordered in this way.
pub open spec fn sorted_by_start(ranges: Seq<Range<usize>>) -> bool {
    forall|i: int, j: int| 0 <= i <= j < ranges.len() ==> ranges[i].start <= ranges[j].start
}

/// Whether some range of `a` at or after position `i` touches some range of `b`
/// at or after position `j`.
pub open spec fn any_touch_from(
    a: Seq<Range<usize>>,
    b: Seq<Range<usize>>,
    i: int,
    j: int,
) -> bool {
    exists|x: int, y: int|
        i <= x < a.len() && j <= y < b.len() && #[trigger] ranges_touch(a[x], b[y])
}

/// Whether some range of `a` touches some range of `b`.
pub open spec fn any_touch(a: Seq<Range<usize>>, b: Seq<Range<usize>>) -> bool {
    any_touch_from(a, b, 0, 0)
}

/// The outcome of walking `a` from position `i` and `b` from position `j` with
/// two cursors: the range that ends before the other one starts is passed
/// over, and the walk succeeds at the first pair where neither can be.
pub open spec fn cursors_meet(a: Seq<Range<usize>>, b: Seq<Range<usize>>, i: int, j: int) -> bool
    decreases a.len() - i, b.len() - j,
{
    if i < 0 || j < 0 || i >= a.len() || j >= b.len() {
        false
    } else if a[i].end < b[j].start {
        cursors_meet(a, b, i + 1, j)
    } else if b[j].end < a[i].start {
        cursors_meet(a, b, i, j + 1)
    } else {
        true
    }
}

/// What [`ranges_intersect`] answers for any two lists, sorted or not.
pub open spec fn spec_ranges_intersect(a: Seq<Range<usize>>, b: Seq<Range<usize>>) -> bool {
    cursors_meet(a, b, 0, 0)
}

/// On lists ordered by start, the two-cursor walk finds a touching pair
/// exactly when one exists among the ranges not yet passed.
pub proof fn lemma_cursors_meet_sorted(a: Seq<Range<usize>>, b: Seq<Range<usize>>, i: int, j: int)
    requires
        sorted_by_start(a),
        sorted_by_start(b),
        0 <= i <= a.len(),
        0 <= j <= b.len(),
    ensures
        cursors_meet(a, b, i, j) == any_touch_from(a, b, i, j),
    decreases a.len() - i, b.len() - j,
{
    if i >= a.len() || j >= b.len() {
    } else if a[i].end < b[j].start {
        lemma_cursors_meet_sorted(a, b, i + 1, j);
        assert forall|x: int, y: int|
            i <= x < a.len() && j <= y < b.len() && #[trigger] ranges_touch(a[x], b[y]) implies i
            + 1 <= x by {
            if x == i {
                assert(b[j].start <= b[y].start);
            }
        }
    } else if b[j].end < a[i].start {
        lemma_cursors_meet_sorted(a, b, i, j + 1);
        assert forall|x: int, y: int|
            i <= x < a.len() && j <= y < b.len() && #[trigger] ranges_touch(a[x], b[y]) implies j
            + 1 <= y by {
            if y == j {
                assert(a[i].start <= a[x].start);
            }
        }
    } else {
        assert(ranges_touch(a[i], b[j]));
    }
}

/// The overlap test finds a touching pair exactly when there is one, provided
/// both lists are ordered by start.
pub proof fn lemma_ranges_intersect_finds_touch(a: Seq<Range<usize>>, b: Seq<Range<usize>>)
    requires
        sorted_by_start(a),
        sorted_by_start(b),
    ensures
        spec_ranges_intersect(a, b) == any_touch(a, b),
{
    lemma_cursors_meet_sorted(a, b, 0, 0);
}

/// The overlap test gives the same answer whichever list comes first, provided
/// both lists are ordered by start.
pub proof fn lemma_ranges_intersect_symmetric(a: Seq<Range<usize>>, b: Seq<Range<usize>>)
    requires
        sorted_by_start(a),
        sorted_by_start(b),
    ensures
        spec_ranges_intersect(a, b) == spec_ranges_intersect(b, a),
{
    lemma_ranges_intersect_finds_touch(a, b);
    lemma_ranges_intersect_finds_touch(b, a);
    if any_touch(a, b) {
        let (x, y) = choose|x: int, y: int|
            0 <= x < a.len() && 0 <= y < b.len() && #[trigger] ranges_touch(a[x], b[y]);
        assert(ranges_touch(b[y], a[x]));
    }
    if any_touch(b, a) {
        let (y, x) = choose|y: int, x: int|
            0 <= y < b.len() && 0 <= x < a.len() && #[trigger] ranges_touch(b[y], a[x]);
        assert(ranges_touch(a[x], b[y]));
    }
}

/// Decides in one pass over both lists whether a range of `ranges_a` touches a
/// range of `ranges_b`. The lists are expected in ascending order; ranges that
/// share only an endpoint count as touching.
pub fn ranges_intersect(ranges_a: &Vec<Range<usize>>, ranges_b: &Vec<Range<usize>>) -> (found: bool)
    ensures
        found == spec_ranges_intersect(ranges_a@, ranges_b@),
        sorted_by_start(ranges_a@) && sorted_by_start(ranges_b@) ==> found == any_touch(
            ranges_a@,
            ranges_b@,
        ),
{
    proof {
        if sorted_by_start(ranges_a@) && sorted_by_start(ranges_b@) {
            lemma_ranges_intersect_finds_touch(ranges_a@, ranges_b@);
        }
    }
    let mut i: usize = 0;
    let mut j: usize = 0;
    while i < ranges_a.len() && j < ranges_b.len()
        invariant
            i <= ranges_a.len(),
            j <= ranges_b.len(),
            cursors_meet(ranges_a@, ranges_b@, i as int, j as int) == spec_ranges_intersect(
                ranges_a@,
                ranges_b@,
            ),
            sorted_by_start(ranges_a@) && sorted_by_start(ranges_b@) ==> spec_ranges_intersect(
                ranges_a@,
                ranges_b@,
            ) == any_touch(ranges_a@, ranges_b@),
        decreases ranges_a.len() - i + ranges_b.len() - j,
    {
        if ranges_a[i].end < ranges_b[j].start {
            i += 1;
        } else if ranges_b[j].end < ranges_a[i].start {
            j += 1;
        } else {
            return true;
        }
    }
    false
}

} // verus!
