use vstd::prelude::*;
use crate::geometry::{Point, Rect};

verus! {

/// Quotient of `a` by a positive `b`, rounded toward zero.
pub open spec fn div_toward_zero(a: int, b: int) -> int
    recommends
        b > 0,
{
    if a >= 0 {
        a / b
    } else {
        -((-a) / b)
    }
}

/// The `i32` nearest to `v`.
pub open spec fn clamp_i32(v: int) -> i32 {
    if v < i32::MIN {
        i32::MIN
    } else if v > i32::MAX {
        i32::MAX
    } else {
        v as i32
    }
}

/// Area moments of a contour up to first order.
///
/// A polygon with integer corners has moments that are whole multiples of
/// one sixth, so each field counts sixths: the value held is six times the
/// moment. The centroid is a ratio of two moments and does not depend on
/// that common factor.
#[derive(Clone, Copy, Debug, PartialEq, Eq, Structural)]
pub struct Moments {
    /// Zeroth moment (the enclosed mass), in sixths.
    pub m00: u64,
    /// First-order moment along x, in sixths.
    pub m10: i64,
    /// First-order moment along y, in sixths.
    pub m01: i64,
}

/// Sum of the brightness samples inside a region, with their number.
#[derive(Clone, Copy, Debug, PartialEq, Eq, Structural)]
pub struct Brightness {
    pub sum: u64,
    pub pixels: u64,
}

/// What the detector reads of one contour.
#[derive(Clone, Copy, Debug, PartialEq, Eq, Structural)]
pub struct CandidateRegion {
    /// Twice the enclosed area: a polygon with integer corners has an area
    /// that is a whole multiple of one half.
    pub area2: u64,
    pub moments: Moments,
    /// The smallest upright rectangle that holds the contour.
    pub bounds: Rect,
    /// Brightness of the source frame inside `bounds`.
    pub brightness: Brightness,
}

/// `num / den` rounded toward zero, then brought into the range of `i32`.
fn ratio_toward_zero(num: i64, den: u64) -> (q: i32)
    requires
        den > 0,
    ensures
        q == clamp_i32(div_toward_zero(num as int, den as int)),
{
    let q: i128 = (num as i128) / (den as i128);
    if q < -2147483648 {
        i32::MIN
    } else if q > 2147483647 {
        i32::MAX
    } else {
        q as i32
    }
}

impl Moments {
    /// True when the contour encloses nothing: a single point, or points on a line.
    pub open spec fn is_degenerate(self) -> bool {
        self.m00 == 0
    }

    /// The centre of mass, each coordinate rounded toward zero; none for a
    /// degenerate contour.
    pub open spec fn spec_centroid(self) -> Option<Point> {
        if self.m00 == 0 {
            None
        } else {
            Some(
                Point {
                    x: clamp_i32(div_toward_zero(self.m10 as int, self.m00 as int)),
                    y: clamp_i32(div_toward_zero(self.m01 as int, self.m00 as int)),
                },
            )
        }
    }

    /// The centre of mass; none for a degenerate contour.
    pub fn centroid(&self) -> (c: Option<Point>)
        ensures
            c == self.spec_centroid(),
    {
        if self.m00 == 0 {
            None
        } else {
            let x: i32 = ratio_toward_zero(self.m10, self.m00);
            let y: i32 = ratio_toward_zero(self.m01, self.m00);
            Some(Point { x, y })
        }
    }
}

/// `i` is the place of the region of greatest area: the earliest one, where
/// several share that area.
pub open spec fn is_first_largest(regions: Seq<CandidateRegion>, i: int) -> bool {
    &&& 0 <= i < regions.len()
    &&& forall|j: int| 0 <= j < regions.len() ==> regions[j].area2 <= regions[i].area2
    &&& forall|j: int| 0 <= j < i ==> regions[j].area2 < regions[i].area2
}

/// The region of greatest area, the earliest such; none in an empty list.
pub open spec fn dominant(regions: Seq<CandidateRegion>) -> Option<CandidateRegion> {
    if regions.len() == 0 {
        None
    } else {
        Some(regions[choose|i: int| is_first_largest(regions, i)])
    }
}

/// The centroid of the dominant region; none where there is no region or
/// the dominant one is degenerate.
pub open spec fn dominant_centroid(regions: Seq<CandidateRegion>) -> Option<Point> {
    match dominant(regions) {
        None => None,
        Some(r) => r.moments.spec_centroid(),
    }
}

/// At most one place in a list is that of its first largest region.
pub proof fn lemma_first_largest_unique(regions: Seq<CandidateRegion>, i: int, j: int)
    requires
        is_first_largest(regions, i),
        is_first_largest(regions, j),
    ensures
        i == j,
{
    if i < j {
        assert(regions[i].area2 < regions[j].area2);
        assert(regions[j].area2 <= regions[i].area2);
    } else if j < i {
        assert(regions[j].area2 < regions[i].area2);
        assert(regions[i].area2 <= regions[j].area2);
    }
}

/// Where `i` is the place of the first largest region, that region is the
/// dominant one.
pub proof fn lemma_dominant_at(regions: Seq<CandidateRegion>, i: int)
    requires
        is_first_largest(regions, i),
    ensures
        dominant(regions) == Some(regions[i]),
{
    let k = choose|k: int| is_first_largest(regions, k);
    lemma_first_largest_unique(regions, i, k);
}

/// Finds the region of greatest area, the earliest one on a tie.
pub fn largest_region(regions: &Vec<CandidateRegion>) -> (found: Option<usize>)
    ensures
        found is None <==> regions@.len() == 0,
        found matches Some(i) ==> is_first_largest(regions@, i as int),
{
    if regions.len() == 0 {
        return None;
    }
    let mut best: usize = 0;
    let mut k: usize = 1;
    while k < regions.len()
        invariant
            1 <= k <= regions@.len(),
            is_first_largest(regions@.take(k as int), best as int),
        decreases regions@.len() - k,
    {
        let ghost before = regions@.take(k as int);
        let ghost after = regions@.take(k + 1);
        let ghost prev = best;
        if regions[k].area2 > regions[best].area2 {
            best = k;
        }
        k = k + 1;
        proof {
            assert forall|j: int| 0 <= j < after.len() implies after[j].area2
                <= after[best as int].area2 by {
                if j < before.len() {
                    assert(before[j].area2 <= before[prev as int].area2);
                }
            }
            assert forall|j: int| 0 <= j < best implies after[j].area2
                < after[best as int].area2 by {
                if best == prev {
                    assert(before[j].area2 < before[prev as int].area2);
                } else {
                    assert(before[j].area2 <= before[prev as int].area2);
                }
            }
        }
    }
    proof {
        assert(regions@.take(k as int) =~= regions@);
    }
    Some(best)
}

} // verus!
