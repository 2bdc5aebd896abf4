use vstd::prelude::*;
use crate::geometry::Rect;
use crate::region::{Brightness, CandidateRegion};

verus! {

/// The thresholds by which a single region is kept or dropped.
#[derive(Clone, Copy, Debug, PartialEq, Eq, Structural)]
pub struct RegionValidator {
    /// The area, in pixels, must lie above this.
    pub min_area: u64,
    /// The area, in pixels, must lie below this.
    pub max_area: u64,
    /// Width over height, in hundredths, must lie below this.
    pub max_aspect_percent: u64,
    /// The mean brightness must lie above this.
    pub min_brightness: u64,
}

impl RegionValidator {
    pub open spec fn standard() -> RegionValidator {
        RegionValidator {
            min_area: 250,
            max_area: 5000,
            max_aspect_percent: 150,
            min_brightness: 170,
        }
    }

    /// `min_area < area2 / 2 < max_area`, over whole numbers.
    pub open spec fn area_in_range(self, area2: u64) -> bool {
        2 * self.min_area < area2 && area2 < 2 * self.max_area
    }

    /// `width / height < max_aspect_percent / 100`, over whole numbers. A
    /// box without height has no ratio and fails.
    pub open spec fn aspect_ok(self, bounds: Rect) -> bool {
        100 * bounds.width < self.max_aspect_percent * bounds.height
    }

    /// `sum / pixels > min_brightness`, over whole numbers. A region
    /// without pixels has no mean and fails.
    pub open spec fn bright_enough(self, b: Brightness) -> bool {
        b.pixels > 0 && b.sum > self.min_brightness * b.pixels
    }

    /// A region is kept when its area, its shape and its brightness all pass.
    pub open spec fn accepts(self, r: CandidateRegion) -> bool {
        &&& self.area_in_range(r.area2)
        &&& self.aspect_ok(r.bounds)
        &&& self.bright_enough(r.brightness)
    }

    /// The box of a region that is kept; none for one that is dropped.
    pub open spec fn kept_box(self, r: CandidateRegion) -> Option<Rect> {
        if self.accepts(r) {
            Some(r.bounds)
        } else {
            None
        }
    }

    /// The boxes of the regions that are kept, in the order of the regions.
    pub open spec fn accepted_boxes(self, regions: Seq<CandidateRegion>) -> Seq<Rect> {
        regions.filter_map(|r: CandidateRegion| self.kept_box(r))
    }

    pub fn new() -> (v: RegionValidator)
        ensures
            v == RegionValidator::standard(),
    {
        RegionValidator {
            min_area: 250,
            max_area: 5000,
            max_aspect_percent: 150,
            min_brightness: 170,
        }
    }

    pub fn validate(&self, r: &CandidateRegion) -> (kept: bool)
        ensures
            kept == self.accepts(*r),
    {
        let area2: u128 = r.area2 as u128;
        let lo: u128 = 2 * (self.min_area as u128);
        let hi: u128 = 2 * (self.max_area as u128);
        if !(lo < area2 && area2 < hi) {
            return false;
        }
        let width: u128 = r.bounds.width as u128;
        let height: u128 = r.bounds.height as u128;
        let ceiling: u128 = self.max_aspect_percent as u128;
        assert(ceiling * height <= 0xFFFF_FFFF_FFFF_FFFF * 0xFFFF_FFFF) by (nonlinear_arith)
            requires
                ceiling <= 0xFFFF_FFFF_FFFF_FFFF,
                height <= 0xFFFF_FFFF,
        ;
        if !(100 * width < ceiling * height) {
            return false;
        }
        let floor: u128 = self.min_brightness as u128;
        let pixels: u128 = r.brightness.pixels as u128;
        assert(floor * pixels <= 0xFFFF_FFFF_FFFF_FFFF * 0xFFFF_FFFF_FFFF_FFFF)
            by (nonlinear_arith)
            requires
                floor <= 0xFFFF_FFFF_FFFF_FFFF,
                pixels <= 0xFFFF_FFFF_FFFF_FFFF,
        ;
        r.brightness.pixels > 0 && (r.brightness.sum as u128) > floor * pixels
    }
}

impl RegionValidator {
    /// Collects the boxes of the regions that pass, in the order of the regions.
    pub fn accepted(&self, regions: &Vec<CandidateRegion>) -> (boxes: Vec<Rect>)
        ensures
            boxes@ == self.accepted_boxes(regions@),
    {
        let mut boxes: Vec<Rect> = Vec::new();
        let mut i: usize = 0;
        while i < regions.len()
            invariant
                i <= regions@.len(),
                boxes@ == self.accepted_boxes(regions@.take(i as int)),
            decreases regions@.len() - i,
        {
            proof {
                regions@.lemma_filter_map_take_succ(
                    |r: CandidateRegion| self.kept_box(r),
                    i as int,
                );
            }
            if self.validate(&regions[i]) {
                boxes.push(regions[i].bounds);
            }
            i = i + 1;
        }
        proof {
            assert(regions@.take(i as int) =~= regions@);
        }
        boxes
    }
}

} // verus!
