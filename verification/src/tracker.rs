use vstd::prelude::*;
use crate::geometry::Point;
use crate::region::{dominant_centroid, largest_region, lemma_dominant_at, CandidateRegion};

verus! {

/// What the tracker takes for "the same place" and for "long enough".
#[derive(Clone, Copy, Debug, PartialEq, Eq, Structural)]
pub struct TrackerConfig {
    /// Two consecutive centroids count as the same place when the square of
    /// their distance is below this.
    pub max_jump_sq: u64,
    /// The stable-frame count from which a detection is confirmed.
    pub min_stable_frames: u64,
}

impl TrackerConfig {
    pub open spec fn standard() -> TrackerConfig {
        TrackerConfig { max_jump_sq: 50, min_stable_frames: 3 }
    }
}

impl Default for TrackerConfig {
    fn default() -> (c: TrackerConfig)
        ensures
            c == TrackerConfig::standard(),
    {
        TrackerConfig { max_jump_sq: 50, min_stable_frames: 3 }
    }
}

/// Follows the centroid of the dominant region from frame to frame and
/// counts for how many frames in a row it has stayed in place.
#[derive(Clone, Copy, Debug, PartialEq, Eq)]
pub struct FireTracker {
    /// Centroid of the latest frame that had one.
    pub last_position: Option<Point>,
    /// Frames in a row whose centroid stayed near that of the frame before.
    pub stable_frame_count: u64,
    pub config: TrackerConfig,
}

/// `n + 1`, or `n` where the counter is at its ceiling.
pub open spec fn bumped(n: u64) -> u64 {
    if n < u64::MAX {
        (n + 1) as u64
    } else {
        n
    }
}

impl FireTracker {
    /// A tracker that has seen nothing yet.
    pub open spec fn fresh(config: TrackerConfig) -> FireTracker {
        FireTracker { last_position: None, stable_frame_count: 0, config }
    }

    /// The tracker after a frame without a usable centroid: the count
    /// starts over, the remembered position stays.
    pub open spec fn reset(self) -> FireTracker {
        FireTracker {
            last_position: self.last_position,
            stable_frame_count: 0,
            config: self.config,
        }
    }

    /// The tracker after a frame whose dominant region has centroid `c`.
    pub open spec fn moved_to(self, c: Point) -> FireTracker {
        FireTracker {
            last_position: Some(c),
            stable_frame_count: match self.last_position {
                None => self.stable_frame_count,
                Some(p) => if p.dist_sq(c) < self.config.max_jump_sq {
                    bumped(self.stable_frame_count)
                } else {
                    0
                },
            },
            config: self.config,
        }
    }

    /// The tracker after a frame with these regions.
    pub open spec fn step(self, regions: Seq<CandidateRegion>) -> FireTracker {
        match dominant_centroid(regions) {
            None => self.reset(),
            Some(c) => self.moved_to(c),
        }
    }

    /// Whether a frame with these regions confirms a detection.
    pub open spec fn confirms(self, regions: Seq<CandidateRegion>) -> bool {
        dominant_centroid(regions) is Some && self.step(regions).stable_frame_count
            >= self.config.min_stable_frames
    }

    pub fn new() -> (t: FireTracker)
        ensures
            t == FireTracker::fresh(TrackerConfig::standard()),
    {
        FireTracker {
            last_position: None,
            stable_frame_count: 0,
            config: TrackerConfig { max_jump_sq: 50, min_stable_frames: 3 },
        }
    }

    pub fn with_config(config: TrackerConfig) -> (t: FireTracker)
        ensures
            t == FireTracker::fresh(config),
    {
        FireTracker { last_position: None, stable_frame_count: 0, config }
    }

    /// Takes in the regions of one frame and says whether the detection is
    /// confirmed.
    pub fn update(&mut self, regions: &Vec<CandidateRegion>) -> (confirmed: bool)
        ensures
            *final(self) == old(self).step(regions@),
            confirmed == old(self).confirms(regions@),
            regions@.len() == 0 ==> !confirmed && *final(self) == old(self).reset(),
    {
        match largest_region(regions) {
            None => {
                self.stable_frame_count = 0;
                false
            },
            Some(i) => {
                proof {
                    lemma_dominant_at(regions@, i as int);
                }
                match regions[i].moments.centroid() {
                    None => {
                        self.stable_frame_count = 0;
                        false
                    },
                    Some(current) => {
                        match self.last_position {
                            Some(last) => {
                                if last.squared_distance(&current)
                                    < self.config.max_jump_sq as u128 {
                                    if self.stable_frame_count < u64::MAX {
                                        self.stable_frame_count = self.stable_frame_count + 1;
                                    }
                                } else {
                                    self.stable_frame_count = 0;
                                }
                            },
                            None => {},
                        }
                        self.last_position = Some(current);
                        self.stable_frame_count >= self.config.min_stable_frames
                    },
                }
            },
        }
    }
}

/// A tracker that has seen nothing yet, shown the same centroid in four
/// frames in a row, confirms on the fourth frame and on none before it:
/// the first frame sets the anchor, each of the next three adds one to the
/// count.
pub proof fn lemma_fourth_still_frame_confirms(
    config: TrackerConfig,
    c: Point,
    f1: Seq<CandidateRegion>,
    f2: Seq<CandidateRegion>,
    f3: Seq<CandidateRegion>,
    f4: Seq<CandidateRegion>,
)
    requires
        config.max_jump_sq > 0,
        config.min_stable_frames == 3,
        dominant_centroid(f1) == Some(c),
        dominant_centroid(f2) == Some(c),
        dominant_centroid(f3) == Some(c),
        dominant_centroid(f4) == Some(c),
    ensures
        ({
            let t0 = FireTracker::fresh(config);
            let t1 = t0.step(f1);
            let t2 = t1.step(f2);
            let t3 = t2.step(f3);
            &&& !t0.confirms(f1)
            &&& !t1.confirms(f2)
            &&& !t2.confirms(f3)
            &&& t3.confirms(f4)
            &&& t3.step(f4).stable_frame_count == 3
        }),
{
    assert(c.dist_sq(c) == 0);
}

/// A centroid that lies at or beyond the jump threshold from the one
/// remembered sets the count to zero, whatever it was before.
pub proof fn lemma_jump_resets_count(
    tracker: FireTracker,
    regions: Seq<CandidateRegion>,
    last: Point,
    c: Point,
)
    requires
        tracker.last_position == Some(last),
        dominant_centroid(regions) == Some(c),
        last.dist_sq(c) >= tracker.config.max_jump_sq,
    ensures
        tracker.step(regions).stable_frame_count == 0,
        tracker.step(regions).last_position == Some(c),
        tracker.config.min_stable_frames > 0 ==> !tracker.confirms(regions),
{
}

/// A frame without a usable centroid (no region at all, or a degenerate
/// dominant one) sets the count to zero, confirms nothing and leaves the
/// remembered position as it was.
pub proof fn lemma_no_centroid_resets(tracker: FireTracker, regions: Seq<CandidateRegion>)
    requires
        dominant_centroid(regions) is None,
    ensures
        tracker.step(regions).stable_frame_count == 0,
        tracker.step(regions).last_position == tracker.last_position,
        !tracker.confirms(regions),
{
}

} // verus!
