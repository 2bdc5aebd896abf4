use vstd::prelude::*;
use crate::geometry::Rect;
use crate::region::CandidateRegion;
use crate::tracker::FireTracker;
use crate::validator::RegionValidator;

verus! {

/// The verdict on one frame.
#[derive(Debug, PartialEq, Eq)]
pub struct Detection {
    /// Whether the tracker confirmed a fire on this frame.
    pub confirmed: bool,
    /// The boxes to mark on the frame, in the order of their regions.
    pub boxes: Vec<Rect>,
}

/// The boxes to mark on a frame with these regions: those of the regions
/// that the validator keeps where the tracker confirms, none where it does not.
pub open spec fn marked_boxes(
    tracker: FireTracker,
    validator: RegionValidator,
    regions: Seq<CandidateRegion>,
) -> Seq<Rect> {
    if tracker.confirms(regions) {
        validator.accepted_boxes(regions)
    } else {
        Seq::empty()
    }
}

/// Judges one frame by its regions: advances the tracker by the frame, and
/// where the tracker confirms, picks the regions to mark.
pub fn detect_fire(
    regions: &Vec<CandidateRegion>,
    tracker: &mut FireTracker,
    validator: &RegionValidator,
) -> (found: Detection)
    ensures
        *final(tracker) == old(tracker).step(regions@),
        found.confirmed == old(tracker).confirms(regions@),
        found.boxes@ == marked_boxes(*old(tracker), *validator, regions@),
        regions@.len() == 0 ==> !found.confirmed && found.boxes@.len() == 0,
{
    let confirmed = tracker.update(regions);
    let boxes = if confirmed {
        validator.accepted(regions)
    } else {
        Vec::new()
    };
    Detection { confirmed, boxes }
}

} // verus!
