//! The per-frame input data model.
//!
//! Each frame the spatial service delivers one unordered batch of input
//! samples, one per tracked ray, hand or controller tip. A sample carries a
//! stable identity, a kind-specific pose, a signed distance to the handler's
//! field (negative means penetrating) and a small set of named auxiliary
//! values. Samples are compared across frames by identity alone.

use vstd::prelude::*;

use crate::math::spec_len_sq;
use crate::math::COORD_LIMIT;
use crate::math::Vec2;
use crate::math::Vec3;

verus! {

/// Pose of a head- or controller-aimed ray.
#[derive(Clone, Copy, Debug)]
pub struct RayData {
    /// Start of the ray.
    pub origin: Vec3,
    /// Direction of the ray; any nonzero length, not necessarily unit.
    pub direction: Vec3,
    /// The deepest point of the targeted field along the ray.
    pub deepest_point: Vec3,
}

/// Pose of a tracked hand: the fingertips and the pinch points.
#[derive(Clone, Copy, Debug)]
pub struct HandData {
    /// Tip of the thumb.
    pub thumb_tip: Vec3,
    /// Tip of the index finger.
    pub index_tip: Vec3,
    /// Tip of the middle finger.
    pub middle_tip: Vec3,
    /// Tip of the ring finger.
    pub ring_tip: Vec3,
    /// Smoothed position between thumb and index tip.
    pub stable_pinch: Vec3,
    /// Predicted (unsmoothed) position between thumb and index tip.
    pub predicted_pinch: Vec3,
}

/// Pose of a tracked controller tip.
#[derive(Clone, Copy, Debug)]
pub struct TipData {
    /// Position of the tip.
    pub origin: Vec3,
}

/// The kind of a sample together with its kind-specific pose.
#[derive(Clone, Copy, Debug)]
pub enum InputKind {
    /// A pointing ray.
    Ray(RayData),
    /// A tracked hand.
    Hand(HandData),
    /// A controller tip.
    Tip(TipData),
}

/// Named auxiliary values of a sample. Strengths are fixed-point fractions of
/// one (`1000` stands for full strength); scroll deltas are fixed-point steps.
#[derive(Clone, Copy, Debug)]
pub struct AuxData {
    /// Primary select or trigger strength.
    pub select: i64,
    /// Middle-button strength.
    pub middle: i64,
    /// Context (secondary) button strength.
    pub context: i64,
    /// Grab or grip strength.
    pub grab: i64,
    /// Pinch strength of a hand.
    pub pinch_strength: i64,
    /// Continuous scroll delta of this frame.
    pub scroll_continuous: Vec2,
    /// Discrete (detent) scroll delta of this frame.
    pub scroll_discrete: Vec2,
}

/// One tracked input candidate of the current frame.
#[derive(Clone, Copy, Debug)]
pub struct InputSample {
    /// Stable identity, the same value every frame the input is tracked.
    pub id: u64,
    /// Kind and pose.
    pub kind: InputKind,
    /// Signed distance to the handler's field; negative when penetrating.
    pub distance: i64,
    /// Auxiliary named values.
    pub aux: AuxData,
    /// Whether an exclusive claim on this input was already granted.
    pub captured: bool,
}

impl InputKind {
    /// Whether every coordinate of the pose is within the global bound.
    pub open spec fn bounded(self) -> bool {
        match self {
            InputKind::Ray(r) => r.origin.bounded() && r.direction.bounded()
                && r.deepest_point.bounded(),
            InputKind::Hand(h) => h.thumb_tip.bounded() && h.index_tip.bounded()
                && h.middle_tip.bounded() && h.ring_tip.bounded() && h.stable_pinch.bounded()
                && h.predicted_pinch.bounded(),
            InputKind::Tip(t) => t.origin.bounded(),
        }
    }

    /// Whether this is a ray.
    pub open spec fn is_ray(self) -> bool {
        match self {
            InputKind::Ray(_) => true,
            _ => false,
        }
    }
}

impl AuxData {
    /// Whether every auxiliary value is within the global bound.
    pub open spec fn bounded(self) -> bool {
        &&& -COORD_LIMIT <= self.select <= COORD_LIMIT
        &&& -COORD_LIMIT <= self.middle <= COORD_LIMIT
        &&& -COORD_LIMIT <= self.context <= COORD_LIMIT
        &&& -COORD_LIMIT <= self.grab <= COORD_LIMIT
        &&& -COORD_LIMIT <= self.pinch_strength <= COORD_LIMIT
        &&& self.scroll_continuous.bounded()
        &&& self.scroll_discrete.bounded()
    }
}

impl InputSample {
    /// Well-formedness: every scalar the sample carries is within the global
    /// coordinate bound, and a ray points somewhere.
    pub open spec fn wf(self) -> bool {
        &&& self.kind.bounded()
        &&& -COORD_LIMIT <= self.distance <= COORD_LIMIT
        &&& self.aux.bounded()
        &&& match self.kind {
            InputKind::Ray(r) => spec_len_sq(r.direction) > 0,
            _ => true,
        }
    }
}

/// Whether some sample of `batch` carries the identity `id`.
pub open spec fn spec_has_id(batch: Seq<InputSample>, id: u64) -> bool {
    exists|i: int| 0 <= i < batch.len() && batch[i].id == id
}

/// The sample of `batch` carrying the identity `id`; meaningful only when
/// `spec_has_id(batch, id)` holds and identities are distinct.
pub open spec fn spec_sample_with_id(batch: Seq<InputSample>, id: u64) -> InputSample {
    batch[choose|i: int| 0 <= i < batch.len() && batch[i].id == id]
}

/// Whether all identities in `batch` are distinct.
pub open spec fn spec_distinct_ids(batch: Seq<InputSample>) -> bool {
    forall|i: int, j: int|
        0 <= i < batch.len() && 0 <= j < batch.len() && i != j ==> batch[i].id != batch[j].id
}

/// Well-formedness of a frame's batch: every sample is well-formed and no
/// identity occurs twice.
pub open spec fn spec_batch_wf(batch: Seq<InputSample>) -> bool {
    &&& forall|i: int| 0 <= i < batch.len() ==> #[trigger] batch[i].wf()
    &&& spec_distinct_ids(batch)
}

/// Linear scan for an identity in a batch.
pub fn has_id(batch: &Vec<InputSample>, id: u64) -> (found: bool)
    ensures
        found == spec_has_id(batch@, id),
{
    let mut i: usize = 0;
    while i < batch.len()
        invariant
            0 <= i <= batch@.len(),
            forall|j: int| 0 <= j < i ==> batch@[j].id != id,
        decreases batch@.len() - i,
    {
        if batch[i].id == id {
            return true;
        }
        i = i + 1;
    }
    false
}

/// Look up the sample of `batch` carrying `id`, if any.
pub fn find_by_id(batch: &Vec<InputSample>, id: u64) -> (r: Option<InputSample>)
    requires
        spec_distinct_ids(batch@),
    ensures
        r == if spec_has_id(batch@, id) {
            Some(spec_sample_with_id(batch@, id))
        } else {
            None::<InputSample>
        },
{
    let mut i: usize = 0;
    while i < batch.len()
        invariant
            0 <= i <= batch@.len(),
            spec_distinct_ids(batch@),
            forall|j: int| 0 <= j < i ==> batch@[j].id != id,
        decreases batch@.len() - i,
    {
        if batch[i].id == id {
            proof {
                let k = choose|k: int| 0 <= k < batch@.len() && batch@[k].id == id;
                assert(k == i as int);
            }
            return Some(batch[i]);
        }
        i = i + 1;
    }
    None
}

} // verus!
