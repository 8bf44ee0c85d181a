//! Where a freshly created panel first goes.
//!
//! A panel that arrives essentially at the world origin was launched with no
//! sense of place and is put directly in front of the viewer; any other
//! panel keeps its position and is only turned to face the viewer.

use vstd::prelude::*;

use crate::math::spec_len_sq;
use crate::math::Vec3;

verus! {

/// Squared distance from the origin below which a panel counts as
/// unpositioned.
pub const UNPOSITIONED_SQ_THRESHOLD: i64 = 1000;

/// Depth at which an unpositioned panel is placed ahead of the viewer.
pub const IN_FRONT_OFFSET_Z: i64 = -250;

/// The placement decision for a fresh panel.
#[derive(Clone, Copy, Debug, PartialEq, Eq, Structural)]
pub enum Placement {
    /// Put the panel at the stock offset in front of the viewer.
    InFront,
    /// Keep the panel where it is and turn it to look back along
    /// `direction`, the vector from the viewer to the panel.
    Face { direction: Vec3 },
}

/// Marker for the placement step of a panel's element tree.
#[derive(Clone, Copy, Debug, PartialEq, Eq, Structural)]
pub struct InitialPanelPlacement;

/// The placement of a panel at `item`, viewed from `hmd`: in front of the
/// viewer when the panel sits at the origin (within the unpositioned
/// threshold), otherwise facing the viewer from where it is.
pub open spec fn spec_initial_placement(item: Vec3, hmd: Vec3) -> Placement {
    if spec_len_sq(item) < UNPOSITIONED_SQ_THRESHOLD {
        Placement::InFront
    } else {
        Placement::Face {
            direction: Vec3 {
                x: (item.x - hmd.x) as i64,
                y: (item.y - hmd.y) as i64,
                z: (item.z - hmd.z) as i64,
            },
        }
    }
}

impl InitialPanelPlacement {
    /// Decide the placement of a panel at `item`, viewed from `hmd`.
    pub fn decide(item: Vec3, hmd: Vec3) -> (p: Placement)
        requires
            item.bounded(),
            hmd.bounded(),
        ensures
            p == spec_initial_placement(item, hmd),
    {
        let s = crate::math::len_sq(item);
        if s < UNPOSITIONED_SQ_THRESHOLD {
            Placement::InFront
        } else {
            Placement::Face {
                direction: Vec3 { x: item.x - hmd.x, y: item.y - hmd.y, z: item.z - hmd.z },
            }
        }
    }
}

} // verus!
