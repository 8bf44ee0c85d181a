//! Verified core of a spatial panel manager: per-frame input-sample batches
//! are reduced to hover, single-owner and multi-touch action state, which in
//! turn drives a draggable grab handle, a two-corner resize solver, a
//! nearest-acceptor resolver and a flat-surface pointer/touch router.
//!
//! All geometry is carried in fixed-point integers (see [`math`]); the
//! surrounding compositor client converts to and from its own scalar types at
//! the boundary.

pub mod action;
pub mod grab_ball;
pub mod initial_panel_placement;
pub mod math;
pub mod panel_shell_transfer;
pub mod resize_handles;
pub mod sample;
pub mod single_actor_action;
pub mod surface;
pub mod util;

pub use math::COORD_LIMIT;
pub use math::SCALE;
pub use math::Vec2;
pub use math::Vec3;
