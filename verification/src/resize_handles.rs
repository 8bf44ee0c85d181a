//! The two-corner resize manipulator.
//!
//! Each corner of the controlled rectangle carries a small grab handle; a
//! geometry solver reconstructs the rectangle's center, orientation and size
//! from the two live corner positions, continuously re-aligned to face the
//! viewer. While exactly one corner is grabbed the content frame enters
//! free-drag mode so the rectangle can be reshaped without moving as a rigid
//! body.

use vstd::prelude::*;

use crate::action::spec_satisfying;
use crate::grab_ball::GrabBallSettings;
use crate::grab_ball::GrabCommit;
use crate::grab_ball::GrabHover;
use crate::grab_ball::GRAB_TRIGGER;
use crate::math::abs_i64;
use crate::math::clamp_i64;
use crate::math::distance;
use crate::math::div_trunc;
use crate::math::isqrt_i64;
use crate::math::len_sq;
use crate::math::lemma_div_trunc_bound;
use crate::math::midpoint;
use crate::math::mul_div;
use crate::math::spec_abs;
use crate::math::spec_dist_sq;
use crate::math::spec_isqrt;
use crate::math::spec_len_sq;
use crate::math::spec_max;
use crate::math::spec_min;
use crate::math::COORD_LIMIT;
use crate::math::Vec2;
use crate::math::Vec3;
use crate::sample::spec_batch_wf;
use crate::sample::InputKind;
use crate::sample::InputSample;
use crate::sample::RayData;
use crate::single_actor_action::spec_next_actor;
use crate::single_actor_action::SingleActorAction;

verus! {

/// How far (in fixed-point micro-steps, thousandths of the base unit's
/// thousandths) a ray-grabbed point may at most sit from the ray's origin.
pub const MAX_RAY_REACH: i64 = 100_000_000_000;

/// The hover predicate a resize handle runs with: rays are always eligible.
pub open spec fn spec_handle_hover(settings: GrabBallSettings) -> GrabHover {
    GrabHover { threshold: (settings.radius + settings.padding) as i64, ray_eligible: true }
}

/// The commit predicate a resize handle runs with.
pub open spec fn spec_handle_commit() -> GrabCommit {
    GrabCommit { threshold: GRAB_TRIGGER }
}

/// The ray-to-surface distance recorded when a ray starts a grab, in
/// micro-steps: the distance from the ray's origin to its deepest point.
pub open spec fn spec_ray_baseline(r: RayData) -> int {
    spec_isqrt(spec_dist_sq(r.origin, r.deepest_point)) * 1000
}

/// One frame's ray-reach bookkeeping: a starting ray records its baseline,
/// every grabbing ray then advances the reach by this frame's scroll deltas
/// (continuous steps count tenfold, discrete detents fiftyfold), clamped to
/// stay between zero and the maximum reach. Without a ray actor the reach
/// keeps its value.
pub open spec fn spec_reach_step(old_reach: int, actor: Option<InputSample>, started: bool) -> int {
    match actor {
        Some(s) => match s.kind {
            InputKind::Ray(r) => {
                let base = if started {
                    spec_ray_baseline(r)
                } else {
                    old_reach
                };
                crate::math::spec_clamp(
                    base + s.aux.scroll_continuous.y * 10 + s.aux.scroll_discrete.y * 50,
                    0,
                    MAX_RAY_REACH as int,
                )
            },
            _ => old_reach,
        },
        None => old_reach,
    }
}

/// The point a grabbing ray holds: its origin advanced along its direction by
/// the current reach.
pub open spec fn spec_ray_point(r: RayData, reach: int) -> Vec3 {
    let n = spec_isqrt(spec_len_sq(r.direction));
    Vec3 {
        x: (r.origin.x + div_trunc(r.direction.x * reach, n * 1000)) as i64,
        y: (r.origin.y + div_trunc(r.direction.y * reach, n * 1000)) as i64,
        z: (r.origin.z + div_trunc(r.direction.z * reach, n * 1000)) as i64,
    }
}

/// The corner position the actor holds this frame: a ray holds its reach
/// point, a hand its thumb-to-index midpoint, a tip its origin.
pub open spec fn spec_handle_point(actor: Option<InputSample>, reach: int) -> Option<Vec3> {
    match actor {
        None => None,
        Some(s) => match s.kind {
            InputKind::Ray(r) => Some(spec_ray_point(r, reach)),
            InputKind::Hand(h) => Some(
                Vec3 {
                    x: div_trunc(h.thumb_tip.x + h.index_tip.x, 2) as i64,
                    y: div_trunc(h.thumb_tip.y + h.index_tip.y, 2) as i64,
                    z: div_trunc(h.thumb_tip.z + h.index_tip.z, 2) as i64,
                },
            ),
            InputKind::Tip(t) => Some(t.origin),
        },
    }
}

/// Visual cues one handle reports each frame.
#[derive(Clone, Copy, Debug, PartialEq, Eq, Structural)]
pub struct HandleFeedback {
    /// Something just came close: the hover set went from empty to nonempty.
    pub approached: bool,
    /// Everything left: the hover set went from nonempty to empty.
    pub emptied: bool,
    /// A grab started this frame.
    pub grab_started: bool,
    /// A grab stopped this frame.
    pub grab_stopped: bool,
}

/// One corner handle of the resize manipulator.
pub struct ResizeHandle {
    /// Geometry of the handle.
    pub settings: GrabBallSettings,
    /// Position of the handle; a grab point while grabbed (in the root
    /// frame), a rest corner position otherwise (in the content frame).
    pub pos: Vec3,
    /// The grab action driving the handle.
    pub grab_action: SingleActorAction,
    /// Current reach of a ray grab, in micro-steps.
    pub reach: i64,
}

impl ResizeHandle {
    /// Well-formedness: settings and position are bounded and the grab action
    /// holds capture while owned and never changes actors.
    pub open spec fn wf(self) -> bool {
        &&& self.settings.wf()
        &&& self.pos.bounded_by(2 * COORD_LIMIT as int)
        &&& 0 <= self.reach <= MAX_RAY_REACH
        &&& self.grab_action.spec_capture_on_trigger()
        &&& !self.grab_action.spec_change_actor()
    }

    /// A new idle handle at the origin.
    pub fn create(settings: GrabBallSettings) -> (h: ResizeHandle)
        requires
            settings.wf(),
        ensures
            h.wf(),
            h.settings == settings,
            h.pos == (Vec3 { x: 0, y: 0, z: 0 }),
            h.reach == 0,
            h.grab_action.spec_actor() is None,
            !h.grab_action.spec_acting(),
            !h.grab_action.spec_started(),
            !h.grab_action.spec_stopped(),
    {
        ResizeHandle {
            settings,
            pos: Vec3 { x: 0, y: 0, z: 0 },
            grab_action: SingleActorAction::new(true, false),
            reach: 0,
        }
    }

    /// Advance one frame: update the grab action, adjust a ray grab's reach
    /// by this frame's scroll, and move the handle to the actor's grab point
    /// while one exists.
    pub fn handle_events(&mut self, batch: &Vec<InputSample>) -> (fb: HandleFeedback)
        requires
            spec_batch_wf(batch@),
            old(self).wf(),
        ensures
            final(self).wf(),
            final(self).settings == old(self).settings,
            final(self).grab_action.spec_actor() == spec_next_actor(
                old(self).grab_action.spec_actor(),
                batch@,
                spec_handle_hover(old(self).settings),
                spec_handle_commit(),
                old(self).grab_action.spec_committing(),
                false,
            ),
            final(self).grab_action.spec_committing() == spec_satisfying(
                batch@,
                spec_handle_commit(),
            ),
            final(self).grab_action.spec_hovering() == spec_satisfying(
                batch@,
                spec_handle_hover(old(self).settings),
            ),
            final(self).grab_action.spec_started() == (old(self).grab_action.spec_actor() is None
                && final(self).grab_action.spec_actor() is Some),
            final(self).grab_action.spec_stopped() == (old(self).grab_action.spec_actor() is Some
                && final(self).grab_action.spec_actor() is None),
            final(self).grab_action.spec_acting() == (final(self).grab_action.spec_actor()
                is Some),
            final(self).reach == spec_reach_step(
                old(self).reach as int,
                final(self).grab_action.spec_actor(),
                final(self).grab_action.spec_started(),
            ),
            final(self).pos == (match spec_handle_point(
                final(self).grab_action.spec_actor(),
                final(self).reach as int,
            ) {
                Some(p) => p,
                None => old(self).pos,
            }),
            fb.grab_started == final(self).grab_action.spec_started(),
            fb.grab_stopped == final(self).grab_action.spec_stopped(),
            fb.approached == ({
                let added = final(self).grab_action.spec_hovering().filter(
                    |s: InputSample| !crate::sample::spec_has_id(
                        old(self).grab_action.spec_hovering(),
                        s.id,
                    ),
                );
                added.len() > 0 && added.len() == final(self).grab_action.spec_hovering().len()
            }),
            fb.emptied == ({
                let removed = old(self).grab_action.spec_hovering().filter(
                    |s: InputSample| !crate::sample::spec_has_id(
                        final(self).grab_action.spec_hovering(),
                        s.id,
                    ),
                );
                final(self).grab_action.spec_hovering().len() == 0 && removed.len() > 0
            }),
    {
        let hover = GrabHover {
            threshold: self.settings.radius + self.settings.padding,
            ray_eligible: true,
        };
        let commit = GrabCommit { threshold: GRAB_TRIGGER };
        let diff = self.grab_action.update(batch, &hover, &commit);
        let hovering_now = self.grab_action.hovering().currently_acting().len();

        let fb = HandleFeedback {
            approached: diff.added.len() > 0 && diff.added.len() == hovering_now,
            emptied: hovering_now == 0 && diff.removed.len() > 0,
            grab_started: self.grab_action.actor_started(),
            grab_stopped: self.grab_action.actor_stopped(),
        };

        let actor: Option<InputSample> = match self.grab_action.actor() {
            Some(s) => Some(*s),
            None => None,
        };
        match actor {
            None => {},
            Some(s) => {
                match &s.kind {
                    InputKind::Ray(r) => {
                        if self.grab_action.actor_started() {
                            let base = distance(r.origin, r.deepest_point);
                            self.reach = base * 1000;
                        }
                        let adjusted: i64 = self.reach + s.aux.scroll_continuous.y * 10
                            + s.aux.scroll_discrete.y * 50;
                        self.reach = clamp_i64(adjusted, 0, MAX_RAY_REACH);
                        self.pos = ray_point(r, self.reach);
                    },
                    InputKind::Hand(h) => {
                        self.pos = midpoint(h.thumb_tip, h.index_tip);
                    },
                    InputKind::Tip(t) => {
                        self.pos = t.origin;
                    },
                }
            },
        }
        fb
    }
}

/// Advance a ray's origin along its direction by `reach` micro-steps.
fn ray_point(r: &RayData, reach: i64) -> (p: Vec3)
    requires
        r.origin.bounded(),
        r.direction.bounded(),
        spec_len_sq(r.direction) > 0,
        0 <= reach <= MAX_RAY_REACH,
    ensures
        p == spec_ray_point(*r, reach as int),
        p.bounded_by(2 * COORD_LIMIT as int),
{
    let s = len_sq(r.direction);
    let n = isqrt_i64(s);
    proof {
        let ni = n as int;
        let si = s as int;
        assert(si < (ni + 1) * (ni + 1));
        assert(ni >= 1) by (nonlinear_arith)
            requires
                0 <= ni,
                si >= 1,
                si < (ni + 1) * (ni + 1),
        ;
        assert(r.direction.x as int * r.direction.x as int <= s as int
            && r.direction.y as int * r.direction.y as int <= s as int
            && r.direction.z as int * r.direction.z as int <= s as int) by (nonlinear_arith)
            requires
                s as int == spec_len_sq(r.direction),
        ;
        lemma_ray_scale_bound(r.direction.x as int, reach as int, n as int, s as int);
        lemma_ray_scale_bound(r.direction.y as int, reach as int, n as int, s as int);
        lemma_ray_scale_bound(r.direction.z as int, reach as int, n as int, s as int);
        assert(ni <= 200_000_000) by (nonlinear_arith)
            requires
                0 <= ni,
                ni * ni <= si,
                si <= 3 * (COORD_LIMIT as int) * (COORD_LIMIT as int),
                COORD_LIMIT == 100_000_000,
        ;
    }
    let d: i64 = n * 1000;
    Vec3 {
        x: r.origin.x + mul_div(r.direction.x, reach, d),
        y: r.origin.y + mul_div(r.direction.y, reach, d),
        z: r.origin.z + mul_div(r.direction.z, reach, d),
    }
}

/// Scaling a direction component by the reach and dividing by the direction's
/// length (in micro-steps) stays within the coordinate bound.
proof fn lemma_ray_scale_bound(c: int, reach: int, n: int, s: int)
    requires
        c * c <= s,
        1 <= n,
        n * n <= s,
        s < (n + 1) * (n + 1),
        0 <= reach <= MAX_RAY_REACH as int,
    ensures
        spec_abs(div_trunc(c * reach, n * 1000)) <= COORD_LIMIT as int,
{
    crate::math::lemma_component_within_isqrt(c, s, n);
    assert(spec_abs(c * reach) <= (n * 1000) * (COORD_LIMIT as int)) by (nonlinear_arith)
        requires
            -n <= c <= n,
            0 <= reach <= MAX_RAY_REACH as int,
            1 <= n,
            MAX_RAY_REACH == 1000 * (COORD_LIMIT as int),
    ;
    lemma_div_trunc_bound(c * reach, n * 1000, COORD_LIMIT as int);
}


/// Gap kept between the rectangle's corners and the floating handles.
pub const RESIZE_HANDLE_FLOATING: i64 = 25;

/// Default upper bound of a panel's size on each axis.
pub const MAX_PANEL_SIZE: i64 = 4_096_000;

/// What the geometry solver derives from the two live corners: the
/// rectangle's center, its orientation (as two integer direction pairs whose
/// angles the renderer turns into a yaw and a pitch rotation), and its size.
#[derive(Clone, Copy, Debug, PartialEq, Eq, Structural)]
pub struct SolvedTransform {
    /// Midpoint of the two corners.
    pub center: Vec3,
    /// Horizontal direction from the viewer to the center, as its level
    /// plane components; the yaw turns the rectangle to face back along it.
    /// Zero when the viewer stands on the vertical axis through the center.
    pub yaw_dir: Vec2,
    /// Direction of the corner-to-corner line within the yaw-aligned
    /// vertical plane, as a (depth, height) pair scaled by a positive factor;
    /// its angle is the rectangle's pitch.
    pub tilt_dir: Vec2,
    /// Width and height of the rectangle, after shedding the handle gap and
    /// clamping into the configured size range.
    pub size: Vec2,
}

/// The geometry solver. `corner1` is the bottom handle, `corner2` the top
/// one, both relative to the root; `viewer` is the head position in the same
/// frame. The center is the corner midpoint. The yaw turns the rectangle
/// toward the viewer: with `w` the horizontal viewer-to-center direction, the
/// width is the corner difference's horizontal component across `w` and the
/// height its remainder in the yaw-aligned plane, each less twice the handle
/// gap, raised to the minimum size and capped at the maximum. If the viewer
/// stands exactly on the vertical axis through the center, the yaw falls
/// back to a quarter turn, which swaps the depth axis into the width.
pub open spec fn spec_solve(
    corner1: Vec3,
    corner2: Vec3,
    viewer: Vec3,
    min_size: Vec2,
    max_size: Vec2,
    margin: int,
) -> SolvedTransform {
    let center = Vec3 {
        x: div_trunc(corner1.x + corner2.x, 2) as i64,
        y: div_trunc(corner1.y + corner2.y, 2) as i64,
        z: div_trunc(corner1.z + corner2.z, 2) as i64,
    };
    let wx = center.x - viewer.x;
    let wz = center.z - viewer.z;
    let dx = corner1.x - corner2.x;
    let dy = corner1.y - corner2.y;
    let dz = corner1.z - corner2.z;
    let m = wx * wx + wz * wz;
    if m == 0 {
        let sx = spec_abs(dz) - 2 * margin;
        let sy = spec_isqrt(dx * dx + dy * dy) - 2 * margin;
        SolvedTransform {
            center,
            yaw_dir: Vec2 { x: 0, y: 0 },
            tilt_dir: Vec2 { x: (-dx) as i64, y: dy as i64 },
            size: Vec2 {
                x: spec_min(spec_max(sx, min_size.x as int), max_size.x as int) as i64,
                y: spec_min(spec_max(sy, min_size.y as int), max_size.y as int) as i64,
            },
        }
    } else {
        let n = spec_isqrt(m);
        let cross = wx * dz - wz * dx;
        let dotv = wx * dx + wz * dz;
        let sx = div_trunc(spec_abs(cross), n) - 2 * margin;
        let sy = div_trunc(spec_isqrt(dy * dy * n * n + dotv * dotv), n) - 2 * margin;
        SolvedTransform {
            center,
            yaw_dir: Vec2 { x: wx as i64, y: wz as i64 },
            tilt_dir: Vec2 { x: (-dotv) as i64, y: (dy * n) as i64 },
            size: Vec2 {
                x: spec_min(spec_max(sx, min_size.x as int), max_size.x as int) as i64,
                y: spec_min(spec_max(sy, min_size.y as int), max_size.y as int) as i64,
            },
        }
    }
}

/// Run the geometry solver on machine words.
pub fn solve_content_transform(
    corner1: Vec3,
    corner2: Vec3,
    viewer: Vec3,
    min_size: Vec2,
    max_size: Vec2,
    margin: i64,
) -> (t: SolvedTransform)
    requires
        corner1.bounded_by(2 * COORD_LIMIT as int),
        corner2.bounded_by(2 * COORD_LIMIT as int),
        viewer.bounded(),
        0 <= margin <= 1000,
    ensures
        t == spec_solve(corner1, corner2, viewer, min_size, max_size, margin as int),
{
    let cl: i64 = COORD_LIMIT;
    let center = Vec3 {
        x: (corner1.x + corner2.x) / 2,
        y: (corner1.y + corner2.y) / 2,
        z: (corner1.z + corner2.z) / 2,
    };
    let wx: i64 = center.x - viewer.x;
    let wz: i64 = center.z - viewer.z;
    let dx: i64 = corner1.x - corner2.x;
    let dy: i64 = corner1.y - corner2.y;
    let dz: i64 = corner1.z - corner2.z;
    proof {
        crate::math::lemma_square_bound(wx as int, 3 * cl as int);
        crate::math::lemma_square_bound(wz as int, 3 * cl as int);
    }
    let m: i64 = wx * wx + wz * wz;
    if m == 0 {
        proof {
            crate::math::lemma_square_bound(dx as int, 4 * cl as int);
            crate::math::lemma_square_bound(dy as int, 4 * cl as int);
        }
        let planar: i64 = isqrt_i64(dx * dx + dy * dy);
        let sx: i64 = abs_i64(dz) - 2 * margin;
        let sy: i64 = planar - 2 * margin;
        SolvedTransform {
            center,
            yaw_dir: Vec2 { x: 0, y: 0 },
            tilt_dir: Vec2 { x: -dx, y: dy },
            size: Vec2 {
                x: crate::math::raise_then_cap(sx, min_size.x, max_size.x),
                y: crate::math::raise_then_cap(sy, min_size.y, max_size.y),
            },
        }
    } else {
        let n: i64 = isqrt_i64(m);
        proof {
            let ni = n as int;
            let mi = m as int;
            assert(1 <= ni <= 430_000_000) by (nonlinear_arith)
                requires
                    0 <= ni,
                    ni * ni <= mi,
                    1 <= mi,
                    mi <= 2 * (3 * cl as int) * (3 * cl as int),
                    mi < (ni + 1) * (ni + 1),
                    cl == 100_000_000,
            ;
            crate::math::lemma_mul_bound(wx as int, 3 * cl as int, dz as int, 4 * cl as int);
            crate::math::lemma_mul_bound(wz as int, 3 * cl as int, dx as int, 4 * cl as int);
            crate::math::lemma_mul_bound(wx as int, 3 * cl as int, dx as int, 4 * cl as int);
            crate::math::lemma_mul_bound(wz as int, 3 * cl as int, dz as int, 4 * cl as int);
            crate::math::lemma_mul_bound(dy as int, 4 * cl as int, n as int, 430_000_000);
        }
        let cross: i64 = wx * dz - wz * dx;
        let dotv: i64 = wx * dx + wz * dz;
        let dyn_scaled: i64 = dy * n;
        proof {
            crate::math::lemma_i64_product_fits(dyn_scaled as int, dyn_scaled as int);
            crate::math::lemma_i64_product_fits(dotv as int, dotv as int);
            let a = dyn_scaled as int;
            let b = dotv as int;
            assert(0 <= a * a + b * b < 0x4000_0000_0000_0000_0000_0000_0000_0000) by (
            nonlinear_arith)
                requires
                    -200_000_000_000_000_000 <= a <= 200_000_000_000_000_000,
                    -300_000_000_000_000_000 <= b <= 300_000_000_000_000_000,
            ;
        }
        let inner: i128 = (dyn_scaled as i128) * (dyn_scaled as i128) + (dotv as i128) * (
        dotv as i128);
        let root: u64 = crate::math::isqrt(inner as u128);
        proof {
            let a = dyn_scaled as int;
            let b = dotv as int;
            let ri = root as int;
            assert(a * a == dy as int * dy as int * (n as int * n as int)) by (nonlinear_arith)
                requires
                    a == dy as int * n as int,
            ;
            assert(ri <= 0x7fff_ffff_ffff_ffff) by (nonlinear_arith)
                requires
                    0 <= ri,
                    ri * ri <= a * a + b * b,
                    -200_000_000_000_000_000 <= a <= 200_000_000_000_000_000,
                    -300_000_000_000_000_000 <= b <= 300_000_000_000_000_000,
            ;
        }
        proof {
            let a = dyn_scaled as int;
            let b = dotv as int;
            assert(inner as int == a * a + b * b);
            assert(inner as u128 as int == inner as int);
            assert(a * a + b * b == dy as int * dy as int * (n as int) * (n as int) + b * b) by (
            nonlinear_arith)
                requires
                    a == dy as int * n as int,
            ;
            assert(root as int == spec_isqrt(
                dy as int * dy as int * (n as int) * (n as int) + dotv as int * dotv as int,
            ));
        }
        let root_i: i64 = root as i64;
        let sx: i64 = abs_i64(cross) / n - 2 * margin;
        let sy: i64 = root_i / n - 2 * margin;
        SolvedTransform {
            center,
            yaw_dir: Vec2 { x: wx, y: wz },
            tilt_dir: Vec2 { x: -dotv, y: dyn_scaled },
            size: Vec2 {
                x: crate::math::raise_then_cap(sx, min_size.x, max_size.x),
                y: crate::math::raise_then_cap(sy, min_size.y, max_size.y),
            },
        }
    }
}


/// What one frame of the resize manipulator reports.
pub struct ResizeUpdate {
    /// Visual cues of the top corner handle.
    pub top_feedback: HandleFeedback,
    /// Visual cues of the bottom corner handle.
    pub bottom_feedback: HandleFeedback,
    /// Free-drag mode began this frame: one corner was grabbed while the
    /// other rests, so the content frame must stop moving as a rigid body.
    pub free_drag_started: bool,
    /// Free-drag mode ended this frame: the grab ended with the other corner
    /// at rest, so the content frame is rigid again.
    pub free_drag_ended: bool,
    /// The solved content transform, when a corner was active and the
    /// viewer's position was known this frame.
    pub new_transform: Option<SolvedTransform>,
    /// The solved size, only on frames where it differs from the last
    /// published size.
    pub new_size: Option<Vec2>,
}

/// The lower bound of the size range: the configured minimum, or zero.
pub open spec fn spec_min_size_or_default(min_size: Option<Vec2>) -> Vec2 {
    match min_size {
        Some(v) => v,
        None => Vec2 { x: 0, y: 0 },
    }
}

/// The upper bound of the size range: the configured maximum, or the stock
/// panel limit.
pub open spec fn spec_max_size_or_default(max_size: Option<Vec2>) -> Vec2 {
    match max_size {
        Some(v) => v,
        None => Vec2 { x: MAX_PANEL_SIZE, y: MAX_PANEL_SIZE },
    }
}

/// The rest position of the top corner handle for a given panel size: half
/// the size plus the floating gap, on both axes.
pub open spec fn spec_rest_corner(panel_size: Vec2) -> Vec3 {
    Vec3 {
        x: (div_trunc(panel_size.x as int, 2) + RESIZE_HANDLE_FLOATING) as i64,
        y: (div_trunc(panel_size.y as int, 2) + RESIZE_HANDLE_FLOATING) as i64,
        z: 0,
    }
}

/// The two-corner resize manipulator: a pair of grab handles and the solver
/// publishing the content transform and size.
pub struct ResizeHandles {
    /// The top corner handle.
    pub top: ResizeHandle,
    /// The bottom corner handle.
    pub bottom: ResizeHandle,
    /// Configured lower size bound, if any.
    pub min_size: Option<Vec2>,
    /// Configured upper size bound, if any.
    pub max_size: Option<Vec2>,
    /// The size as last published.
    pub size: Vec2,
    /// Whether the content frame is in free-drag mode.
    pub free_drag: bool,
}

impl ResizeHandles {
    /// Well-formedness of the pair.
    pub open spec fn wf(self) -> bool {
        self.top.wf() && self.bottom.wf()
    }

    /// A new pair of idle corner handles placed for `initial_size`.
    pub fn create(initial_size: Vec2, min_size: Option<Vec2>, max_size: Option<Vec2>) -> (r:
        ResizeHandles)
        requires
            0 <= initial_size.x <= COORD_LIMIT,
            0 <= initial_size.y <= COORD_LIMIT,
        ensures
            r.wf(),
            r.min_size == min_size,
            r.max_size == max_size,
            r.size == initial_size,
            !r.free_drag,
            r.top.pos == spec_rest_corner(initial_size),
            r.bottom.pos == (Vec3 {
                x: (-spec_rest_corner(initial_size).x) as i64,
                y: (-spec_rest_corner(initial_size).y) as i64,
                z: 0,
            }),
            r.top.grab_action.spec_actor() is None,
            r.bottom.grab_action.spec_actor() is None,
    {
        let settings = GrabBallSettings { radius: 5, padding: 20 };
        let mut pair = ResizeHandles {
            top: ResizeHandle::create(settings),
            bottom: ResizeHandle::create(settings),
            min_size,
            max_size,
            size: initial_size,
            free_drag: false,
        };
        pair.set_handle_positions(initial_size);
        pair
    }

    /// Place both corner handles at their rest positions for `panel_size`,
    /// unless a corner is being grabbed. The inverse of the solver, used when
    /// the rectangle's size changes from an external cause.
    pub fn set_handle_positions(&mut self, panel_size: Vec2)
        requires
            old(self).wf(),
            0 <= panel_size.x <= COORD_LIMIT,
            0 <= panel_size.y <= COORD_LIMIT,
        ensures
            final(self).wf(),
            final(self).min_size == old(self).min_size,
            final(self).max_size == old(self).max_size,
            final(self).size == old(self).size,
            final(self).free_drag == old(self).free_drag,
            final(self).top.grab_action == old(self).top.grab_action,
            final(self).bottom.grab_action == old(self).bottom.grab_action,
            final(self).top.reach == old(self).top.reach,
            final(self).bottom.reach == old(self).bottom.reach,
            if old(self).top.grab_action.spec_acting() || old(self).bottom.grab_action.spec_acting() {
                final(self).top.pos == old(self).top.pos && final(self).bottom.pos == old(self).bottom.pos
            } else {
                final(self).top.pos == spec_rest_corner(panel_size) && final(self).bottom.pos == (
                Vec3 {
                    x: (-spec_rest_corner(panel_size).x) as i64,
                    y: (-spec_rest_corner(panel_size).y) as i64,
                    z: 0,
                })
            },
    {
        if !self.top.grab_action.actor_acting() && !self.bottom.grab_action.actor_acting() {
            let ox: i64 = panel_size.x / 2 + RESIZE_HANDLE_FLOATING;
            let oy: i64 = panel_size.y / 2 + RESIZE_HANDLE_FLOATING;
            self.top.pos = Vec3 { x: ox, y: oy, z: 0 };
            self.bottom.pos = Vec3 { x: -ox, y: -oy, z: 0 };
        }
    }
}


impl ResizeHandles {
    /// Advance one frame. Both handles process their own batches; while a
    /// corner is grabbed (and the viewer's position is known) the solver
    /// recomputes the content transform from the live corner positions, and
    /// the size is published when it differs from the last published value.
    /// Free-drag mode begins when one corner is grabbed while the other
    /// rests, and ends when that grab stops with the other corner at rest.
    pub fn handle_events(
        &mut self,
        top_batch: &Vec<InputSample>,
        bottom_batch: &Vec<InputSample>,
        viewer: Option<Vec3>,
    ) -> (out: ResizeUpdate)
        requires
            old(self).wf(),
            spec_batch_wf(top_batch@),
            spec_batch_wf(bottom_batch@),
            match viewer {
                Some(v) => v.bounded(),
                None => true,
            },
        ensures
            final(self).wf(),
            final(self).min_size == old(self).min_size,
            final(self).max_size == old(self).max_size,
            // each handle stepped exactly as its own frame function says
            final(self).top.settings == old(self).top.settings,
            final(self).bottom.settings == old(self).bottom.settings,
            final(self).top.grab_action.spec_actor() == spec_next_actor(
                old(self).top.grab_action.spec_actor(),
                top_batch@,
                spec_handle_hover(old(self).top.settings),
                spec_handle_commit(),
                old(self).top.grab_action.spec_committing(),
                false,
            ),
            final(self).bottom.grab_action.spec_actor() == spec_next_actor(
                old(self).bottom.grab_action.spec_actor(),
                bottom_batch@,
                spec_handle_hover(old(self).bottom.settings),
                spec_handle_commit(),
                old(self).bottom.grab_action.spec_committing(),
                false,
            ),
            final(self).top.grab_action.spec_started() == (old(self).top.grab_action.spec_actor() is None
                && final(self).top.grab_action.spec_actor() is Some),
            final(self).top.grab_action.spec_stopped() == (old(self).top.grab_action.spec_actor() is Some
                && final(self).top.grab_action.spec_actor() is None),
            final(self).top.grab_action.spec_acting() == (final(self).top.grab_action.spec_actor() is Some),
            final(self).bottom.grab_action.spec_started() == (old(self).bottom.grab_action.spec_actor() is None
                && final(self).bottom.grab_action.spec_actor() is Some),
            final(self).bottom.grab_action.spec_stopped() == (old(self).bottom.grab_action.spec_actor() is Some
                && final(self).bottom.grab_action.spec_actor() is None),
            final(self).bottom.grab_action.spec_acting() == (final(self).bottom.grab_action.spec_actor() is Some),
            final(self).top.reach == spec_reach_step(
                old(self).top.reach as int,
                final(self).top.grab_action.spec_actor(),
                final(self).top.grab_action.spec_started(),
            ),
            final(self).bottom.reach == spec_reach_step(
                old(self).bottom.reach as int,
                final(self).bottom.grab_action.spec_actor(),
                final(self).bottom.grab_action.spec_started(),
            ),
            final(self).top.pos == (match spec_handle_point(
                final(self).top.grab_action.spec_actor(),
                final(self).top.reach as int,
            ) {
                Some(p) => p,
                None => old(self).top.pos,
            }),
            final(self).bottom.pos == (match spec_handle_point(
                final(self).bottom.grab_action.spec_actor(),
                final(self).bottom.reach as int,
            ) {
                Some(p) => p,
                None => old(self).bottom.pos,
            }),
            // feedback mirrors the handles' transition flags and hover sets
            final(self).top.grab_action.spec_hovering() == spec_satisfying(
                top_batch@,
                spec_handle_hover(old(self).top.settings),
            ),
            final(self).bottom.grab_action.spec_hovering() == spec_satisfying(
                bottom_batch@,
                spec_handle_hover(old(self).bottom.settings),
            ),
            out.top_feedback.grab_started == final(self).top.grab_action.spec_started(),
            out.top_feedback.grab_stopped == final(self).top.grab_action.spec_stopped(),
            out.bottom_feedback.grab_started == final(self).bottom.grab_action.spec_started(),
            out.bottom_feedback.grab_stopped == final(self).bottom.grab_action.spec_stopped(),
            out.top_feedback.approached == ({
                let added = final(self).top.grab_action.spec_hovering().filter(
                    |s: InputSample| !crate::sample::spec_has_id(
                        old(self).top.grab_action.spec_hovering(),
                        s.id,
                    ),
                );
                added.len() > 0 && added.len() == final(self).top.grab_action.spec_hovering().len()
            }),
            out.top_feedback.emptied == ({
                let removed = old(self).top.grab_action.spec_hovering().filter(
                    |s: InputSample| !crate::sample::spec_has_id(
                        final(self).top.grab_action.spec_hovering(),
                        s.id,
                    ),
                );
                final(self).top.grab_action.spec_hovering().len() == 0 && removed.len() > 0
            }),
            out.bottom_feedback.approached == ({
                let added = final(self).bottom.grab_action.spec_hovering().filter(
                    |s: InputSample| !crate::sample::spec_has_id(
                        old(self).bottom.grab_action.spec_hovering(),
                        s.id,
                    ),
                );
                added.len() > 0 && added.len() == final(self).bottom.grab_action.spec_hovering().len()
            }),
            out.bottom_feedback.emptied == ({
                let removed = old(self).bottom.grab_action.spec_hovering().filter(
                    |s: InputSample| !crate::sample::spec_has_id(
                        final(self).bottom.grab_action.spec_hovering(),
                        s.id,
                    ),
                );
                final(self).bottom.grab_action.spec_hovering().len() == 0 && removed.len() > 0
            }),
            // free-drag transitions
            out.free_drag_started == ((final(self).top.grab_action.spec_started() && !final(self).bottom.grab_action.spec_acting()) || (final(self).bottom.grab_action.spec_started()
                && !final(self).top.grab_action.spec_acting())),
            out.free_drag_ended == ((final(self).top.grab_action.spec_stopped() && !final(self).bottom.grab_action.spec_acting()) || (final(self).bottom.grab_action.spec_stopped()
                && !final(self).top.grab_action.spec_acting())),
            final(self).free_drag == (if out.free_drag_ended {
                false
            } else if out.free_drag_started {
                true
            } else {
                old(self).free_drag
            }),
            // the solver's output and the published size
            out.new_transform == (if (final(self).top.grab_action.spec_acting() || final(self).bottom.grab_action.spec_acting()) && viewer is Some {
                Some(
                    spec_solve(
                        final(self).bottom.pos,
                        final(self).top.pos,
                        viewer->Some_0,
                        spec_min_size_or_default(old(self).min_size),
                        spec_max_size_or_default(old(self).max_size),
                        RESIZE_HANDLE_FLOATING as int,
                    ),
                )
            } else {
                None
            }),
            out.new_size == (match out.new_transform {
                Some(t) => if t.size != old(self).size {
                    Some(t.size)
                } else {
                    None
                },
                None => None,
            }),
            final(self).size == (match out.new_transform {
                Some(t) => t.size,
                None => old(self).size,
            }),
    {
        let bottom_feedback = self.bottom.handle_events(bottom_batch);
        let top_feedback = self.top.handle_events(top_batch);

        let top_acting = self.top.grab_action.actor_acting();
        let bottom_acting = self.bottom.grab_action.actor_acting();
        let free_drag_started = (self.top.grab_action.actor_started() && !bottom_acting) || (
        self.bottom.grab_action.actor_started() && !top_acting);
        let free_drag_ended = (self.top.grab_action.actor_stopped() && !bottom_acting) || (
        self.bottom.grab_action.actor_stopped() && !top_acting);
        if free_drag_started {
            self.free_drag = true;
        }
        if free_drag_ended {
            self.free_drag = false;
        }

        let mut new_transform: Option<SolvedTransform> = None;
        let mut new_size: Option<Vec2> = None;
        if top_acting || bottom_acting {
            if let Some(v) = viewer {
                let min_size = match self.min_size {
                    Some(v2) => v2,
                    None => Vec2 { x: 0, y: 0 },
                };
                let max_size = match self.max_size {
                    Some(v2) => v2,
                    None => Vec2 { x: MAX_PANEL_SIZE, y: MAX_PANEL_SIZE },
                };
                let solved = solve_content_transform(
                    self.bottom.pos,
                    self.top.pos,
                    v,
                    min_size,
                    max_size,
                    RESIZE_HANDLE_FLOATING,
                );
                if solved.size.x != self.size.x || solved.size.y != self.size.y {
                    new_size = Some(solved.size);
                }
                self.size = solved.size;
                new_transform = Some(solved);
            }
        }

        ResizeUpdate {
            top_feedback,
            bottom_feedback,
            free_drag_started,
            free_drag_ended,
            new_transform,
            new_size,
        }
    }
}


/// On a rectangle standing square to the viewer — both corners on the depth
/// axis through the center, the viewer level with that axis — the solver's
/// height is exactly the corner-to-corner distance less twice the handle
/// gap (so with no gap it is the full corner distance), and its width
/// collapses to the configured minimum.
#[verifier::rlimit(60)]
pub proof fn lemma_solver_depth_axis(
    c1: Vec3,
    c2: Vec3,
    v: Vec3,
    min_size: Vec2,
    max_size: Vec2,
    margin: int,
    h: int,
)
    requires
        0 < h <= COORD_LIMIT,
        c1 == (Vec3 { x: 0, y: 0, z: h as i64 }),
        c2 == (Vec3 { x: 0, y: 0, z: (-h) as i64 }),
        v.bounded(),
        v.x == 0,
        v.z != 0,
        0 <= margin <= h,
        0 <= min_size.x <= max_size.x,
        0 <= min_size.y <= max_size.y,
    ensures
        spec_solve(c1, c2, v, min_size, max_size, margin).size.y == spec_min(
            spec_max(2 * h - 2 * margin, min_size.y as int),
            max_size.y as int,
        ),
        min_size.y <= 2 * h - 2 * margin <= max_size.y ==> spec_solve(
            c1,
            c2,
            v,
            min_size,
            max_size,
            margin,
        ).size.y == 2 * h - 2 * margin,
        2 * h - 2 * margin <= min_size.y ==> spec_solve(
            c1,
            c2,
            v,
            min_size,
            max_size,
            margin,
        ).size.y == min_size.y,
        spec_solve(c1, c2, v, min_size, max_size, margin).size.x == min_size.x,
        margin == 0 && min_size.y <= 2 * h <= max_size.y ==> spec_solve(
            c1,
            c2,
            v,
            min_size,
            max_size,
            margin,
        ).size.y == spec_isqrt(spec_dist_sq(c1, c2)),
{
    let t = spec_solve(c1, c2, v, min_size, max_size, margin);
    let wz = -(v.z as int);
    let nz = spec_abs(wz);
    let dz = c1.z - c2.z;
    let dotv = wz * dz;
    let root = 2 * h * nz;

    // the solver's intermediate values on these inputs
    assert(div_trunc(c1.x + c2.x, 2) == 0);
    assert(div_trunc(c1.y + c2.y, 2) == 0);
    assert(div_trunc(c1.z + c2.z, 2) == 0);
    assert(t.center == (Vec3 { x: 0, y: 0, z: 0 }));
    assert(dz == 2 * h);

    // the horizontal viewer direction is purely along the depth axis
    assert(0 < nz * nz && nz * nz <= wz * wz && wz * wz < (nz + 1) * (nz + 1)) by (
    nonlinear_arith)
        requires
            wz != 0,
            nz == spec_abs(wz),
    ;
    crate::math::lemma_isqrt_unique(wz * wz, nz);
    assert(0int * 0int + wz * wz == wz * wz);

    // the corner difference is wholly lengthwise: no crosswise part
    assert(0int * dz - wz * 0int == 0);
    assert(div_trunc(spec_abs(0), nz) == 0) by {
        vstd::arithmetic::div_mod::lemma_div_multiples_vanish(0, nz);
    }

    // the lengthwise part is the full corner distance, scaled by the
    // direction's length
    assert(0int * 0int + wz * dz == dotv);
    assert(root * root == dotv * dotv && root >= 0 && dotv * dotv < (root + 1) * (root + 1)) by (
    nonlinear_arith)
        requires
            nz == spec_abs(wz),
            dotv == wz * dz,
            dz == 2 * h,
            root == 2 * h * nz,
            h > 0,
            nz > 0,
    ;
    let dy = c1.y - c2.y;
    assert(dy == 0);
    assert(dy * dy * nz * nz + dotv * dotv == dotv * dotv) by (nonlinear_arith)
        requires
            dy == 0,
    ;
    crate::math::lemma_isqrt_unique(dotv * dotv, root);
    assert(div_trunc(root, nz) == 2 * h) by {
        vstd::arithmetic::div_mod::lemma_div_multiples_vanish(2 * h, nz);
        assert(root == nz * (2 * h)) by (nonlinear_arith)
            requires
                root == 2 * h * nz,
        ;
    }

    // the raw sizes, before clamping
    assert(t.size.y == spec_min(spec_max(2 * h - 2 * margin, min_size.y as int), max_size.y as int)
        as i64);
    assert(t.size.x == spec_min(spec_max(0 - 2 * margin, min_size.x as int), max_size.x as int)
        as i64);
    assert(t.size.x == min_size.x);

    // with no gap the height is exactly the corner distance
    let four_h_sq = 4 * h * h;
    assert(spec_dist_sq(c1, c2) == four_h_sq && 2 * h >= 0 && (2 * h) * (2 * h) <= four_h_sq
        && four_h_sq < (2 * h + 1) * (2 * h + 1)) by (nonlinear_arith)
        requires
            c1.z == h,
            c2.z == -h,
            c1.x == 0 && c1.y == 0 && c2.x == 0 && c2.y == 0,
            four_h_sq == 4 * h * h,
            h > 0,
            spec_dist_sq(c1, c2) == (c1.x - c2.x) * (c1.x - c2.x) + (c1.y - c2.y) * (c1.y - c2.y)
                + (c1.z - c2.z) * (c1.z - c2.z),
    ;
    crate::math::lemma_isqrt_unique(four_h_sq, 2 * h);
}


/// The solver is the inverse of the rest placement: with both handles at
/// their rest corners for a panel size (half-size plus the floating gap from
/// the center on each axis, at zero depth) and the viewer straight ahead,
/// the solver returns exactly twice the halved size on each axis — the panel
/// size itself whenever its components are even — clamped into the size
/// range; and the center stays at the origin.
#[verifier::rlimit(60)]
pub proof fn lemma_solver_inverts_rest_placement(
    panel_size: Vec2,
    c1: Vec3,
    c2: Vec3,
    v: Vec3,
    min_size: Vec2,
    max_size: Vec2,
)
    requires
        0 <= panel_size.x <= COORD_LIMIT,
        0 <= panel_size.y <= COORD_LIMIT,
        c2 == spec_rest_corner(panel_size),
        c1 == (Vec3 { x: (-c2.x) as i64, y: (-c2.y) as i64, z: 0 }),
        v.bounded(),
        v.x == 0,
        v.z != 0,
        0 <= min_size.x <= max_size.x,
        0 <= min_size.y <= max_size.y,
    ensures
        spec_solve(c1, c2, v, min_size, max_size, RESIZE_HANDLE_FLOATING as int).center == (Vec3 {
            x: 0,
            y: 0,
            z: 0,
        }),
        spec_solve(c1, c2, v, min_size, max_size, RESIZE_HANDLE_FLOATING as int).size.x
            == spec_min(
            spec_max(2 * div_trunc(panel_size.x as int, 2), min_size.x as int),
            max_size.x as int,
        ),
        spec_solve(c1, c2, v, min_size, max_size, RESIZE_HANDLE_FLOATING as int).size.y
            == spec_min(
            spec_max(2 * div_trunc(panel_size.y as int, 2), min_size.y as int),
            max_size.y as int,
        ),
        panel_size.x % 2 == 0 && min_size.x <= panel_size.x <= max_size.x ==> spec_solve(
            c1,
            c2,
            v,
            min_size,
            max_size,
            RESIZE_HANDLE_FLOATING as int,
        ).size.x == panel_size.x,
        panel_size.y % 2 == 0 && min_size.y <= panel_size.y <= max_size.y ==> spec_solve(
            c1,
            c2,
            v,
            min_size,
            max_size,
            RESIZE_HANDLE_FLOATING as int,
        ).size.y == panel_size.y,
{
    let margin = RESIZE_HANDLE_FLOATING as int;
    let t = spec_solve(c1, c2, v, min_size, max_size, margin);
    let a = div_trunc(panel_size.x as int, 2) + margin;
    let b = div_trunc(panel_size.y as int, 2) + margin;
    let wz = -(v.z as int);
    let nz = spec_abs(wz);

    // the corners sit symmetrically about the origin
    assert(0 <= div_trunc(panel_size.x as int, 2) <= COORD_LIMIT);
    assert(0 <= div_trunc(panel_size.y as int, 2) <= COORD_LIMIT);
    assert(c2.x == a && c2.y == b && c1.x == -a && c1.y == -b);
    assert(div_trunc(c1.x + c2.x, 2) == 0);
    assert(div_trunc(c1.y + c2.y, 2) == 0);
    assert(div_trunc(c1.z + c2.z, 2) == 0);
    assert(t.center == (Vec3 { x: 0, y: 0, z: 0 }));

    // the horizontal viewer direction is purely along the depth axis
    assert(0 < nz * nz && nz * nz <= wz * wz && wz * wz < (nz + 1) * (nz + 1)) by (
    nonlinear_arith)
        requires
            wz != 0,
            nz == spec_abs(wz),
    ;
    crate::math::lemma_isqrt_unique(wz * wz, nz);
    assert(0int * 0int + wz * wz == wz * wz);

    // the level-plane separation is wholly crosswise: it becomes the width
    let dx = c1.x - c2.x;
    let dy = c1.y - c2.y;
    assert(dx == -2 * a && dy == -2 * b);
    let cross = 0int * 0int - wz * dx;
    assert(spec_abs(cross) == 2 * a * nz) by (nonlinear_arith)
        requires
            cross == -(wz * (-2 * a)),
            nz == spec_abs(wz),
            a >= 0,
    ;
    assert(div_trunc(2 * a * nz, nz) == 2 * a) by {
        vstd::arithmetic::div_mod::lemma_div_multiples_vanish(2 * a, nz);
        assert(2 * a * nz == nz * (2 * a)) by (nonlinear_arith);
        assert(2 * a * nz >= 0) by (nonlinear_arith)
            requires
                a >= 0,
                nz > 0,
        ;
    }

    // the vertical separation stays the height, scaled by the direction's
    // length and divided out again
    let dotv = 0int * dx + wz * 0int;
    assert(dotv == 0) by (nonlinear_arith)
        requires
            dotv == 0int * dx + wz * 0int,
    ;
    let root = 2 * b * nz;
    assert(dy * dy * nz * nz + dotv * dotv == root * root && root >= 0 && root * root < (root + 1)
        * (root + 1)) by (nonlinear_arith)
        requires
            dy == -2 * b,
            dotv == 0,
            root == 2 * b * nz,
            b >= 0,
            nz > 0,
    ;
    crate::math::lemma_isqrt_unique(root * root, root);
    assert(div_trunc(root, nz) == 2 * b) by {
        vstd::arithmetic::div_mod::lemma_div_multiples_vanish(2 * b, nz);
        assert(root == nz * (2 * b)) by (nonlinear_arith)
            requires
                root == 2 * b * nz,
        ;
        assert(root >= 0) by (nonlinear_arith)
            requires
                root == 2 * b * nz,
                b >= 0,
                nz > 0,
        ;
    }

    // shedding twice the gap undoes the gap the placement added
    assert(2 * a - 2 * margin == 2 * div_trunc(panel_size.x as int, 2));
    assert(2 * b - 2 * margin == 2 * div_trunc(panel_size.y as int, 2));
    assert(t.size.x == spec_min(
        spec_max(2 * div_trunc(panel_size.x as int, 2), min_size.x as int),
        max_size.x as int,
    ) as i64);
    assert(t.size.y == spec_min(
        spec_max(2 * div_trunc(panel_size.y as int, 2), min_size.y as int),
        max_size.y as int,
    ) as i64);

    // an even size is recovered exactly
    if panel_size.x % 2 == 0 {
        vstd::arithmetic::div_mod::lemma_fundamental_div_mod(panel_size.x as int, 2);
        assert(2 * div_trunc(panel_size.x as int, 2) == panel_size.x);
    }
    if panel_size.y % 2 == 0 {
        vstd::arithmetic::div_mod::lemma_fundamental_div_mod(panel_size.y as int, 2);
        assert(2 * div_trunc(panel_size.y as int, 2) == panel_size.y);
    }
}

} // verus!
