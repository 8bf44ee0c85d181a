//! The surface input router: projection of spatial hover and touch contacts
//! onto one flat rectangular surface, in pixel space.
//!
//! One hover action tracks pointer focus, three single-actor actions gate the
//! mouse buttons, and one multi-actor action tracks touch points; all are
//! driven off the surface's per-frame batch. Positions are mapped from the
//! surface's physical extents into its pixel resolution, carried in
//! thousandths of a pixel.

use vstd::prelude::*;

use crate::action::spec_satisfying;
use crate::action::HoverAction;
use crate::action::MultiActorAction;
use crate::action::SamplePredicate;
use crate::math::div_trunc;
use crate::math::mul_div;
use crate::math::spec_abs;
use crate::math::spec_clamp;
use crate::math::spec_dist_sq;
use crate::math::COORD_LIMIT;
use crate::math::Vec2;
use crate::math::Vec3;
use crate::sample::spec_batch_wf;
use crate::sample::spec_has_id;
use crate::sample::HandData;
use crate::sample::InputKind;
use crate::sample::InputSample;
use crate::sample::RayData;
use crate::single_actor_action::spec_next_actor;
use crate::single_actor_action::SingleActorAction;
use crate::util::MapNumber;

verus! {

/// Shallow edge of the hover depth window in front of the surface.
pub const HOVER_NEAR: i64 = 50;

/// Deep edge of the hover depth window in front of the surface.
pub const HOVER_FAR: i64 = 200;

/// Squared thumb-to-fingertip distance below which a hand presses a button.
pub const PINCH_SQ_THRESHOLD: i64 = 400;

/// Strength above which a named auxiliary value presses a button.
pub const BUTTON_TRIGGER: i64 = 500;

/// Code of the left mouse button.
pub const BTN_LEFT: u32 = 272;

/// Code of the right mouse button.
pub const BTN_RIGHT: u32 = 273;

/// Code of the middle mouse button.
pub const BTN_MIDDLE: u32 = 274;

/// The point of a ray on the surface's plane: the ray's origin advanced to
/// where its depth reaches zero, each level coordinate clamped into the
/// global bound. A ray parallel to the plane has no such point.
pub open spec fn spec_ray_plane_point(r: RayData) -> Option<Vec3> {
    if r.direction.z == 0 {
        None
    } else {
        Some(
            Vec3 {
                x: spec_clamp(
                    r.origin.x + div_trunc(
                        r.direction.x as int * -(r.origin.z as int),
                        r.direction.z as int,
                    ),
                    -COORD_LIMIT as int,
                    COORD_LIMIT as int,
                ) as i64,
                y: spec_clamp(
                    r.origin.y + div_trunc(
                        r.direction.y as int * -(r.origin.z as int),
                        r.direction.z as int,
                    ),
                    -COORD_LIMIT as int,
                    COORD_LIMIT as int,
                ) as i64,
                z: 0,
            },
        )
    }
}

/// The hover point of a sample over the surface: a ray's plane point, a
/// hand's stable (or predicted) pinch position, a tip's origin.
pub open spec fn spec_hover_point(s: InputSample, stable: bool) -> Option<Vec3> {
    match s.kind {
        InputKind::Ray(r) => spec_ray_plane_point(r),
        InputKind::Hand(h) => Some(
            if stable {
                h.stable_pinch
            } else {
                h.predicted_pinch
            },
        ),
        InputKind::Tip(t) => Some(t.origin),
    }
}

/// Whether `point` lies over the rectangle of extents `size` on the side
/// given by `front` (nonnegative depth when `front`).
pub open spec fn spec_over_rect(size: Vec2, point: Vec3, front: bool) -> bool {
    &&& spec_abs(point.x as int) * 2 < size.x
    &&& spec_abs(point.y as int) * 2 < size.y
    &&& (point.z >= 0) == front
}

/// Compute a ray's plane point.
fn ray_plane_point(r: &RayData) -> (p: Option<Vec3>)
    requires
        r.origin.bounded(),
        r.direction.bounded(),
    ensures
        p == spec_ray_plane_point(*r),
        match p {
            Some(v) => v.bounded(),
            None => true,
        },
{
    if r.direction.z == 0 {
        None
    } else {
        proof {
            crate::math::lemma_mul_bound(
                r.direction.x as int,
                COORD_LIMIT as int,
                -(r.origin.z as int),
                COORD_LIMIT as int,
            );
            crate::math::lemma_mul_bound(
                r.direction.y as int,
                COORD_LIMIT as int,
                -(r.origin.z as int),
                COORD_LIMIT as int,
            );
            crate::math::lemma_div_trunc_shrink(
                r.direction.x as int * -(r.origin.z as int),
                r.direction.z as int,
            );
            crate::math::lemma_div_trunc_shrink(
                r.direction.y as int * -(r.origin.z as int),
                r.direction.z as int,
            );
        }
        let tx: i64 = mul_div(r.direction.x, -r.origin.z, r.direction.z);
        let ty: i64 = mul_div(r.direction.y, -r.origin.z, r.direction.z);
        let px: i64 = crate::math::clamp_i64(r.origin.x + tx, -COORD_LIMIT, COORD_LIMIT);
        let py: i64 = crate::math::clamp_i64(r.origin.y + ty, -COORD_LIMIT, COORD_LIMIT);
        Some(Vec3 { x: px, y: py, z: 0 })
    }
}

/// Compute a sample's hover point.
fn hover_point(s: &InputSample, stable: bool) -> (p: Option<Vec3>)
    requires
        s.wf(),
    ensures
        p == spec_hover_point(*s, stable),
        match p {
            Some(v) => v.bounded(),
            None => true,
        },
{
    match &s.kind {
        InputKind::Ray(r) => ray_plane_point(r),
        InputKind::Hand(h) => Some(
            if stable {
                h.stable_pinch
            } else {
                h.predicted_pinch
            },
        ),
        InputKind::Tip(t) => Some(t.origin),
    }
}

/// Whether a point lies over the surface rectangle on the requested side.
fn over_rect(size: Vec2, point: Vec3, front: bool) -> (b: bool)
    requires
        point.bounded(),
    ensures
        b == spec_over_rect(size, point, front),
{
    let ax = crate::math::abs_i64(point.x);
    let ay = crate::math::abs_i64(point.y);
    ax * 2 < size.x && ay * 2 < size.y && (point.z >= 0) == front
}

/// Pointer-focus hover: a ray hovers while it penetrates the surface's
/// field; a hand or tip hovers while its hover point sits in the depth
/// window in front of the surface rectangle.
#[derive(Clone, Copy, Debug)]
pub struct SurfaceHover {
    /// Physical extents of the surface.
    pub size: Vec2,
    /// Whether a hand's stabilized (rather than predicted) pinch position
    /// is its hover point.
    pub stable: bool,
}

impl SamplePredicate for SurfaceHover {
    open spec fn holds(&self, s: InputSample) -> bool {
        match s.kind {
            InputKind::Ray(_) => s.distance <= 0,
            _ => {
                let p = spec_hover_point(s, self.stable);
                match p {
                    Some(v) => HOVER_NEAR <= spec_abs(v.z as int) < HOVER_FAR && spec_over_rect(
                        self.size,
                        v,
                        true,
                    ),
                    None => false,
                }
            },
        }
    }

    fn eval(&self, s: &InputSample) -> (b: bool) {
        match &s.kind {
            InputKind::Ray(_) => s.distance <= 0,
            _ => {
                match hover_point(s, self.stable) {
                    Some(v) => {
                        let az = crate::math::abs_i64(v.z);
                        HOVER_NEAR <= az && az < HOVER_FAR && over_rect(self.size, v, true)
                    },
                    None => false,
                }
            },
        }
    }
}

/// Button-hover eligibility: only the current closest hovering sample may
/// press a button.
#[derive(Clone, Copy, Debug)]
pub struct ClosestIs {
    /// Identity of the closest hovering sample this frame, if any.
    pub target: Option<u64>,
}

impl SamplePredicate for ClosestIs {
    open spec fn holds(&self, s: InputSample) -> bool {
        match self.target {
            Some(id) => s.id == id,
            None => false,
        }
    }

    fn eval(&self, s: &InputSample) -> (b: bool) {
        match self.target {
            Some(id) => s.id == id,
            None => false,
        }
    }
}

/// Which finger pairs with the thumb to press a button.
#[derive(Clone, Copy, Debug, PartialEq, Eq, Structural)]
pub enum FingerSel {
    /// The index finger: left button.
    Index,
    /// The middle finger: middle button.
    Middle,
    /// The ring finger: right button.
    Ring,
}

/// Which auxiliary value presses a button for non-hand kinds.
#[derive(Clone, Copy, Debug, PartialEq, Eq, Structural)]
pub enum AuxSel {
    /// The select / trigger value.
    Select,
    /// The middle value.
    Middle,
    /// The context value.
    Context,
}

/// The fingertip of a hand selected by `f`.
pub open spec fn spec_finger_tip(h: HandData, f: FingerSel) -> Vec3 {
    match f {
        FingerSel::Index => h.index_tip,
        FingerSel::Middle => h.middle_tip,
        FingerSel::Ring => h.ring_tip,
    }
}

/// The auxiliary value of a sample selected by `k`.
pub open spec fn spec_aux_value(s: InputSample, k: AuxSel) -> i64 {
    match k {
        AuxSel::Select => s.aux.select,
        AuxSel::Middle => s.aux.middle,
        AuxSel::Context => s.aux.context,
    }
}

/// Button commitment: a hand presses while its thumb tip is close to the
/// button's finger tip; every other kind presses while the button's named
/// auxiliary value exceeds the trigger threshold.
#[derive(Clone, Copy, Debug)]
pub struct ButtonCommit {
    /// The finger pairing for hands.
    pub finger: FingerSel,
    /// The auxiliary value for other kinds.
    pub key: AuxSel,
}

impl SamplePredicate for ButtonCommit {
    open spec fn holds(&self, s: InputSample) -> bool {
        match s.kind {
            InputKind::Hand(h) => spec_dist_sq(h.thumb_tip, spec_finger_tip(h, self.finger))
                < PINCH_SQ_THRESHOLD,
            _ => spec_aux_value(s, self.key) > BUTTON_TRIGGER,
        }
    }

    fn eval(&self, s: &InputSample) -> (b: bool) {
        match &s.kind {
            InputKind::Hand(h) => {
                let tip = match self.finger {
                    FingerSel::Index => h.index_tip,
                    FingerSel::Middle => h.middle_tip,
                    FingerSel::Ring => h.ring_tip,
                };
                crate::math::dist_sq(h.thumb_tip, tip) < PINCH_SQ_THRESHOLD
            },
            _ => {
                let v = match self.key {
                    AuxSel::Select => s.aux.select,
                    AuxSel::Middle => s.aux.middle,
                    AuxSel::Context => s.aux.context,
                };
                v > BUTTON_TRIGGER
            },
        }
    }
}

/// Touch entry: a hand's index tip or a tip's origin over the front of the
/// surface rectangle; rays never touch.
#[derive(Clone, Copy, Debug)]
pub struct TouchEnter {
    /// Physical extents of the surface.
    pub size: Vec2,
}

/// The contact point a touch tracks: a hand's index tip, a tip's origin.
pub open spec fn spec_touch_contact(s: InputSample) -> Option<Vec3> {
    match s.kind {
        InputKind::Ray(_) => None,
        InputKind::Hand(h) => Some(h.index_tip),
        InputKind::Tip(t) => Some(t.origin),
    }
}

impl SamplePredicate for TouchEnter {
    open spec fn holds(&self, s: InputSample) -> bool {
        match spec_touch_contact(s) {
            Some(p) => spec_over_rect(self.size, p, true),
            None => false,
        }
    }

    fn eval(&self, s: &InputSample) -> (b: bool) {
        match &s.kind {
            InputKind::Ray(_) => false,
            InputKind::Hand(h) => over_rect(self.size, h.index_tip, true),
            InputKind::Tip(t) => over_rect(self.size, t.origin, true),
        }
    }
}

/// Touch exit: the contact has passed behind the surface rectangle; a ray
/// exits when its select value releases.
#[derive(Clone, Copy, Debug)]
pub struct TouchExit {
    /// Physical extents of the surface.
    pub size: Vec2,
}

impl SamplePredicate for TouchExit {
    open spec fn holds(&self, s: InputSample) -> bool {
        match s.kind {
            InputKind::Ray(_) => s.aux.select > BUTTON_TRIGGER,
            _ => match spec_touch_contact(s) {
                Some(p) => spec_over_rect(self.size, p, false),
                None => false,
            },
        }
    }

    fn eval(&self, s: &InputSample) -> (b: bool) {
        match &s.kind {
            InputKind::Ray(_) => s.aux.select > BUTTON_TRIGGER,
            InputKind::Hand(h) => over_rect(self.size, h.index_tip, false),
            InputKind::Tip(t) => over_rect(self.size, t.origin, false),
        }
    }
}


/// One event emitted toward the surface, in pixel space. Coordinates are in
/// thousandths of a pixel.
#[derive(Clone, Copy, Debug, PartialEq, Eq, Structural)]
pub enum SurfaceEvent {
    /// The pointer moved to a position.
    PointerMotion { x: i64, y: i64 },
    /// A mouse button went down or up.
    Button { button: u32, pressed: bool },
    /// The pointer scrolled.
    Scroll { continuous: Vec2, discrete: Vec2 },
    /// A touch contact began.
    TouchDown { id: u64, x: i64, y: i64 },
    /// A touch contact moved.
    TouchMove { id: u64, x: i64, y: i64 },
    /// A touch contact ended.
    TouchUp { id: u64 },
}

/// The level-plane position `p` mapped into pixel space: horizontally a
/// linear map of the surface's width onto its pixel columns, vertically the
/// same with the axis flipped, both in thousandths of a pixel.
pub open spec fn spec_pixel_point(size: Vec2, resolution: Vec2, p: Vec3) -> Vec2 {
    let hx = div_trunc(size.x as int, 2) as i64;
    let hy = div_trunc(size.y as int, 2) as i64;
    Vec2 {
        x: MapNumber::spec_map(p.x, ((-hx) as i64, hx), (0, (resolution.x * 1000) as i64)),
        y: MapNumber::spec_map(p.y, (hy, (-hy) as i64), (0, (resolution.y * 1000) as i64)),
    }
}

/// The touch contact of `s` clamped onto the surface and mapped into pixel
/// space; the origin when `s` has no contact point.
pub open spec fn spec_touch_pixel(size: Vec2, resolution: Vec2, s: InputSample) -> Vec2 {
    match spec_touch_contact(s) {
        Some(p) => {
            let hx = div_trunc(size.x as int, 2) as i64;
            let hy = div_trunc(size.y as int, 2) as i64;
            let clamped = Vec3 {
                x: spec_clamp(p.x as int, -hx as int, hx as int) as i64,
                y: spec_clamp(p.y as int, -hy as int, hy as int) as i64,
                z: p.z,
            };
            spec_pixel_point(size, resolution, clamped)
        },
        None => Vec2 { x: 0, y: 0 },
    }
}

/// The touch-down events for newly entering contacts, in order.
pub open spec fn spec_touch_downs(added: Seq<InputSample>, size: Vec2, resolution: Vec2) -> Seq<
    SurfaceEvent,
> {
    added.map_values(
        |s: InputSample|
            SurfaceEvent::TouchDown {
                id: s.id,
                x: spec_touch_pixel(size, resolution, s).x,
                y: spec_touch_pixel(size, resolution, s).y,
            },
    )
}

/// The touch-move events for continuing contacts, in order.
pub open spec fn spec_touch_moves(current: Seq<InputSample>, size: Vec2, resolution: Vec2) -> Seq<
    SurfaceEvent,
> {
    current.map_values(
        |s: InputSample|
            SurfaceEvent::TouchMove {
                id: s.id,
                x: spec_touch_pixel(size, resolution, s).x,
                y: spec_touch_pixel(size, resolution, s).y,
            },
    )
}

/// The touch-up events for departed contacts, in order.
pub open spec fn spec_touch_ups(removed: Seq<InputSample>) -> Seq<SurfaceEvent> {
    removed.map_values(|s: InputSample| SurfaceEvent::TouchUp { id: s.id })
}

/// The input router of one flat surface.
pub struct SurfaceInput {
    /// Pointer-focus hover action.
    pub hover: HoverAction,
    /// The closest hovering (or captured) sample of the latest frame.
    pub pointer_hover: Option<InputSample>,
    /// Left-button action.
    pub left_click: SingleActorAction,
    /// Middle-button action.
    pub middle_click: SingleActorAction,
    /// Right-button action.
    pub right_click: SingleActorAction,
    /// Multi-touch action.
    pub touch: MultiActorAction,
    /// Physical extents of the surface.
    pub physical_size: Vec2,
    /// Pixel resolution of the surface.
    pub resolution: Vec2,
    /// Whether hands hover by their stabilized (rather than predicted)
    /// pinch position.
    pub stable_pinch: bool,
}

impl SurfaceInput {
    /// Well-formedness: the surface has positive extents within the global
    /// bound, a modest pixel resolution, and the button actions neither
    /// capture nor change actors.
    pub open spec fn wf(self) -> bool {
        &&& 2 <= self.physical_size.x <= COORD_LIMIT
        &&& 2 <= self.physical_size.y <= COORD_LIMIT
        &&& 1 <= self.resolution.x <= 100_000
        &&& 1 <= self.resolution.y <= 100_000
        &&& !self.left_click.spec_capture_on_trigger() && !self.left_click.spec_change_actor()
        &&& !self.middle_click.spec_capture_on_trigger() && !self.middle_click.spec_change_actor()
        &&& !self.right_click.spec_capture_on_trigger() && !self.right_click.spec_change_actor()
    }

    /// A new router for a surface of the given physical extents and pixel
    /// resolution, hovering hands by their stabilized pinch position.
    pub fn new(physical_size: Vec2, resolution: Vec2) -> (r: SurfaceInput)
        requires
            2 <= physical_size.x <= COORD_LIMIT,
            2 <= physical_size.y <= COORD_LIMIT,
            1 <= resolution.x <= 100_000,
            1 <= resolution.y <= 100_000,
        ensures
            r.wf(),
            r.physical_size == physical_size,
            r.resolution == resolution,
            r.stable_pinch,
            r.hover.spec_current() == Seq::<InputSample>::empty(),
            r.pointer_hover is None,
            r.touch.spec_tracked() == Seq::<InputSample>::empty(),
            r.left_click.spec_actor() is None,
            r.middle_click.spec_actor() is None,
            r.right_click.spec_actor() is None,
    {
        SurfaceInput {
            hover: HoverAction::new(),
            pointer_hover: None,
            left_click: SingleActorAction::new(false, false),
            middle_click: SingleActorAction::new(false, false),
            right_click: SingleActorAction::new(false, false),
            touch: MultiActorAction::new(),
            physical_size,
            resolution,
            stable_pinch: true,
        }
    }

    /// Change the surface's physical extents and pixel resolution.
    pub fn resize(&mut self, physical_size: Vec2, resolution: Vec2)
        requires
            old(self).wf(),
            2 <= physical_size.x <= COORD_LIMIT,
            2 <= physical_size.y <= COORD_LIMIT,
            1 <= resolution.x <= 100_000,
            1 <= resolution.y <= 100_000,
        ensures
            final(self).wf(),
            final(self).physical_size == physical_size,
            final(self).resolution == resolution,
            final(self).hover == old(self).hover,
            final(self).pointer_hover == old(self).pointer_hover,
            final(self).left_click == old(self).left_click,
            final(self).middle_click == old(self).middle_click,
            final(self).right_click == old(self).right_click,
            final(self).touch == old(self).touch,
            final(self).stable_pinch == old(self).stable_pinch,
    {
        self.physical_size = physical_size;
        self.resolution = resolution;
    }

    /// Route this frame's batch into touch events: one down per new contact
    /// over the surface, one move per continuing contact, one up per contact
    /// that passed behind the surface or vanished.
    pub fn update_touches(&mut self, batch: &Vec<InputSample>) -> (events: Vec<SurfaceEvent>)
        requires
            old(self).wf(),
            spec_batch_wf(batch@),
        ensures
            final(self).wf(),
            final(self).physical_size == old(self).physical_size,
            final(self).resolution == old(self).resolution,
            final(self).hover == old(self).hover,
            final(self).pointer_hover == old(self).pointer_hover,
            final(self).left_click == old(self).left_click,
            final(self).middle_click == old(self).middle_click,
            final(self).right_click == old(self).right_click,
            final(self).stable_pinch == old(self).stable_pinch,
            final(self).touch.spec_tracked() == batch@.filter(
                |s: InputSample| spec_has_id(old(self).touch.spec_tracked(), s.id) && !(
                TouchExit { size: old(self).physical_size }).holds(s),
            ) + batch@.filter(
                |s: InputSample| (TouchEnter { size: old(self).physical_size }).holds(s)
                    && !spec_has_id(old(self).touch.spec_tracked(), s.id),
            ),
            events@ == spec_touch_downs(
                batch@.filter(
                    |s: InputSample| (TouchEnter { size: old(self).physical_size }).holds(s)
                        && !spec_has_id(old(self).touch.spec_tracked(), s.id),
                ),
                old(self).physical_size,
                old(self).resolution,
            ) + spec_touch_moves(
                batch@.filter(
                    |s: InputSample| spec_has_id(old(self).touch.spec_tracked(), s.id) && !(
                    TouchExit { size: old(self).physical_size }).holds(s),
                ),
                old(self).physical_size,
                old(self).resolution,
            ) + spec_touch_ups(
                old(self).touch.spec_tracked().filter(
                    |s: InputSample| !spec_has_id(
                        batch@.filter(
                            |s2: InputSample| spec_has_id(old(self).touch.spec_tracked(), s2.id)
                                && !(TouchExit { size: old(self).physical_size }).holds(s2),
                        ),
                        s.id,
                    ),
                ),
            ),
    {
        let enter = TouchEnter { size: self.physical_size };
        let exit = TouchExit { size: self.physical_size };
        let diff = self.touch.update(batch, &enter, &exit);
        proof {
            crate::action::lemma_filter_members_wf(
                batch@,
                |s: InputSample| enter.holds(s) && !spec_has_id(
                    old(self).touch.spec_tracked(),
                    s.id,
                ),
            );
            crate::action::lemma_filter_members_wf(
                batch@,
                |s: InputSample| spec_has_id(old(self).touch.spec_tracked(), s.id) && !exit.holds(
                    s,
                ),
            );
        }

        let mut events: Vec<SurfaceEvent> = Vec::new();
        let ghost size = self.physical_size;
        let ghost res = self.resolution;
        let mut i: usize = 0;
        while i < diff.added.len()
            invariant
                0 <= i <= diff.added@.len(),
                events@ == spec_touch_downs(diff.added@.subrange(0, i as int), size, res),
                size == self.physical_size,
                res == self.resolution,
                self.wf(),
                forall|t: int| 0 <= t < diff.added@.len() ==> (#[trigger] diff.added@[t]).wf(),
            decreases diff.added@.len() - i,
        {
            let p = touch_pixel(self.physical_size, self.resolution, &diff.added[i]);
            events.push(SurfaceEvent::TouchDown { id: diff.added[i].id, x: p.x, y: p.y });
            proof {
                assert(events@ =~= spec_touch_downs(
                    diff.added@.subrange(0, i as int + 1),
                    size,
                    res,
                ));
            }
            i = i + 1;
        }
        proof {
            assert(diff.added@.subrange(0, diff.added@.len() as int) =~= diff.added@);
        }
        let mut j: usize = 0;
        while j < diff.current.len()
            invariant
                0 <= j <= diff.current@.len(),
                events@ == spec_touch_downs(diff.added@, size, res) + spec_touch_moves(
                    diff.current@.subrange(0, j as int),
                    size,
                    res,
                ),
                size == self.physical_size,
                res == self.resolution,
                self.wf(),
                forall|t: int| 0 <= t < diff.current@.len() ==> (#[trigger] diff.current@[t]).wf(),
            decreases diff.current@.len() - j,
        {
            let p = touch_pixel(self.physical_size, self.resolution, &diff.current[j]);
            events.push(SurfaceEvent::TouchMove { id: diff.current[j].id, x: p.x, y: p.y });
            proof {
                assert(events@ =~= spec_touch_downs(diff.added@, size, res) + spec_touch_moves(
                    diff.current@.subrange(0, j as int + 1),
                    size,
                    res,
                ));
            }
            j = j + 1;
        }
        proof {
            assert(diff.current@.subrange(0, diff.current@.len() as int) =~= diff.current@);
        }
        let mut k: usize = 0;
        while k < diff.removed.len()
            invariant
                0 <= k <= diff.removed@.len(),
                events@ == spec_touch_downs(diff.added@, size, res) + spec_touch_moves(
                    diff.current@,
                    size,
                    res,
                ) + spec_touch_ups(diff.removed@.subrange(0, k as int)),
            decreases diff.removed@.len() - k,
        {
            events.push(SurfaceEvent::TouchUp { id: diff.removed[k].id });
            proof {
                assert(events@ =~= spec_touch_downs(diff.added@, size, res) + spec_touch_moves(
                    diff.current@,
                    size,
                    res,
                ) + spec_touch_ups(diff.removed@.subrange(0, k as int + 1)));
            }
            k = k + 1;
        }
        proof {
            assert(diff.removed@.subrange(0, diff.removed@.len() as int) =~= diff.removed@);
        }
        events
    }
}

/// Map a sample's touch contact into pixel space.
fn touch_pixel(size: Vec2, resolution: Vec2, s: &InputSample) -> (p: Vec2)
    requires
        s.wf(),
        2 <= size.x <= COORD_LIMIT,
        2 <= size.y <= COORD_LIMIT,
        1 <= resolution.x <= 100_000,
        1 <= resolution.y <= 100_000,
    ensures
        p == spec_touch_pixel(size, resolution, *s),
{
    let contact: Option<Vec3> = match &s.kind {
        InputKind::Ray(_) => None,
        InputKind::Hand(h) => Some(h.index_tip),
        InputKind::Tip(t) => Some(t.origin),
    };
    match contact {
        None => Vec2 { x: 0, y: 0 },
        Some(c) => {
            let hx: i64 = size.x / 2;
            let hy: i64 = size.y / 2;
            let cx = crate::math::clamp_i64(c.x, -hx, hx);
            let cy = crate::math::clamp_i64(c.y, -hy, hy);
            let px = cx.map((-hx, hx), (0, resolution.x * 1000));
            let py = cy.map((hy, -hy), (0, resolution.y * 1000));
            Vec2 { x: px, y: py }
        },
    }
}


/// Samples already holding an exclusive capture on this handler.
#[derive(Clone, Copy, Debug)]
pub struct CapturedOnly {
    /// Marker with no configuration.
    pub marker: bool,
}

impl SamplePredicate for CapturedOnly {
    open spec fn holds(&self, s: InputSample) -> bool {
        s.captured
    }

    fn eval(&self, s: &InputSample) -> (b: bool) {
        s.captured
    }
}

/// The first sample of least distance among the candidates, scanned in
/// order; an earlier candidate wins a tie.
pub open spec fn spec_closest_hover(cands: Seq<InputSample>) -> Option<InputSample>
    decreases cands.len(),
{
    if cands.len() == 0 {
        None
    } else {
        match spec_closest_hover(cands.drop_last()) {
            None => Some(cands.last()),
            Some(c) => if cands.last().distance < c.distance {
                Some(cands.last())
            } else {
                Some(c)
            },
        }
    }
}

/// The press or release a button's action emits this frame: one press on the
/// frame its actor starts, one release on the frame its actor stops.
pub open spec fn spec_button_events(started: bool, stopped: bool, code: u32) -> Seq<SurfaceEvent> {
    if started {
        seq![SurfaceEvent::Button { button: code, pressed: true }]
    } else if stopped {
        seq![SurfaceEvent::Button { button: code, pressed: false }]
    } else {
        Seq::<SurfaceEvent>::empty()
    }
}

/// The motion and scroll a closest hover emits: its hover point in pixel
/// space (when it has one) followed by its scroll deltas.
pub open spec fn spec_pointer_tail(
    closest: Option<InputSample>,
    size: Vec2,
    resolution: Vec2,
    stable: bool,
) -> Seq<SurfaceEvent> {
    match closest {
        None => Seq::<SurfaceEvent>::empty(),
        Some(s) => (match spec_hover_point(s, stable) {
            Some(p) => seq![
                SurfaceEvent::PointerMotion {
                    x: spec_pixel_point(size, resolution, p).x,
                    y: spec_pixel_point(size, resolution, p).y,
                },
            ],
            None => Seq::<SurfaceEvent>::empty(),
        }) + seq![
            SurfaceEvent::Scroll {
                continuous: s.aux.scroll_continuous,
                discrete: s.aux.scroll_discrete,
            },
        ],
    }
}

/// Scan the candidates for the closest one.
fn closest_hover(cands: &Vec<InputSample>) -> (r: Option<InputSample>)
    requires
        forall|i: int| 0 <= i < cands@.len() ==> (#[trigger] cands@[i]).wf(),
    ensures
        r == spec_closest_hover(cands@),
        match r {
            Some(s) => s.wf(),
            None => true,
        },
{
    let mut best: Option<InputSample> = None;
    let mut i: usize = 0;
    proof {
        assert(cands@.subrange(0, 0int) =~= Seq::<InputSample>::empty());
    }
    while i < cands.len()
        invariant
            0 <= i <= cands@.len(),
            forall|t: int| 0 <= t < cands@.len() ==> (#[trigger] cands@[t]).wf(),
            best == spec_closest_hover(cands@.subrange(0, i as int)),
            match best {
                Some(s) => s.wf(),
                None => true,
            },
        decreases cands@.len() - i,
    {
        proof {
            assert(cands@.subrange(0, i as int + 1).drop_last() =~= cands@.subrange(0, i as int));
            assert(cands@.subrange(0, i as int + 1).last() == cands@[i as int]);
        }
        best = match best {
            None => Some(cands[i]),
            Some(b) => if cands[i].distance < b.distance {
                Some(cands[i])
            } else {
                Some(b)
            },
        };
        i = i + 1;
    }
    proof {
        assert(cands@.subrange(0, cands@.len() as int) =~= cands@);
    }
    best
}

/// Map a level-plane point into pixel space.
fn pixel_point(size: Vec2, resolution: Vec2, p: Vec3) -> (r: Vec2)
    requires
        2 <= size.x <= COORD_LIMIT,
        2 <= size.y <= COORD_LIMIT,
        1 <= resolution.x <= 100_000,
        1 <= resolution.y <= 100_000,
        p.bounded(),
    ensures
        r == spec_pixel_point(size, resolution, p),
{
    let hx: i64 = size.x / 2;
    let hy: i64 = size.y / 2;
    let px = p.x.map((-hx, hx), (0, resolution.x * 1000));
    let py = p.y.map((hy, -hy), (0, resolution.y * 1000));
    Vec2 { x: px, y: py }
}

impl SurfaceInput {
    /// Route this frame's batch into pointer events. The hover action tracks
    /// every sample over the surface; the closest of those (or of the
    /// already-captured samples) becomes the pointer focus. Each button's
    /// single-actor action gates on being that focus and commits by its own
    /// finger pair or auxiliary value; a press is emitted exactly on the
    /// frame a button's actor starts and a release on the frame it stops.
    /// The focus then reports its position and scroll.
    #[verifier::rlimit(60)]
    pub fn update_pointer(&mut self, batch: &Vec<InputSample>) -> (events: Vec<SurfaceEvent>)
        requires
            old(self).wf(),
            spec_batch_wf(batch@),
        ensures
            final(self).wf(),
            final(self).physical_size == old(self).physical_size,
            final(self).resolution == old(self).resolution,
            final(self).stable_pinch == old(self).stable_pinch,
            final(self).touch == old(self).touch,
            final(self).hover.spec_current() == spec_satisfying(
                batch@,
                (SurfaceHover {
                    size: old(self).physical_size,
                    stable: old(self).stable_pinch,
                }),
            ),
            final(self).pointer_hover == spec_closest_hover(
                final(self).hover.spec_current() + spec_satisfying(
                    batch@,
                    (CapturedOnly { marker: true }),
                ),
            ),
            final(self).left_click.spec_actor() == spec_next_actor(
                old(self).left_click.spec_actor(),
                batch@,
                (ClosestIs {
                    target: match final(self).pointer_hover {
                        Some(s) => Some(s.id),
                        None => None,
                    },
                }),
                (ButtonCommit { finger: FingerSel::Index, key: AuxSel::Select }),
                old(self).left_click.spec_committing(),
                false,
            ),
            final(self).middle_click.spec_actor() == spec_next_actor(
                old(self).middle_click.spec_actor(),
                batch@,
                (ClosestIs {
                    target: match final(self).pointer_hover {
                        Some(s) => Some(s.id),
                        None => None,
                    },
                }),
                (ButtonCommit { finger: FingerSel::Middle, key: AuxSel::Middle }),
                old(self).middle_click.spec_committing(),
                false,
            ),
            final(self).right_click.spec_actor() == spec_next_actor(
                old(self).right_click.spec_actor(),
                batch@,
                (ClosestIs {
                    target: match final(self).pointer_hover {
                        Some(s) => Some(s.id),
                        None => None,
                    },
                }),
                (ButtonCommit { finger: FingerSel::Ring, key: AuxSel::Context }),
                old(self).right_click.spec_committing(),
                false,
            ),
            final(self).left_click.spec_committing() == spec_satisfying(
                batch@,
                (ButtonCommit { finger: FingerSel::Index, key: AuxSel::Select }),
            ),
            final(self).middle_click.spec_committing() == spec_satisfying(
                batch@,
                (ButtonCommit { finger: FingerSel::Middle, key: AuxSel::Middle }),
            ),
            final(self).right_click.spec_committing() == spec_satisfying(
                batch@,
                (ButtonCommit { finger: FingerSel::Ring, key: AuxSel::Context }),
            ),
            final(self).left_click.spec_started() == (old(self).left_click.spec_actor() is None
                && final(self).left_click.spec_actor() is Some),
            final(self).left_click.spec_stopped() == (old(self).left_click.spec_actor() is Some
                && final(self).left_click.spec_actor() is None),
            final(self).middle_click.spec_started() == (old(self).middle_click.spec_actor()
                is None && final(self).middle_click.spec_actor() is Some),
            final(self).middle_click.spec_stopped() == (old(self).middle_click.spec_actor()
                is Some && final(self).middle_click.spec_actor() is None),
            final(self).right_click.spec_started() == (old(self).right_click.spec_actor() is None
                && final(self).right_click.spec_actor() is Some),
            final(self).right_click.spec_stopped() == (old(self).right_click.spec_actor() is Some
                && final(self).right_click.spec_actor() is None),
            events@ == spec_button_events(
                final(self).left_click.spec_started(),
                final(self).left_click.spec_stopped(),
                BTN_LEFT,
            ) + spec_button_events(
                final(self).middle_click.spec_started(),
                final(self).middle_click.spec_stopped(),
                BTN_MIDDLE,
            ) + spec_button_events(
                final(self).right_click.spec_started(),
                final(self).right_click.spec_stopped(),
                BTN_RIGHT,
            ) + spec_pointer_tail(
                final(self).pointer_hover,
                old(self).physical_size,
                old(self).resolution,
                old(self).stable_pinch,
            ),
    {
        let stable = self.stable_pinch;
        let hover_pred = SurfaceHover { size: self.physical_size, stable };
        self.hover.update(batch, &hover_pred);
        let captured = crate::action::filter_satisfying(batch, &(CapturedOnly { marker: true }));
        proof {
            crate::action::lemma_filter_members_wf(
                batch@,
                |s: InputSample| hover_pred.holds(s),
            );
            crate::action::lemma_filter_members_wf(
                batch@,
                |s: InputSample| (CapturedOnly { marker: true }).holds(s),
            );
        }
        let cands = crate::action::concat_copy(self.hover.currently_acting(), &captured);
        proof {
            assert(forall|i: int|
                0 <= i < cands@.len() ==> (#[trigger] cands@[i]).wf()) by {
                assert(forall|i: int|
                    0 <= i < cands@.len() ==> cands@[i] == if i < self.hover.spec_current().len() {
                        self.hover.spec_current()[i]
                    } else {
                        captured@[i - self.hover.spec_current().len()]
                    });
            }
        }
        let closest = closest_hover(&cands);
        self.pointer_hover = closest;
        let target = ClosestIs {
            target: match &closest {
                Some(s) => Some(s.id),
                None => None,
            },
        };

        let mut events: Vec<SurfaceEvent> = Vec::new();
        self.left_click.update(
            batch,
            &target,
            &(ButtonCommit { finger: FingerSel::Index, key: AuxSel::Select }),
        );
        if self.left_click.actor_started() {
            events.push(SurfaceEvent::Button { button: BTN_LEFT, pressed: true });
        }
        if self.left_click.actor_stopped() {
            events.push(SurfaceEvent::Button { button: BTN_LEFT, pressed: false });
        }
        let ghost left_part = events@;

        self.middle_click.update(
            batch,
            &target,
            &(ButtonCommit { finger: FingerSel::Middle, key: AuxSel::Middle }),
        );
        if self.middle_click.actor_started() {
            events.push(SurfaceEvent::Button { button: BTN_MIDDLE, pressed: true });
        }
        if self.middle_click.actor_stopped() {
            events.push(SurfaceEvent::Button { button: BTN_MIDDLE, pressed: false });
        }
        let ghost mid_part = events@;

        self.right_click.update(
            batch,
            &target,
            &(ButtonCommit { finger: FingerSel::Ring, key: AuxSel::Context }),
        );
        if self.right_click.actor_started() {
            events.push(SurfaceEvent::Button { button: BTN_RIGHT, pressed: true });
        }
        if self.right_click.actor_stopped() {
            events.push(SurfaceEvent::Button { button: BTN_RIGHT, pressed: false });
        }
        let ghost buttons_part = events@;

        match &closest {
            None => {},
            Some(s) => {
                match hover_point(s, stable) {
                    Some(p) => {
                        let px = pixel_point(self.physical_size, self.resolution, p);
                        events.push(SurfaceEvent::PointerMotion { x: px.x, y: px.y });
                    },
                    None => {},
                }
                events.push(
                    SurfaceEvent::Scroll {
                        continuous: s.aux.scroll_continuous,
                        discrete: s.aux.scroll_discrete,
                    },
                );
            },
        }
        proof {
            assert(left_part =~= spec_button_events(
                self.left_click.spec_started(),
                self.left_click.spec_stopped(),
                BTN_LEFT,
            ));
            assert(mid_part =~= left_part + spec_button_events(
                self.middle_click.spec_started(),
                self.middle_click.spec_stopped(),
                BTN_MIDDLE,
            ));
            assert(buttons_part =~= mid_part + spec_button_events(
                self.right_click.spec_started(),
                self.right_click.spec_stopped(),
                BTN_RIGHT,
            ));
            assert(events@ =~= buttons_part + spec_pointer_tail(
                self.pointer_hover,
                self.physical_size,
                self.resolution,
                stable,
            ));
        }
        events
    }
}


impl SurfaceInput {
    /// Advance one frame: route the batch through the pointer path, then the
    /// touch path, and hand back every event in emission order.
    pub fn handle_events(&mut self, batch: &Vec<InputSample>) -> (events: Vec<SurfaceEvent>)
        requires
            old(self).wf(),
            spec_batch_wf(batch@),
        ensures
            final(self).wf(),
            final(self).physical_size == old(self).physical_size,
            final(self).resolution == old(self).resolution,
            final(self).stable_pinch == old(self).stable_pinch,
            final(self).hover.spec_current() == spec_satisfying(
                batch@,
                (SurfaceHover {
                    size: old(self).physical_size,
                    stable: old(self).stable_pinch,
                }),
            ),
            final(self).pointer_hover == spec_closest_hover(
                final(self).hover.spec_current() + spec_satisfying(
                    batch@,
                    (CapturedOnly { marker: true }),
                ),
            ),
            final(self).left_click.spec_actor() == spec_next_actor(
                old(self).left_click.spec_actor(),
                batch@,
                (ClosestIs {
                    target: match final(self).pointer_hover {
                        Some(s) => Some(s.id),
                        None => None,
                    },
                }),
                (ButtonCommit { finger: FingerSel::Index, key: AuxSel::Select }),
                old(self).left_click.spec_committing(),
                false,
            ),
            final(self).middle_click.spec_actor() == spec_next_actor(
                old(self).middle_click.spec_actor(),
                batch@,
                (ClosestIs {
                    target: match final(self).pointer_hover {
                        Some(s) => Some(s.id),
                        None => None,
                    },
                }),
                (ButtonCommit { finger: FingerSel::Middle, key: AuxSel::Middle }),
                old(self).middle_click.spec_committing(),
                false,
            ),
            final(self).right_click.spec_actor() == spec_next_actor(
                old(self).right_click.spec_actor(),
                batch@,
                (ClosestIs {
                    target: match final(self).pointer_hover {
                        Some(s) => Some(s.id),
                        None => None,
                    },
                }),
                (ButtonCommit { finger: FingerSel::Ring, key: AuxSel::Context }),
                old(self).right_click.spec_committing(),
                false,
            ),
            final(self).touch.spec_tracked() == batch@.filter(
                |s: InputSample| spec_has_id(old(self).touch.spec_tracked(), s.id) && !(
                TouchExit { size: old(self).physical_size }).holds(s),
            ) + batch@.filter(
                |s: InputSample| (TouchEnter { size: old(self).physical_size }).holds(s)
                    && !spec_has_id(old(self).touch.spec_tracked(), s.id),
            ),
            events@ == spec_button_events(
                final(self).left_click.spec_started(),
                final(self).left_click.spec_stopped(),
                BTN_LEFT,
            ) + spec_button_events(
                final(self).middle_click.spec_started(),
                final(self).middle_click.spec_stopped(),
                BTN_MIDDLE,
            ) + spec_button_events(
                final(self).right_click.spec_started(),
                final(self).right_click.spec_stopped(),
                BTN_RIGHT,
            ) + spec_pointer_tail(
                final(self).pointer_hover,
                old(self).physical_size,
                old(self).resolution,
                old(self).stable_pinch,
            ) + spec_touch_downs(
                batch@.filter(
                    |s: InputSample| (TouchEnter { size: old(self).physical_size }).holds(s)
                        && !spec_has_id(old(self).touch.spec_tracked(), s.id),
                ),
                old(self).physical_size,
                old(self).resolution,
            ) + spec_touch_moves(
                batch@.filter(
                    |s: InputSample| spec_has_id(old(self).touch.spec_tracked(), s.id) && !(
                    TouchExit { size: old(self).physical_size }).holds(s),
                ),
                old(self).physical_size,
                old(self).resolution,
            ) + spec_touch_ups(
                old(self).touch.spec_tracked().filter(
                    |s: InputSample| !spec_has_id(
                        batch@.filter(
                            |s2: InputSample| spec_has_id(old(self).touch.spec_tracked(), s2.id)
                                && !(TouchExit { size: old(self).physical_size }).holds(s2),
                        ),
                        s.id,
                    ),
                ),
            ),
    {
        let mut events = self.update_pointer(batch);
        let mut touch_events = self.update_touches(batch);
        let ghost pointer_part = events@;
        let ghost touch_part = touch_events@;
        events.append(&mut touch_events);
        proof {
            assert(events@ =~= pointer_part + touch_part);
        }
        events
    }
}

} // verus!



