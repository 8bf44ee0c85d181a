//! The grab manipulator: a single free-floating draggable handle.
//!
//! A single-actor action decides ownership: a sample hovers when it is within
//! the handle's radius plus padding (rays never hover the free ball), and
//! commits by pinch strength (hands) or grab strength (other kinds). While
//! grabbed, the handle follows the actor's grab point; when the grab ends the
//! handle returns to its configured rest offset.

use vstd::prelude::*;

use crate::action::SamplePredicate;
use crate::action::spec_satisfying;
use crate::math::COORD_LIMIT;
use crate::math::div_trunc;
use crate::math::midpoint;
use crate::math::Vec3;
use crate::sample::spec_batch_wf;
use crate::sample::InputKind;
use crate::sample::InputSample;
use crate::single_actor_action::spec_next_actor;
use crate::single_actor_action::SingleActorAction;

verus! {

/// Strength (in thousandths) a pinch or grab value must exceed to commit.
pub const GRAB_TRIGGER: i64 = 900;

/// Geometry of a grab handle.
#[derive(Clone, Copy, Debug, PartialEq, Eq, Structural)]
pub struct GrabBallSettings {
    /// Radius of the handle's spherical field.
    pub radius: i64,
    /// Extra hover distance around the field.
    pub padding: i64,
}

impl GrabBallSettings {
    /// Whether the settings are within the global coordinate bound.
    pub open spec fn wf(self) -> bool {
        0 <= self.radius && 0 <= self.padding && self.radius + self.padding <= COORD_LIMIT
    }
}

impl Default for GrabBallSettings {
    /// The stock handle: a two-hundredth-unit ball with a five-hundredth-unit
    /// hover margin.
    fn default() -> (s: GrabBallSettings)
        ensures
            s.radius == 20 && s.padding == 50,
            s.wf(),
    {
        GrabBallSettings { radius: 20, padding: 50 }
    }
}

/// Hover eligibility for a grab handle: a sample hovers when its distance to
/// the handle's field is below the radius-plus-padding threshold; rays either
/// always hover or never do, depending on the handle.
#[derive(Clone, Copy, Debug)]
pub struct GrabHover {
    /// Distance below which a non-ray sample hovers.
    pub threshold: i64,
    /// Whether a ray sample is always eligible.
    pub ray_eligible: bool,
}

impl SamplePredicate for GrabHover {
    open spec fn holds(&self, s: InputSample) -> bool {
        if s.kind.is_ray() {
            self.ray_eligible
        } else {
            s.distance < self.threshold
        }
    }

    fn eval(&self, s: &InputSample) -> (b: bool) {
        match &s.kind {
            InputKind::Ray(_) => self.ray_eligible,
            _ => s.distance < self.threshold,
        }
    }
}

/// Commitment for a grab handle: a hand commits by pinch strength, every
/// other kind by grab strength, each above the trigger threshold.
#[derive(Clone, Copy, Debug)]
pub struct GrabCommit {
    /// Strength a pinch or grab value must exceed.
    pub threshold: i64,
}

impl SamplePredicate for GrabCommit {
    open spec fn holds(&self, s: InputSample) -> bool {
        match s.kind {
            InputKind::Hand(_) => s.aux.pinch_strength > self.threshold,
            _ => s.aux.grab > self.threshold,
        }
    }

    fn eval(&self, s: &InputSample) -> (b: bool) {
        match &s.kind {
            InputKind::Hand(_) => s.aux.pinch_strength > self.threshold,
            _ => s.aux.grab > self.threshold,
        }
    }
}

/// The hover predicate a grab ball runs with: rays are never eligible.
pub open spec fn spec_ball_hover(settings: GrabBallSettings) -> GrabHover {
    GrabHover { threshold: (settings.radius + settings.padding) as i64, ray_eligible: false }
}

/// The commit predicate a grab ball runs with.
pub open spec fn spec_ball_commit() -> GrabCommit {
    GrabCommit { threshold: GRAB_TRIGGER }
}

/// The grab point of the current actor: the thumb-to-index midpoint of a
/// hand, the origin of a tip; a ray grabs no free ball.
pub open spec fn spec_grab_point(actor: Option<InputSample>) -> Option<Vec3> {
    match actor {
        None => None,
        Some(s) => match s.kind {
            InputKind::Ray(_) => None,
            InputKind::Hand(h) => Some(
                Vec3 {
                    x: div_trunc(h.thumb_tip.x + h.index_tip.x, 2) as i64,
                    y: div_trunc(h.thumb_tip.y + h.index_tip.y, 2) as i64,
                    z: div_trunc(h.thumb_tip.z + h.index_tip.z, 2) as i64,
                },
            ),
            InputKind::Tip(t) => Some(t.origin),
        },
    }
}

/// A free-floating draggable handle bound to a single-actor grab action.
pub struct GrabBall {
    /// Geometry of the handle.
    pub settings: GrabBallSettings,
    /// Rest position relative to the handle's anchor.
    pub offset: Vec3,
    /// Current position relative to the handle's anchor.
    pub pos: Vec3,
    /// The grab action driving the handle.
    pub grab_action: SingleActorAction,
}

impl GrabBall {
    /// Well-formedness: settings and positions are within the global bound,
    /// and the grab action holds capture while owned and never changes
    /// actors.
    pub open spec fn wf(self) -> bool {
        &&& self.settings.wf()
        &&& self.offset.bounded()
        &&& self.pos.bounded()
        &&& self.grab_action.spec_capture_on_trigger()
        &&& !self.grab_action.spec_change_actor()
    }

    /// A new handle resting at `offset`, with an exclusive-capture grab
    /// action that never changes actors.
    pub fn create(offset: Vec3, settings: GrabBallSettings) -> (b: GrabBall)
        requires
            settings.wf(),
            offset.bounded(),
        ensures
            b.wf(),
            b.settings == settings,
            b.offset == offset,
            b.pos == offset,
            b.grab_action.spec_actor() is None,
            b.grab_action.spec_capture_on_trigger(),
            !b.grab_action.spec_change_actor(),
    {
        GrabBall { settings, offset, pos: offset, grab_action: SingleActorAction::new(true, false) }
    }

    /// Advance one frame: update the grab action and re-pose the handle. The
    /// handle follows the actor's grab point while one exists; on the frame
    /// the grab stops it snaps back to the rest offset; otherwise it stays.
    pub fn update(&mut self, batch: &Vec<InputSample>)
        requires
            spec_batch_wf(batch@),
            old(self).wf(),
        ensures
            final(self).wf(),
            final(self).settings == old(self).settings,
            final(self).offset == old(self).offset,
            final(self).grab_action.spec_actor() == spec_next_actor(
                old(self).grab_action.spec_actor(),
                batch@,
                spec_ball_hover(old(self).settings),
                spec_ball_commit(),
                old(self).grab_action.spec_committing(),
                false,
            ),
            final(self).grab_action.spec_committing() == spec_satisfying(
                batch@,
                spec_ball_commit(),
            ),
            final(self).grab_action.spec_hovering() == spec_satisfying(
                batch@,
                spec_ball_hover(old(self).settings),
            ),
            final(self).grab_action.spec_started() == (old(self).grab_action.spec_actor() is None
                && final(self).grab_action.spec_actor() is Some),
            final(self).grab_action.spec_stopped() == (old(self).grab_action.spec_actor() is Some
                && final(self).grab_action.spec_actor() is None),
            final(self).grab_action.spec_acting() == (final(self).grab_action.spec_actor() is Some),
            final(self).grab_action.spec_capture_active() == (final(self).grab_action.spec_actor()
                is Some),
            final(self).pos == (match spec_grab_point(final(self).grab_action.spec_actor()) {
                Some(p) => p,
                None => if final(self).grab_action.spec_stopped() {
                    old(self).offset
                } else {
                    old(self).pos
                },
            }),
    {
        let hover = GrabHover {
            threshold: self.settings.radius + self.settings.padding,
            ray_eligible: false,
        };
        let commit = GrabCommit { threshold: GRAB_TRIGGER };
        self.grab_action.update(batch, &hover, &commit);

        if self.grab_action.actor_stopped() {
            self.pos = self.offset;
        }
        if let Some(point) = grab_point(self.grab_action.actor()) {
            self.pos = point;
        }
    }

    /// The handle's current position relative to its anchor.
    pub fn pos(&self) -> (p: &Vec3)
        ensures
            p == &self.pos,
    {
        &self.pos
    }

    /// Move the rest offset; an idle handle follows it at once, a grabbed one
    /// keeps tracking its actor.
    pub fn set_offset(&mut self, offset: Vec3)
        requires
            old(self).wf(),
            offset.bounded(),
        ensures
            final(self).wf(),
            final(self).settings == old(self).settings,
            final(self).grab_action == old(self).grab_action,
            final(self).offset == offset,
            final(self).pos == if old(self).grab_action.spec_acting() {
                old(self).pos
            } else {
                offset
            },
    {
        self.offset = offset;
        if !self.grab_action.actor_acting() {
            self.pos = offset;
        }
    }

    /// The grab action driving the handle.
    pub fn grab_action(&self) -> (a: &SingleActorAction)
        ensures
            a == &self.grab_action,
    {
        &self.grab_action
    }
}

/// Compute the grab point of an actor, when its kind defines one.
fn grab_point(actor: &Option<InputSample>) -> (r: Option<Vec3>)
    requires
        match actor {
            Some(s) => s.wf(),
            None => true,
        },
    ensures
        r == spec_grab_point(*actor),
        match r {
            Some(p) => p.bounded(),
            None => true,
        },
{
    match actor {
        None => None,
        Some(s) => match &s.kind {
            InputKind::Ray(_) => None,
            InputKind::Hand(h) => Some(midpoint(h.thumb_tip, h.index_tip)),
            InputKind::Tip(t) => Some(t.origin),
        },
    }
}

} // verus!
