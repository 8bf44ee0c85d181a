//! The single-actor action: at most one sample owns the action at a time.
//!
//! A sample becomes the actor when it newly satisfies the commit predicate
//! while satisfying the hover (eligibility) predicate; the actor is released
//! when it stops committing or vanishes; with actor change enabled, another
//! newly committing eligible sample may take ownership over. The transition
//! flags report exactly the frames on which ownership starts, changes and
//! stops.

use vstd::prelude::*;

use crate::action::filter_absent;
use crate::action::filter_satisfying;
use crate::action::spec_satisfying;
use crate::action::HoverAction;
use crate::action::HoverDiff;
use crate::action::SamplePredicate;
use crate::sample::find_by_id;
use crate::sample::has_id;
use crate::sample::spec_batch_wf;
use crate::sample::spec_has_id;
use crate::sample::spec_sample_with_id;
use crate::sample::InputSample;

verus! {

/// The first sample of `batch`, in batch order, that newly satisfies the
/// commit predicate (it commits now but its identity was not committing the
/// frame before) while satisfying the hover predicate.
pub open spec fn spec_candidate<H: SamplePredicate, C: SamplePredicate>(
    batch: Seq<InputSample>,
    hover: H,
    commit: C,
    prev_commit: Seq<InputSample>,
) -> Option<InputSample>
    decreases batch.len(),
{
    if batch.len() == 0 {
        None
    } else if commit.holds(batch[0]) && !spec_has_id(prev_commit, batch[0].id) && hover.holds(
        batch[0],
    ) {
        Some(batch[0])
    } else {
        spec_candidate(batch.drop_first(), hover, commit, prev_commit)
    }
}

/// The actor kept from the frame before: the old actor's sample refreshed
/// with this frame's data, provided it is still present and still commits.
pub open spec fn spec_kept_actor<C: SamplePredicate>(
    old_actor: Option<InputSample>,
    batch: Seq<InputSample>,
    commit: C,
) -> Option<InputSample> {
    match old_actor {
        None => None,
        Some(a) => if spec_has_id(batch, a.id) && commit.holds(spec_sample_with_id(batch, a.id)) {
            Some(spec_sample_with_id(batch, a.id))
        } else {
            None
        },
    }
}

/// The owner after one update: the kept actor, unless no actor is kept (or
/// actor change is enabled) and some sample newly commits while eligible.
pub open spec fn spec_next_actor<H: SamplePredicate, C: SamplePredicate>(
    old_actor: Option<InputSample>,
    batch: Seq<InputSample>,
    hover: H,
    commit: C,
    prev_commit: Seq<InputSample>,
    change_actor: bool,
) -> Option<InputSample> {
    let kept = spec_kept_actor(old_actor, batch, commit);
    let candidate = spec_candidate(batch, hover, commit, prev_commit);
    if (change_actor || kept is None) && candidate is Some {
        candidate
    } else {
        kept
    }
}

/// A single-actor action. At any instant at most one sample owns it.
pub struct SingleActorAction {
    capture_on_trigger: bool,
    change_actor: bool,
    hovering: HoverAction,
    committing: Vec<InputSample>,
    actor: Option<InputSample>,
    actor_started: bool,
    actor_changed: bool,
    actor_acting: bool,
    actor_stopped: bool,
    capture_active: bool,
}

impl SingleActorAction {
    /// Whether an exclusive capture should be held while an actor owns the
    /// action.
    pub closed spec fn spec_capture_on_trigger(self) -> bool {
        self.capture_on_trigger
    }

    /// Whether a newly committing eligible sample may take ownership from a
    /// live actor.
    pub closed spec fn spec_change_actor(self) -> bool {
        self.change_actor
    }

    /// The current owner, if any.
    pub closed spec fn spec_actor(self) -> Option<InputSample> {
        self.actor
    }

    /// The samples that satisfied the commit predicate at the latest update.
    pub closed spec fn spec_committing(self) -> Seq<InputSample> {
        self.committing@
    }

    /// The samples that satisfied the hover predicate at the latest update.
    pub closed spec fn spec_hovering(self) -> Seq<InputSample> {
        self.hovering.spec_current()
    }

    /// Whether ownership went from none to some at the latest update.
    pub closed spec fn spec_started(self) -> bool {
        self.actor_started
    }

    /// Whether ownership moved between two samples at the latest update.
    pub closed spec fn spec_changed(self) -> bool {
        self.actor_changed
    }

    /// Whether an actor owned the action after the latest update.
    pub closed spec fn spec_acting(self) -> bool {
        self.actor_acting
    }

    /// Whether ownership went from some to none at the latest update.
    pub closed spec fn spec_stopped(self) -> bool {
        self.actor_stopped
    }

    /// Whether an exclusive capture is requested for the current actor.
    pub closed spec fn spec_capture_active(self) -> bool {
        self.capture_active
    }

    /// A fresh idle action.
    pub fn new(capture_on_trigger: bool, change_actor: bool) -> (a: SingleActorAction)
        ensures
            a.spec_capture_on_trigger() == capture_on_trigger,
            a.spec_change_actor() == change_actor,
            a.spec_actor() is None,
            a.spec_committing() == Seq::<InputSample>::empty(),
            a.spec_hovering() == Seq::<InputSample>::empty(),
            !a.spec_started() && !a.spec_changed() && !a.spec_acting() && !a.spec_stopped(),
            !a.spec_capture_active(),
    {
        SingleActorAction {
            capture_on_trigger,
            change_actor,
            hovering: HoverAction::new(),
            committing: Vec::new(),
            actor: None,
            actor_started: false,
            actor_changed: false,
            actor_acting: false,
            actor_stopped: false,
            capture_active: false,
        }
    }

    /// Reduce this frame's batch into ownership state and transition flags.
    pub fn update<H: SamplePredicate, C: SamplePredicate>(
        &mut self,
        batch: &Vec<InputSample>,
        hover_pred: &H,
        commit_pred: &C,
    ) -> (hover_diff: HoverDiff)
        requires
            spec_batch_wf(batch@),
        ensures
            final(self).spec_capture_on_trigger() == old(self).spec_capture_on_trigger(),
            final(self).spec_change_actor() == old(self).spec_change_actor(),
            final(self).spec_hovering() == spec_satisfying(batch@, *hover_pred),
            hover_diff.added@ == final(self).spec_hovering().filter(
                |s: InputSample| !spec_has_id(old(self).spec_hovering(), s.id),
            ),
            hover_diff.removed@ == old(self).spec_hovering().filter(
                |s: InputSample| !spec_has_id(final(self).spec_hovering(), s.id),
            ),
            final(self).spec_committing() == spec_satisfying(batch@, *commit_pred),
            final(self).spec_actor() == spec_next_actor(
                old(self).spec_actor(),
                batch@,
                *hover_pred,
                *commit_pred,
                old(self).spec_committing(),
                old(self).spec_change_actor(),
            ),
            final(self).spec_started() == (old(self).spec_actor() is None
                && final(self).spec_actor() is Some),
            final(self).spec_stopped() == (old(self).spec_actor() is Some
                && final(self).spec_actor() is None),
            final(self).spec_acting() == (final(self).spec_actor() is Some),
            final(self).spec_changed() == (old(self).spec_actor() is Some
                && final(self).spec_actor() is Some
                && old(self).spec_actor()->Some_0.id != final(self).spec_actor()->Some_0.id),
            final(self).spec_capture_active() == (old(self).spec_capture_on_trigger()
                && final(self).spec_actor() is Some),
            match final(self).spec_actor() {
                Some(a) => a.wf(),
                None => true,
            },
    {
        let hover_diff = self.hovering.update(batch, hover_pred);
        let new_committing = filter_satisfying(batch, commit_pred);

        let kept: Option<InputSample> = match &self.actor {
            None => None,
            Some(a) => {
                match find_by_id(batch, a.id) {
                    Some(s) => {
                        if commit_pred.eval(&s) {
                            Some(s)
                        } else {
                            None
                        }
                    },
                    None => None,
                }
            },
        };
        let candidate = find_candidate(batch, hover_pred, commit_pred, &self.committing);
        let next: Option<InputSample> = if self.change_actor || kept.is_none() {
            match candidate {
                Some(c) => Some(c),
                None => kept,
            }
        } else {
            kept
        };

        let was_some = self.actor.is_some();
        let old_id: u64 = match &self.actor {
            Some(a) => a.id,
            None => 0,
        };
        self.actor_started = !was_some && next.is_some();
        self.actor_stopped = was_some && next.is_none();
        self.actor_acting = next.is_some();
        self.actor_changed = was_some && match &next {
            Some(n) => n.id != old_id,
            None => false,
        };
        self.capture_active = self.capture_on_trigger && next.is_some();
        self.actor = next;
        self.committing = new_committing;
        hover_diff
    }

    /// Whether ownership went from none to some at the latest update.
    pub fn actor_started(&self) -> (b: bool)
        ensures
            b == self.spec_started(),
    {
        self.actor_started
    }

    /// Whether ownership moved between two samples at the latest update.
    pub fn actor_changed(&self) -> (b: bool)
        ensures
            b == self.spec_changed(),
    {
        self.actor_changed
    }

    /// Whether an actor owned the action after the latest update.
    pub fn actor_acting(&self) -> (b: bool)
        ensures
            b == self.spec_acting(),
    {
        self.actor_acting
    }

    /// Whether ownership went from some to none at the latest update.
    pub fn actor_stopped(&self) -> (b: bool)
        ensures
            b == self.spec_stopped(),
    {
        self.actor_stopped
    }

    /// The current owner, if any.
    pub fn actor(&self) -> (a: &Option<InputSample>)
        ensures
            *a == self.spec_actor(),
    {
        &self.actor
    }

    /// Whether an exclusive capture is requested for the current actor.
    pub fn capture_active(&self) -> (b: bool)
        ensures
            b == self.spec_capture_active(),
    {
        self.capture_active
    }

    /// The samples that satisfied the hover predicate at the latest update.
    pub fn hovering(&self) -> (h: &HoverAction)
        ensures
            h.spec_current() == self.spec_hovering(),
    {
        &self.hovering
    }
}

/// Find the first sample of `batch` that newly commits while eligible.
#[verifier::loop_isolation(false)]
fn find_candidate<H: SamplePredicate, C: SamplePredicate>(
    batch: &Vec<InputSample>,
    hover_pred: &H,
    commit_pred: &C,
    prev_commit: &Vec<InputSample>,
) -> (r: Option<InputSample>)
    requires
        forall|i: int| 0 <= i < batch@.len() ==> #[trigger] batch@[i].wf(),
    ensures
        r == spec_candidate(batch@, *hover_pred, *commit_pred, prev_commit@),
        match r {
            Some(s) => s.wf(),
            None => true,
        },
{
    let mut i: usize = 0;
    proof {
        assert(batch@.skip(0) =~= batch@);
    }
    while i < batch.len()
        invariant
            0 <= i <= batch@.len(),
            spec_candidate(batch@, *hover_pred, *commit_pred, prev_commit@) == spec_candidate(
                batch@.skip(i as int),
                *hover_pred,
                *commit_pred,
                prev_commit@,
            ),
        decreases batch@.len() - i,
    {
        proof {
            assert(batch@.skip(i as int)[0] == batch@[i as int]);
            assert(batch@.skip(i as int).drop_first() =~= batch@.skip(i as int + 1));
        }
        if commit_pred.eval(&batch[i]) && !has_id(prev_commit, batch[i].id) && hover_pred.eval(
            &batch[i],
        ) {
            return Some(batch[i]);
        }
        i = i + 1;
    }
    proof {
        assert(batch@.skip(batch@.len() as int).len() == 0);
    }
    None
}


/// What the candidate search promises: a found candidate is a batch member
/// that newly commits while hovering; when none is found, no sample of the
/// batch qualifies.
pub proof fn lemma_candidate_qualifies<H: SamplePredicate, C: SamplePredicate>(
    batch: Seq<InputSample>,
    hover: H,
    commit: C,
    prev_commit: Seq<InputSample>,
)
    ensures
        match spec_candidate(batch, hover, commit, prev_commit) {
            Some(s) => batch.contains(s) && commit.holds(s) && hover.holds(s) && !spec_has_id(
                prev_commit,
                s.id,
            ),
            None => forall|i: int|
                0 <= i < batch.len() ==> !(commit.holds(#[trigger] batch[i]) && !spec_has_id(
                    prev_commit,
                    batch[i].id,
                ) && hover.holds(batch[i])),
        },
    decreases batch.len(),
{
    if batch.len() > 0 {
        let head = batch[0];
        if commit.holds(head) && !spec_has_id(prev_commit, head.id) && hover.holds(head) {
            assert(batch.contains(head));
        } else {
            lemma_candidate_qualifies(batch.drop_first(), hover, commit, prev_commit);
            match spec_candidate(batch.drop_first(), hover, commit, prev_commit) {
                Some(s) => {
                    let j = choose|j: int|
                        0 <= j < batch.drop_first().len() && batch.drop_first()[j] == s;
                    assert(batch[j + 1] == s);
                },
                None => {
                    assert forall|i: int|
                        0 <= i < batch.len() implies !(commit.holds(#[trigger] batch[i])
                        && !spec_has_id(prev_commit, batch[i].id) && hover.holds(batch[i])) by {
                        if i > 0 {
                            assert(batch.drop_first()[i - 1] == batch[i]);
                        }
                    }
                },
            }
        }
    }
}

/// A live actor always satisfies the commit predicate and carries the
/// identity of a sample of this frame's batch; and ownership is never left
/// idle while some sample newly commits within the hover set.
pub proof fn lemma_next_actor_live<H: SamplePredicate, C: SamplePredicate>(
    old_actor: Option<InputSample>,
    batch: Seq<InputSample>,
    hover: H,
    commit: C,
    prev_commit: Seq<InputSample>,
    change_actor: bool,
)
    ensures
        match spec_next_actor(old_actor, batch, hover, commit, prev_commit, change_actor) {
            Some(a) => commit.holds(a) && spec_has_id(batch, a.id),
            None => forall|i: int|
                0 <= i < batch.len() ==> !(commit.holds(#[trigger] batch[i]) && !spec_has_id(
                    prev_commit,
                    batch[i].id,
                ) && hover.holds(batch[i])),
        },
{
    lemma_candidate_qualifies(batch, hover, commit, prev_commit);
    let next = spec_next_actor(old_actor, batch, hover, commit, prev_commit, change_actor);
    match next {
        Some(a) => {
            let kept = spec_kept_actor(old_actor, batch, commit);
            let candidate = spec_candidate(batch, hover, commit, prev_commit);
            if (change_actor || kept is None) && candidate is Some {
                let s = candidate->Some_0;
                let j = choose|j: int| 0 <= j < batch.len() && batch[j] == s;
                assert(spec_has_id(batch, s.id));
            }
        },
        None => {},
    }
}

} // verus!
