//! The input-action engine: stateful reductions of successive sample batches
//! into hover, single-owner and multi-touch semantics.
//!
//! An action is updated once per frame with the frame's whole batch and a
//! predicate (or a pair of predicates) over single samples; it reports the
//! batch-to-batch difference against what it held the frame before.

use vstd::prelude::*;

use crate::sample::spec_batch_wf;
use crate::sample::spec_has_id;
use crate::sample::InputSample;

verus! {

broadcast use vstd::seq_lib::group_filter_ensures;

/// A pure predicate over one input sample, evaluated afresh each frame.
pub trait SamplePredicate: Sized {
    /// What the predicate means, as a mathematical function of the sample.
    spec fn holds(&self, s: InputSample) -> bool;

    /// Decide the predicate on one well-formed sample.
    fn eval(&self, s: &InputSample) -> (b: bool)
        requires
            s.wf(),
        ensures
            b == self.holds(*s),
    ;
}

/// The samples of `batch` satisfying `pred`, in batch order.
pub open spec fn spec_satisfying<P: SamplePredicate>(batch: Seq<InputSample>, pred: P) -> Seq<
    InputSample,
> {
    batch.filter(|s: InputSample| pred.holds(s))
}

/// Appending one element to a sequence extends its filtered view by that
/// element exactly when the element satisfies the predicate.
proof fn lemma_filter_push(s: Seq<InputSample>, x: InputSample, pred: spec_fn(InputSample) -> bool)
    ensures
        s.push(x).filter(pred) == if pred(x) {
            s.filter(pred).push(x)
        } else {
            s.filter(pred)
        },
{
    reveal(Seq::filter);
    assert(s.push(x).drop_last() =~= s);
    assert(s.push(x).last() == x);
}

/// A sequence whose every element fails the predicate filters to empty.
proof fn lemma_filter_none(s: Seq<InputSample>, pred: spec_fn(InputSample) -> bool)
    requires
        forall|i: int| 0 <= i < s.len() ==> !pred(s[i]),
    ensures
        s.filter(pred) == Seq::<InputSample>::empty(),
    decreases s.len(),
{
    reveal(Seq::filter);
    if s.len() > 0 {
        lemma_filter_none(s.drop_last(), pred);
    }
}

/// Collect the samples of `batch` satisfying `pred`, in order.
#[verifier::loop_isolation(false)]
pub(crate) fn filter_satisfying<P: SamplePredicate>(batch: &Vec<InputSample>, pred: &P) -> (out: Vec<
    InputSample,
>)
    requires
        forall|i: int| 0 <= i < batch@.len() ==> #[trigger] batch@[i].wf(),
    ensures
        out@ == spec_satisfying(batch@, *pred),
{
    let ghost p = |s: InputSample| pred.holds(s);
    let mut out: Vec<InputSample> = Vec::new();
    let mut i: usize = 0;
    while i < batch.len()
        invariant
            0 <= i <= batch@.len(),
            forall|j: int| 0 <= j < batch@.len() ==> #[trigger] batch@[j].wf(),
            out@ == batch@.subrange(0, i as int).filter(p),
        decreases batch@.len() - i,
    {
        proof {
            lemma_filter_push(batch@.subrange(0, i as int), batch@[i as int], p);
            assert(batch@.subrange(0, i as int).push(batch@[i as int]) =~= batch@.subrange(
                0,
                i as int + 1,
            ));
            assert(p(batch@[i as int]) == pred.holds(batch@[i as int]));
        }
        if pred.eval(&batch[i]) {
            out.push(batch[i]);
        }
        i = i + 1;
    }
    proof {
        assert(batch@.subrange(0, batch@.len() as int) =~= batch@);
    }
    out
}

/// Collect the samples of `from` whose identity occurs nowhere in `other`.
#[verifier::loop_isolation(false)]
pub(crate) fn filter_absent(from: &Vec<InputSample>, other: &Vec<InputSample>) -> (out: Vec<InputSample>)
    ensures
        out@ == from@.filter(|s: InputSample| !spec_has_id(other@, s.id)),
{
    let ghost p = |s: InputSample| !spec_has_id(other@, s.id);
    let mut out: Vec<InputSample> = Vec::new();
    let mut i: usize = 0;
    while i < from.len()
        invariant
            0 <= i <= from@.len(),
            out@ == from@.subrange(0, i as int).filter(p),
        decreases from@.len() - i,
    {
        proof {
            lemma_filter_push(from@.subrange(0, i as int), from@[i as int], p);
            assert(from@.subrange(0, i as int).push(from@[i as int]) =~= from@.subrange(
                0,
                i as int + 1,
            ));
            assert(p(from@[i as int]) == !spec_has_id(other@, from@[i as int].id));
        }
        if !crate::sample::has_id(other, from[i].id) {
            out.push(from[i]);
        }
        i = i + 1;
    }
    proof {
        assert(from@.subrange(0, from@.len() as int) =~= from@);
    }
    out
}

/// The batch-to-batch difference a hover action reports.
pub struct HoverDiff {
    /// Samples satisfying this frame whose identity was absent last frame.
    pub added: Vec<InputSample>,
    /// Samples held last frame whose identity no longer satisfies.
    pub removed: Vec<InputSample>,
}

/// A hover action: the set of all samples meeting a predicate this frame,
/// diffed against the frame before.
pub struct HoverAction {
    current: Vec<InputSample>,
}

impl HoverAction {
    /// The samples that satisfied the predicate at the latest update.
    pub closed spec fn spec_current(self) -> Seq<InputSample> {
        self.current@
    }

    /// A fresh action tracking nothing.
    pub fn new() -> (a: HoverAction)
        ensures
            a.spec_current() == Seq::<InputSample>::empty(),
    {
        HoverAction { current: Vec::new() }
    }

    /// The samples that satisfied the predicate at the latest update.
    pub fn currently_acting(&self) -> (c: &Vec<InputSample>)
        ensures
            c@ == self.spec_current(),
    {
        &self.current
    }

    /// Reduce this frame's batch: track exactly the satisfying samples and
    /// report which identities appeared and which left.
    pub fn update<P: SamplePredicate>(&mut self, batch: &Vec<InputSample>, pred: &P) -> (diff:
        HoverDiff)
        requires
            spec_batch_wf(batch@),
        ensures
            final(self).spec_current() == spec_satisfying(batch@, *pred),
            diff.added@ == final(self).spec_current().filter(
                |s: InputSample| !spec_has_id(old(self).spec_current(), s.id),
            ),
            diff.removed@ == old(self).spec_current().filter(
                |s: InputSample| !spec_has_id(final(self).spec_current(), s.id),
            ),
    {
        let now = filter_satisfying(batch, pred);
        let added = filter_absent(&now, &self.current);
        let removed = filter_absent(&self.current, &now);
        self.current = now;
        HoverDiff { added, removed }
    }
}

/// No identity both appears and leaves in one update: the `added` and
/// `removed` parts of a hover diff never share an identity. Moreover a sample
/// whose identity was already held never shows up in `added` again.
pub proof fn lemma_hover_diff_disjoint(
    before: Seq<InputSample>,
    now: Seq<InputSample>,
    added: Seq<InputSample>,
    removed: Seq<InputSample>,
)
    requires
        added == now.filter(|s: InputSample| !spec_has_id(before, s.id)),
        removed == before.filter(|s: InputSample| !spec_has_id(now, s.id)),
    ensures
        forall|i: int, j: int|
            0 <= i < added.len() && 0 <= j < removed.len() ==> added[i].id != removed[j].id,
        forall|i: int| 0 <= i < added.len() ==> !spec_has_id(before, #[trigger] added[i].id),
{
    let pa = |s: InputSample| !spec_has_id(before, s.id);
    let pr = |s: InputSample| !spec_has_id(now, s.id);
    assert forall|i: int, j: int|
        0 <= i < added.len() && 0 <= j < removed.len() implies added[i].id != removed[j].id by {
        assert(pa(added[i]));
        assert(pr(removed[j]));
        assert(now.filter(pa).contains(added[i]));
        now.lemma_filter_contains_rev(pa, added[i]);
        let k = choose|k: int| 0 <= k < now.len() && now[k] == added[i];
        assert(now[k].id == added[i].id);
        if added[i].id == removed[j].id {
            assert(spec_has_id(now, removed[j].id));
        }
    }
    assert forall|i: int| 0 <= i < added.len() implies !spec_has_id(
        before,
        #[trigger] added[i].id,
    ) by {
        assert(pa(added[i]));
    }
}

/// Updating a hover action twice with an unchanged batch yields an empty diff
/// the second time.
pub proof fn lemma_hover_update_idempotent(
    before: Seq<InputSample>,
    now: Seq<InputSample>,
    added: Seq<InputSample>,
    removed: Seq<InputSample>,
)
    requires
        now == before,
        added == now.filter(|s: InputSample| !spec_has_id(before, s.id)),
        removed == before.filter(|s: InputSample| !spec_has_id(now, s.id)),
    ensures
        added == Seq::<InputSample>::empty(),
        removed == Seq::<InputSample>::empty(),
{
    let pa = |s: InputSample| !spec_has_id(before, s.id);
    assert forall|i: int| 0 <= i < now.len() implies !pa(now[i]) by {
        assert(spec_has_id(before, now[i].id));
    }
    lemma_filter_none(now, pa);
    let pr = |s: InputSample| !spec_has_id(now, s.id);
    assert forall|i: int| 0 <= i < before.len() implies !pr(before[i]) by {
        assert(spec_has_id(now, before[i].id));
    }
    lemma_filter_none(before, pr);
}

/// Copy two sample vectors into one, in order.
pub(crate) fn concat_copy(a: &Vec<InputSample>, b: &Vec<InputSample>) -> (out: Vec<InputSample>)
    ensures
        out@ == a@ + b@,
{
    let mut out: Vec<InputSample> = Vec::new();
    let mut i: usize = 0;
    while i < a.len()
        invariant
            0 <= i <= a@.len(),
            out@ == a@.subrange(0, i as int),
        decreases a@.len() - i,
    {
        out.push(a[i]);
        proof {
            assert(out@ =~= a@.subrange(0, i as int + 1));
        }
        i = i + 1;
    }
    let mut j: usize = 0;
    while j < b.len()
        invariant
            0 <= j <= b@.len(),
            out@ == a@ + b@.subrange(0, j as int),
        decreases b@.len() - j,
    {
        out.push(b[j]);
        proof {
            assert(out@ =~= a@ + b@.subrange(0, j as int + 1));
        }
        j = j + 1;
    }
    proof {
        assert(a@.subrange(0, a@.len() as int) =~= a@);
        assert(b@.subrange(0, b@.len() as int) =~= b@);
        assert(out@ =~= a@ + b@);
    }
    out
}

/// Collect the samples of `batch` that satisfy `enter` and are not yet
/// active.
#[verifier::loop_isolation(false)]
fn filter_entering<E: SamplePredicate>(
    batch: &Vec<InputSample>,
    enter: &E,
    active: &Vec<InputSample>,
) -> (out: Vec<InputSample>)
    requires
        forall|i: int| 0 <= i < batch@.len() ==> #[trigger] batch@[i].wf(),
    ensures
        out@ == batch@.filter(
            |s: InputSample| enter.holds(s) && !spec_has_id(active@, s.id),
        ),
{
    let ghost p = |s: InputSample| enter.holds(s) && !spec_has_id(active@, s.id);
    let mut out: Vec<InputSample> = Vec::new();
    let mut i: usize = 0;
    while i < batch.len()
        invariant
            0 <= i <= batch@.len(),
            out@ == batch@.subrange(0, i as int).filter(p),
        decreases batch@.len() - i,
    {
        proof {
            lemma_filter_push(batch@.subrange(0, i as int), batch@[i as int], p);
            assert(batch@.subrange(0, i as int).push(batch@[i as int]) =~= batch@.subrange(
                0,
                i as int + 1,
            ));
        }
        if enter.eval(&batch[i]) && !crate::sample::has_id(active, batch[i].id) {
            out.push(batch[i]);
        }
        i = i + 1;
    }
    proof {
        assert(batch@.subrange(0, batch@.len() as int) =~= batch@);
    }
    out
}

/// Collect the samples of `batch` that are already active and do not exit.
#[verifier::loop_isolation(false)]
fn filter_still_current<X: SamplePredicate>(
    batch: &Vec<InputSample>,
    exit: &X,
    active: &Vec<InputSample>,
) -> (out: Vec<InputSample>)
    requires
        forall|i: int| 0 <= i < batch@.len() ==> #[trigger] batch@[i].wf(),
    ensures
        out@ == batch@.filter(
            |s: InputSample| spec_has_id(active@, s.id) && !exit.holds(s),
        ),
{
    let ghost p = |s: InputSample| spec_has_id(active@, s.id) && !exit.holds(s);
    let mut out: Vec<InputSample> = Vec::new();
    let mut i: usize = 0;
    while i < batch.len()
        invariant
            0 <= i <= batch@.len(),
            out@ == batch@.subrange(0, i as int).filter(p),
        decreases batch@.len() - i,
    {
        proof {
            lemma_filter_push(batch@.subrange(0, i as int), batch@[i as int], p);
            assert(batch@.subrange(0, i as int).push(batch@[i as int]) =~= batch@.subrange(
                0,
                i as int + 1,
            ));
        }
        if crate::sample::has_id(active, batch[i].id) && !exit.eval(&batch[i]) {
            out.push(batch[i]);
        }
        i = i + 1;
    }
    proof {
        assert(batch@.subrange(0, batch@.len() as int) =~= batch@);
    }
    out
}

/// The batch-to-batch difference a multi-actor (touch) action reports.
pub struct TouchDiff {
    /// Samples newly entering this frame, in batch order.
    pub added: Vec<InputSample>,
    /// Samples already active and still present without exiting.
    pub current: Vec<InputSample>,
    /// Samples active last frame that exited or vanished, with their
    /// last-known data.
    pub removed: Vec<InputSample>,
}

/// A multi-actor action: an unordered set of concurrently active owners, each
/// independently entering and leaving via its own predicate.
pub struct MultiActorAction {
    active: Vec<InputSample>,
}

impl MultiActorAction {
    /// The samples held as active after the latest update.
    pub closed spec fn spec_tracked(self) -> Seq<InputSample> {
        self.active@
    }

    /// A fresh action tracking nothing.
    pub fn new() -> (a: MultiActorAction)
        ensures
            a.spec_tracked() == Seq::<InputSample>::empty(),
    {
        MultiActorAction { active: Vec::new() }
    }

    /// The samples held as active after the latest update.
    pub fn interacting(&self) -> (t: &Vec<InputSample>)
        ensures
            t@ == self.spec_tracked(),
    {
        &self.active
    }

    /// Reduce this frame's batch. An untracked sample satisfying `enter` is
    /// added; an already-held sample still present and not satisfying `exit` stays
    /// current; a held identity that exited or vanished is removed, with
    /// its last-known data. A sample already held never re-enters `added`.
    pub fn update<E: SamplePredicate, X: SamplePredicate>(
        &mut self,
        batch: &Vec<InputSample>,
        enter: &E,
        exit: &X,
    ) -> (diff: TouchDiff)
        requires
            spec_batch_wf(batch@),
        ensures
            diff.added@ == batch@.filter(
                |s: InputSample| enter.holds(s) && !spec_has_id(old(self).spec_tracked(), s.id),
            ),
            diff.current@ == batch@.filter(
                |s: InputSample| spec_has_id(old(self).spec_tracked(), s.id) && !exit.holds(s),
            ),
            diff.removed@ == old(self).spec_tracked().filter(
                |s: InputSample| !spec_has_id(diff.current@, s.id),
            ),
            final(self).spec_tracked() == diff.current@ + diff.added@,
    {
        let added = filter_entering(batch, enter, &self.active);
        let current = filter_still_current(batch, exit, &self.active);
        let removed = filter_absent(&self.active, &current);
        self.active = concat_copy(&current, &added);
        TouchDiff { added, current, removed }
    }
}

/// Updating a multi-actor action twice with an unchanged batch adds and
/// removes nothing the second time: every active identity stays current.
pub proof fn lemma_multi_update_idempotent<E: SamplePredicate, X: SamplePredicate>(
    batch: Seq<InputSample>,
    active: Seq<InputSample>,
    enter: E,
    exit: X,
    added: Seq<InputSample>,
    current: Seq<InputSample>,
    removed: Seq<InputSample>,
)
    requires
        active == batch.filter(
            |s: InputSample| spec_has_id(batch, s.id) && !exit.holds(s),
        ),
        added == batch.filter(
            |s: InputSample| enter.holds(s) && !spec_has_id(active, s.id),
        ),
        current == batch.filter(
            |s: InputSample| spec_has_id(active, s.id) && !exit.holds(s),
        ),
        removed == active.filter(|s: InputSample| !spec_has_id(current, s.id)),
        forall|i: int| 0 <= i < batch.len() ==>
            (#[trigger] enter.holds(batch[i]) ==> !exit.holds(batch[i])),
    ensures
        added == Seq::<InputSample>::empty(),
        removed == Seq::<InputSample>::empty(),
        current == active,
{
    let pt = |s: InputSample| spec_has_id(batch, s.id) && !exit.holds(s);
    let pa = |s: InputSample| enter.holds(s) && !spec_has_id(active, s.id);
    let pc = |s: InputSample| spec_has_id(active, s.id) && !exit.holds(s);
    let pr = |s: InputSample| !spec_has_id(current, s.id);
    assert forall|i: int| 0 <= i < batch.len() implies !pa(batch[i]) by {
        if enter.holds(batch[i]) {
            assert(spec_has_id(batch, batch[i].id));
            assert(pt(batch[i]));
            batch.lemma_filter_contains(pt, i);
            let j = choose|j: int| 0 <= j < active.len() && active[j] == batch[i];
            assert(spec_has_id(active, batch[i].id));
        }
    }
    lemma_filter_none(batch, pa);
    assert forall|i: int| 0 <= i < batch.len() implies pc(batch[i]) == pt(batch[i]) by {
        if pt(batch[i]) {
            batch.lemma_filter_contains(pt, i);
            let j = choose|j: int| 0 <= j < active.len() && active[j] == batch[i];
            assert(spec_has_id(active, batch[i].id));
        }
        if pc(batch[i]) {
            let j = choose|j: int| 0 <= j < active.len() && active[j].id == batch[i].id;
            assert(pt(active[j]));
            active.lemma_filter_contains_rev(pt, active[j]);
            assert(spec_has_id(batch, batch[i].id));
        }
    }
    lemma_filter_same(batch, pc, pt);
    assert forall|i: int| 0 <= i < active.len() implies !pr(active[i]) by {
        assert(spec_has_id(current, active[i].id));
    }
    lemma_filter_none(active, pr);
}

/// Two predicates that agree on every element of a sequence filter it to the
/// same subsequence.
proof fn lemma_filter_same(
    s: Seq<InputSample>,
    p: spec_fn(InputSample) -> bool,
    q: spec_fn(InputSample) -> bool,
)
    requires
        forall|i: int| 0 <= i < s.len() ==> p(s[i]) == q(s[i]),
    ensures
        s.filter(p) == s.filter(q),
    decreases s.len(),
{
    reveal(Seq::filter);
    if s.len() > 0 {
        lemma_filter_same(s.drop_last(), p, q);
    }
}


/// Every sample of a filtered batch is well-formed when the batch is.
pub proof fn lemma_filter_members_wf(batch: Seq<InputSample>, pred: spec_fn(InputSample) -> bool)
    requires
        forall|i: int| 0 <= i < batch.len() ==> #[trigger] batch[i].wf(),
    ensures
        forall|i: int|
            0 <= i < batch.filter(pred).len() ==> (#[trigger] batch.filter(pred)[i]).wf(),
{
    let out = batch.filter(pred);
    assert forall|i: int| 0 <= i < out.len() implies (#[trigger] out[i]).wf() by {
        assert(out.contains(out[i]));
        batch.lemma_filter_contains_rev(pred, out[i]);
        let j = choose|j: int| 0 <= j < batch.len() && batch[j] == out[i];
        assert(batch[j].wf());
    }
}

} // verus!
