//! The acceptor resolver: which of several candidate drop targets is nearest
//! to a dragged panel shell, and whether releasing the drag hands the panel
//! over.
//!
//! Each update round issues one asynchronous distance query per acceptor;
//! completed results are reduced here to the nearest acceptor. The nearness
//! is mapped onto a feedback ramp for the shell's material, and if the grab's
//! release coincides with the round and the nearest acceptor is within the
//! commit threshold, the panel is captured by it. Rounds carry a generation
//! number so a result that arrives after a newer round began is discarded.

use vstd::prelude::*;

use crate::math::COORD_LIMIT;
use crate::util::spec_map_range;
use crate::util::MapNumber;

verus! {

/// Distance below which releasing the drag commits to an acceptor.
pub const MAX_ACCEPT_DISTANCE: i64 = 50;

/// Distance at which the proximity feedback ramp begins.
pub const FAR_ACCEPT_DISTANCE: i64 = 250;

/// One completed distance query: an acceptor and its distance to the shell.
#[derive(Clone, Copy, Debug, PartialEq, Eq, Structural)]
pub struct AcceptorDistance {
    /// Identity of the acceptor.
    pub id: u64,
    /// Its distance to the dragged shell's reference point.
    pub distance: i64,
}

/// The material feedback for the dragged shell.
#[derive(Clone, Copy, Debug, PartialEq, Eq, Structural)]
pub enum TransferFeedback {
    /// No acceptor answered this round: plain white.
    Neutral,
    /// The nearest acceptor sits at ramp position `t`: zero at the far
    /// distance, one thousand at the commit distance, linear between and
    /// continuing beyond either end.
    Proximity { t: i64 },
}

/// What one resolution round concludes.
#[derive(Clone, Copy, Debug, PartialEq, Eq, Structural)]
pub struct TransferOutcome {
    /// The round's results arrived after a newer round began; nothing of
    /// this outcome applies.
    pub stale: bool,
    /// Feedback to apply on the shell.
    pub feedback: TransferFeedback,
    /// The acceptor to hand the panel to, if the drag's release lands within
    /// the commit threshold.
    pub commit: Option<u64>,
}

/// The first result of least distance, scanned in order; an earlier result
/// wins a tie.
pub open spec fn spec_closest_acceptor(results: Seq<AcceptorDistance>) -> Option<AcceptorDistance>
    decreases results.len(),
{
    if results.len() == 0 {
        None
    } else {
        match spec_closest_acceptor(results.drop_last()) {
            None => Some(results.last()),
            Some(c) => if results.last().distance < c.distance {
                Some(results.last())
            } else {
                Some(c)
            },
        }
    }
}

/// The ramp position of a distance: an affine map sending the far distance
/// to zero and the commit distance to one thousand.
pub open spec fn spec_proximity_ramp(d: int) -> int {
    spec_map_range(
        d,
        FAR_ACCEPT_DISTANCE as int,
        MAX_ACCEPT_DISTANCE as int,
        0,
        1000,
    )
}

/// The nearest result is a member of the results and no result is nearer.
pub proof fn lemma_closest_acceptor_minimal(results: Seq<AcceptorDistance>)
    ensures
        (results.len() == 0) == (spec_closest_acceptor(results) is None),
        match spec_closest_acceptor(results) {
            Some(c) => results.contains(c) && forall|i: int|
                0 <= i < results.len() ==> c.distance <= #[trigger] results[i].distance,
            None => true,
        },
    decreases results.len(),
{
    if results.len() > 0 {
        lemma_closest_acceptor_minimal(results.drop_last());
        let c = spec_closest_acceptor(results)->Some_0;
        assert forall|i: int|
            0 <= i < results.len() implies c.distance <= #[trigger] results[i].distance by {
            if i < results.len() - 1 {
                assert(results.drop_last()[i] == results[i]);
            }
        }
        match spec_closest_acceptor(results.drop_last()) {
            None => {
                assert(results.last() == results[results.len() - 1]);
            },
            Some(p) => {
                if results.last().distance < p.distance {
                    assert(results.last() == results[results.len() - 1]);
                } else {
                    let j = choose|j: int|
                        0 <= j < results.drop_last().len() && results.drop_last()[j] == p;
                    assert(results[j] == p);
                }
            },
        }
    }
}

/// The resolver's round bookkeeping for one dragged panel shell.
pub struct PanelShellTransfer {
    generation: u64,
}

impl PanelShellTransfer {
    /// The newest round's generation number.
    pub closed spec fn spec_generation(self) -> u64 {
        self.generation
    }

    /// A fresh resolver with no round begun.
    pub fn create() -> (t: PanelShellTransfer)
        ensures
            t.spec_generation() == 0,
    {
        PanelShellTransfer { generation: 0 }
    }

    /// Begin a new resolution round: one distance query per acceptor is to
    /// be issued under the returned generation number.
    pub fn begin_round(&mut self) -> (round: u64)
        requires
            old(self).spec_generation() < u64::MAX,
        ensures
            final(self).spec_generation() == old(self).spec_generation() + 1,
            round == final(self).spec_generation(),
    {
        self.generation = self.generation + 1;
        self.generation
    }

    /// Conclude the round `round` from its completed distance results.
    /// Results of a superseded round are discarded. Otherwise the nearest
    /// acceptor drives the feedback ramp, and when the drag was released
    /// this frame and the nearest distance is within the commit threshold,
    /// the panel is handed to that acceptor — with no acceptor answering,
    /// the feedback resets to neutral and nothing commits.
    pub fn update_distances(
        &self,
        round: u64,
        results: &Vec<AcceptorDistance>,
        released: bool,
    ) -> (out: TransferOutcome)
        requires
            forall|i: int|
                0 <= i < results@.len() ==> -COORD_LIMIT <= (#[trigger] results@[i]).distance
                    <= COORD_LIMIT,
        ensures
            out.stale == (round != self.spec_generation()),
            out.stale ==> out.commit is None && out.feedback == TransferFeedback::Neutral,
            !out.stale ==> out == (match spec_closest_acceptor(results@) {
                None => TransferOutcome {
                    stale: false,
                    feedback: TransferFeedback::Neutral,
                    commit: None,
                },
                Some(c) => TransferOutcome {
                    stale: false,
                    feedback: TransferFeedback::Proximity {
                        t: spec_proximity_ramp(c.distance as int) as i64,
                    },
                    commit: if released && c.distance < MAX_ACCEPT_DISTANCE {
                        Some(c.id)
                    } else {
                        None
                    },
                },
            }),
    {
        if round != self.generation {
            return TransferOutcome {
                stale: true,
                feedback: TransferFeedback::Neutral,
                commit: None,
            };
        }
        let mut best: Option<AcceptorDistance> = None;
        let mut i: usize = 0;
        proof {
            assert(results@.subrange(0, 0int) =~= Seq::<AcceptorDistance>::empty());
        }
        while i < results.len()
            invariant
                0 <= i <= results@.len(),
                best == spec_closest_acceptor(results@.subrange(0, i as int)),
                forall|t: int|
                    0 <= t < results@.len() ==> -COORD_LIMIT <= (#[trigger] results@[t]).distance
                        <= COORD_LIMIT,
                match best {
                    Some(b) => -COORD_LIMIT <= b.distance <= COORD_LIMIT,
                    None => true,
                },
            decreases results@.len() - i,
        {
            proof {
                assert(results@.subrange(0, i as int + 1).drop_last() =~= results@.subrange(
                    0,
                    i as int,
                ));
                assert(results@.subrange(0, i as int + 1).last() == results@[i as int]);
            }
            best = match best {
                None => Some(results[i]),
                Some(b) => if results[i].distance < b.distance {
                    Some(results[i])
                } else {
                    Some(b)
                },
            };
            i = i + 1;
        }
        proof {
            assert(results@.subrange(0, results@.len() as int) =~= results@);
        }
        match best {
            None => TransferOutcome {
                stale: false,
                feedback: TransferFeedback::Neutral,
                commit: None,
            },
            Some(c) => {
                let t = c.distance.map((FAR_ACCEPT_DISTANCE, MAX_ACCEPT_DISTANCE), (0, 1000));
                TransferOutcome {
                    stale: false,
                    feedback: TransferFeedback::Proximity { t },
                    commit: if released && c.distance < MAX_ACCEPT_DISTANCE {
                        Some(c.id)
                    } else {
                        None
                    },
                }
            },
        }
    }
}

} // verus!
