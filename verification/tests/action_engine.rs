//! Scenario tests of the input-action engine: hover diffs, single-actor
//! ownership and the multi-touch lifecycle.

use flatland::action::HoverAction;
use flatland::action::MultiActorAction;
use flatland::grab_ball::GrabCommit;
use flatland::grab_ball::GrabHover;
use flatland::math::Vec2;
use flatland::math::Vec3;
use flatland::sample::AuxData;
use flatland::sample::InputKind;
use flatland::sample::InputSample;
use flatland::sample::TipData;
use flatland::single_actor_action::SingleActorAction;
use flatland::surface::TouchEnter;
use flatland::surface::TouchExit;

fn v(x: i64, y: i64, z: i64) -> Vec3 {
    Vec3 { x, y, z }
}

fn aux() -> AuxData {
    AuxData {
        select: 0,
        middle: 0,
        context: 0,
        grab: 0,
        pinch_strength: 0,
        scroll_continuous: Vec2 { x: 0, y: 0 },
        scroll_discrete: Vec2 { x: 0, y: 0 },
    }
}

fn tip(id: u64, distance: i64, origin: Vec3) -> InputSample {
    InputSample {
        id,
        kind: InputKind::Tip(TipData { origin }),
        distance,
        aux: aux(),
        captured: false,
    }
}

fn grabbing_tip(id: u64, distance: i64, origin: Vec3) -> InputSample {
    let mut s = tip(id, distance, origin);
    s.aux.grab = 950;
    s
}

fn ids(samples: &Vec<InputSample>) -> Vec<u64> {
    samples.iter().map(|s| s.id).collect()
}

#[test]
fn hover_added_and_removed_are_disjoint() {
    let hover = GrabHover {
        threshold: 70,
        ray_eligible: false,
    };
    let mut action = HoverAction::new();

    // frame 1: 1 and 2 hover, 3 is too far
    let batch1 = vec![
        tip(1, 10, v(0, 0, 0)),
        tip(2, 20, v(0, 0, 0)),
        tip(3, 90, v(0, 0, 0)),
    ];
    let diff1 = action.update(&batch1, &hover);
    assert_eq!(ids(&diff1.added), vec![1, 2]);
    assert!(diff1.removed.is_empty());

    // frame 2: 2 leaves, 3 comes close, 1 stays
    let batch2 = vec![
        tip(1, 10, v(0, 0, 0)),
        tip(2, 90, v(0, 0, 0)),
        tip(3, 30, v(0, 0, 0)),
    ];
    let diff2 = action.update(&batch2, &hover);
    assert_eq!(ids(&diff2.added), vec![3]);
    assert_eq!(ids(&diff2.removed), vec![2]);
    for a in diff2.added.iter() {
        for r in diff2.removed.iter() {
            assert_ne!(a.id, r.id);
        }
    }
}

#[test]
fn hover_persistent_sample_never_readded() {
    let hover = GrabHover {
        threshold: 70,
        ray_eligible: false,
    };
    let mut action = HoverAction::new();
    let batch = vec![tip(7, 10, v(0, 0, 0))];
    let diff1 = action.update(&batch, &hover);
    assert_eq!(ids(&diff1.added), vec![7]);
    for _ in 0..4 {
        let diff = action.update(&batch, &hover);
        assert!(diff.added.is_empty());
        assert!(diff.removed.is_empty());
    }
}

#[test]
fn hover_update_is_idempotent() {
    let hover = GrabHover {
        threshold: 70,
        ray_eligible: false,
    };
    let mut action = HoverAction::new();
    let batch = vec![
        tip(1, 5, v(0, 0, 0)),
        tip(2, 95, v(0, 0, 0)),
        tip(3, 40, v(0, 0, 0)),
    ];
    let first = action.update(&batch, &hover);
    assert_eq!(ids(&first.added), vec![1, 3]);
    let second = action.update(&batch, &hover);
    assert!(second.added.is_empty());
    assert!(second.removed.is_empty());
}

#[test]
fn single_actor_starts_only_from_idle() {
    let hover = GrabHover {
        threshold: 70,
        ray_eligible: false,
    };
    let commit = GrabCommit { threshold: 900 };
    let mut action = SingleActorAction::new(true, false);

    // frame 1: close but not grabbing
    let batch1 = vec![tip(4, 10, v(0, 0, 0))];
    action.update(&batch1, &hover, &commit);
    assert!(action.actor().is_none());
    assert!(!action.actor_started());
    assert!(!action.actor_acting());

    // frame 2: the grab begins: None -> Some
    let batch2 = vec![grabbing_tip(4, 10, v(0, 0, 0))];
    action.update(&batch2, &hover, &commit);
    assert!(action.actor_started());
    assert!(action.actor_acting());
    assert!(!action.actor_stopped());
    assert_eq!(action.actor().as_ref().map(|s| s.id), Some(4));

    // frame 3: still grabbing: no fresh start
    action.update(&batch2, &hover, &commit);
    assert!(!action.actor_started());
    assert!(action.actor_acting());

    // frame 4: release: Some -> None
    let batch4 = vec![tip(4, 10, v(0, 0, 0))];
    action.update(&batch4, &hover, &commit);
    assert!(action.actor_stopped());
    assert!(!action.actor_started());
    assert!(action.actor().is_none());

    // frame 5: idle stays idle: no stop repeated
    action.update(&batch4, &hover, &commit);
    assert!(!action.actor_stopped());
    assert!(!action.actor_started());
}

#[test]
fn single_actor_at_most_one_owner() {
    let hover = GrabHover {
        threshold: 70,
        ray_eligible: false,
    };
    let commit = GrabCommit { threshold: 900 };
    let mut action = SingleActorAction::new(true, false);

    // two samples grab at once; only the first in batch order owns
    let batch = vec![
        grabbing_tip(1, 10, v(0, 0, 0)),
        grabbing_tip(2, 5, v(0, 0, 0)),
    ];
    action.update(&batch, &hover, &commit);
    assert!(action.actor_started());
    assert_eq!(action.actor().as_ref().map(|s| s.id), Some(1));

    // without actor change, the second one cannot steal
    action.update(&batch, &hover, &commit);
    assert_eq!(action.actor().as_ref().map(|s| s.id), Some(1));
}

#[test]
fn single_actor_change_actor_steals() {
    let hover = GrabHover {
        threshold: 70,
        ray_eligible: false,
    };
    let commit = GrabCommit { threshold: 900 };
    let mut action = SingleActorAction::new(false, true);

    let batch1 = vec![grabbing_tip(1, 10, v(0, 0, 0)), tip(2, 5, v(0, 0, 0))];
    action.update(&batch1, &hover, &commit);
    assert_eq!(action.actor().as_ref().map(|s| s.id), Some(1));

    // 2 newly grabs while 1 keeps holding: ownership changes, not starts
    let batch2 = vec![
        grabbing_tip(1, 10, v(0, 0, 0)),
        grabbing_tip(2, 5, v(0, 0, 0)),
    ];
    action.update(&batch2, &hover, &commit);
    assert_eq!(action.actor().as_ref().map(|s| s.id), Some(2));
    assert!(action.actor_changed());
    assert!(!action.actor_started());
    assert!(!action.actor_stopped());
}

#[test]
fn touch_lifecycle_one_added_two_current_one_removed() {
    // the surface is 200 x 200; a contact at depth 5 is in front, at -5 behind
    let enter = TouchEnter {
        size: Vec2 { x: 200, y: 200 },
    };
    let exit = TouchExit {
        size: Vec2 { x: 200, y: 200 },
    };
    let mut action = MultiActorAction::new();

    let present = vec![tip(9, 0, v(10, 10, 5))];
    let absent: Vec<InputSample> = vec![];

    // batch 1: the id appears
    let d1 = action.update(&present, &enter, &exit);
    assert_eq!(ids(&d1.added), vec![9]);
    assert!(d1.current.is_empty());
    assert!(d1.removed.is_empty());

    // batches 2 and 3: the id continues
    let d2 = action.update(&present, &enter, &exit);
    assert!(d2.added.is_empty());
    assert_eq!(ids(&d2.current), vec![9]);
    assert!(d2.removed.is_empty());
    let d3 = action.update(&present, &enter, &exit);
    assert!(d3.added.is_empty());
    assert_eq!(ids(&d3.current), vec![9]);
    assert!(d3.removed.is_empty());

    // batch 4: the id vanishes
    let d4 = action.update(&absent, &enter, &exit);
    assert!(d4.added.is_empty());
    assert!(d4.current.is_empty());
    assert_eq!(ids(&d4.removed), vec![9]);

    // batch 5: nothing further
    let d5 = action.update(&absent, &enter, &exit);
    assert!(d5.added.is_empty());
    assert!(d5.current.is_empty());
    assert!(d5.removed.is_empty());
}

#[test]
fn touch_exit_through_surface_removes() {
    let enter = TouchEnter {
        size: Vec2 { x: 200, y: 200 },
    };
    let exit = TouchExit {
        size: Vec2 { x: 200, y: 200 },
    };
    let mut action = MultiActorAction::new();

    let front = vec![tip(3, 0, v(0, 0, 5))];
    let behind = vec![tip(3, 0, v(0, 0, -5))];

    let d1 = action.update(&front, &enter, &exit);
    assert_eq!(ids(&d1.added), vec![3]);
    let d2 = action.update(&behind, &enter, &exit);
    assert!(d2.current.is_empty());
    assert_eq!(ids(&d2.removed), vec![3]);
}

#[test]
fn touch_update_is_idempotent() {
    let enter = TouchEnter {
        size: Vec2 { x: 200, y: 200 },
    };
    let exit = TouchExit {
        size: Vec2 { x: 200, y: 200 },
    };
    let mut action = MultiActorAction::new();
    let batch = vec![tip(1, 0, v(0, 0, 5)), tip(2, 0, v(10, 0, 5))];
    let first = action.update(&batch, &enter, &exit);
    assert_eq!(ids(&first.added), vec![1, 2]);
    let second = action.update(&batch, &enter, &exit);
    assert!(second.added.is_empty());
    assert!(second.removed.is_empty());
    assert_eq!(ids(&second.current), vec![1, 2]);
}

#[test]
fn commit_threshold_is_strict() {
    let hover = GrabHover {
        threshold: 70,
        ray_eligible: false,
    };
    let commit = GrabCommit { threshold: 900 };
    let mut action = SingleActorAction::new(true, false);

    // exactly at the threshold: not committing
    let mut at = tip(1, 10, v(0, 0, 0));
    at.aux.grab = 900;
    action.update(&vec![at], &hover, &commit);
    assert!(action.actor().is_none());

    // one step above: committing
    let mut above = tip(1, 10, v(0, 0, 0));
    above.aux.grab = 901;
    action.update(&vec![above], &hover, &commit);
    assert_eq!(action.actor().as_ref().map(|s| s.id), Some(1));
}
