//! Scenario tests of the acceptor resolver and the initial panel placement.

use flatland::initial_panel_placement::InitialPanelPlacement;
use flatland::initial_panel_placement::Placement;
use flatland::math::Vec3;
use flatland::panel_shell_transfer::AcceptorDistance;
use flatland::panel_shell_transfer::PanelShellTransfer;
use flatland::panel_shell_transfer::TransferFeedback;

fn d(id: u64, distance: i64) -> AcceptorDistance {
    AcceptorDistance { id, distance }
}

#[test]
fn release_commits_to_nearest_within_threshold() {
    // acceptors at 0.01, 0.08 and 0.30 units; the commit threshold is 0.05
    let mut transfer = PanelShellTransfer::create();
    let round = transfer.begin_round();
    let results = vec![d(11, 10), d(22, 80), d(33, 300)];
    let out = transfer.update_distances(round, &results, true);
    assert!(!out.stale);
    assert_eq!(out.commit, Some(11));
}

#[test]
fn release_commits_nothing_when_all_far() {
    let mut transfer = PanelShellTransfer::create();
    let round = transfer.begin_round();
    let results = vec![d(22, 80), d(33, 300)];
    let out = transfer.update_distances(round, &results, true);
    assert!(!out.stale);
    assert_eq!(out.commit, None);
    // the nearest still drives the feedback ramp
    match out.feedback {
        TransferFeedback::Proximity { t } => assert_eq!(t, 850),
        TransferFeedback::Neutral => panic!("expected proximity feedback"),
    }
}

#[test]
fn holding_on_commits_nothing() {
    let mut transfer = PanelShellTransfer::create();
    let round = transfer.begin_round();
    let results = vec![d(11, 10)];
    let out = transfer.update_distances(round, &results, false);
    assert_eq!(out.commit, None);
}

#[test]
fn proximity_ramp_endpoints() {
    let mut transfer = PanelShellTransfer::create();
    let round = transfer.begin_round();

    // at the far distance the ramp reads zero
    let far = transfer.update_distances(round, &vec![d(1, 250)], false);
    assert_eq!(far.feedback, TransferFeedback::Proximity { t: 0 });

    // at the commit distance it reads one thousand
    let near = transfer.update_distances(round, &vec![d(1, 50)], false);
    assert_eq!(near.feedback, TransferFeedback::Proximity { t: 1000 });

    // beyond the commit distance it keeps rising
    let inside = transfer.update_distances(round, &vec![d(1, 10)], false);
    assert_eq!(inside.feedback, TransferFeedback::Proximity { t: 1200 });
}

#[test]
fn no_acceptors_resets_to_neutral() {
    let mut transfer = PanelShellTransfer::create();
    let round = transfer.begin_round();
    let out = transfer.update_distances(round, &vec![], true);
    assert_eq!(out.feedback, TransferFeedback::Neutral);
    assert_eq!(out.commit, None);
}

#[test]
fn ties_go_to_the_earlier_result() {
    let mut transfer = PanelShellTransfer::create();
    let round = transfer.begin_round();
    let results = vec![d(7, 40), d(8, 40)];
    let out = transfer.update_distances(round, &results, true);
    assert_eq!(out.commit, Some(7));
}

#[test]
fn stale_round_is_discarded() {
    let mut transfer = PanelShellTransfer::create();
    let old_round = transfer.begin_round();
    let _new_round = transfer.begin_round();
    let out = transfer.update_distances(old_round, &vec![d(11, 10)], true);
    assert!(out.stale);
    assert_eq!(out.commit, None);
    assert_eq!(out.feedback, TransferFeedback::Neutral);
}

#[test]
fn unpositioned_panel_goes_in_front() {
    let p = InitialPanelPlacement::decide(Vec3 { x: 0, y: 0, z: 0 }, Vec3 { x: 0, y: 0, z: 500 });
    assert_eq!(p, Placement::InFront);
    // a tiny offset still counts as unpositioned
    let p2 = InitialPanelPlacement::decide(
        Vec3 { x: 10, y: 10, z: 10 },
        Vec3 { x: 0, y: 0, z: 500 },
    );
    assert_eq!(p2, Placement::InFront);
}

#[test]
fn positioned_panel_faces_the_viewer() {
    let p = InitialPanelPlacement::decide(
        Vec3 { x: 0, y: 0, z: 2000 },
        Vec3 { x: 100, y: 200, z: 0 },
    );
    assert_eq!(
        p,
        Placement::Face {
            direction: Vec3 {
                x: -100,
                y: -200,
                z: 2000,
            },
        }
    );
}
