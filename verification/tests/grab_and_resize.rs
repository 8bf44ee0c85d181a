//! Scenario tests of the grab ball, the resize handles and the geometry
//! solver.

use flatland::grab_ball::GrabBall;
use flatland::grab_ball::GrabBallSettings;
use flatland::math::Vec2;
use flatland::math::Vec3;
use flatland::resize_handles::solve_content_transform;
use flatland::resize_handles::ResizeHandle;
use flatland::resize_handles::ResizeHandles;
use flatland::resize_handles::MAX_RAY_REACH;
use flatland::sample::AuxData;
use flatland::sample::HandData;
use flatland::sample::InputKind;
use flatland::sample::InputSample;
use flatland::sample::RayData;
use flatland::sample::TipData;

fn v(x: i64, y: i64, z: i64) -> Vec3 {
    Vec3 { x, y, z }
}

fn aux() -> AuxData {
    AuxData {
        select: 0,
        middle: 0,
        context: 0,
        grab: 0,
        pinch_strength: 0,
        scroll_continuous: Vec2 { x: 0, y: 0 },
        scroll_discrete: Vec2 { x: 0, y: 0 },
    }
}

fn pinching_hand(id: u64, distance: i64, thumb: Vec3, index: Vec3) -> InputSample {
    let mut a = aux();
    a.pinch_strength = 950;
    InputSample {
        id,
        kind: InputKind::Hand(HandData {
            thumb_tip: thumb,
            index_tip: index,
            middle_tip: index,
            ring_tip: index,
            stable_pinch: index,
            predicted_pinch: index,
        }),
        distance,
        aux: a,
        captured: false,
    }
}

fn grabbing_ray(id: u64, origin: Vec3, direction: Vec3, deepest: Vec3) -> InputSample {
    let mut a = aux();
    a.grab = 950;
    InputSample {
        id,
        kind: InputKind::Ray(RayData {
            origin,
            direction,
            deepest_point: deepest,
        }),
        distance: 0,
        aux: a,
        captured: false,
    }
}

fn idle_tip(id: u64, distance: i64, origin: Vec3) -> InputSample {
    InputSample {
        id,
        kind: InputKind::Tip(TipData { origin }),
        distance,
        aux: aux(),
        captured: false,
    }
}

#[test]
fn grab_ball_follows_hand_midpoint() {
    let settings = GrabBallSettings {
        radius: 20,
        padding: 50,
    };
    let mut ball = GrabBall::create(v(0, -20, 0), settings);
    assert_eq!(*ball.pos(), v(0, -20, 0));

    // a pinching hand within reach: the ball jumps to the pinch midpoint
    let batch = vec![pinching_hand(1, 10, v(100, 200, 300), v(200, 300, 400))];
    ball.update(&batch);
    assert!(ball.grab_action().actor_acting());
    assert_eq!(*ball.pos(), v(150, 250, 350));

    // the grab ends: the ball snaps back to its rest offset
    let released = vec![idle_tip(1, 10, v(100, 200, 300))];
    ball.update(&released);
    assert!(ball.grab_action().actor_stopped());
    assert_eq!(*ball.pos(), v(0, -20, 0));
}

#[test]
fn grab_ball_ignores_rays() {
    let settings = GrabBallSettings {
        radius: 20,
        padding: 50,
    };
    let mut ball = GrabBall::create(v(0, 0, 0), settings);
    let batch = vec![grabbing_ray(5, v(0, 0, 500), v(0, 0, -1000), v(0, 0, 0))];
    ball.update(&batch);
    assert!(!ball.grab_action().actor_acting());
    assert_eq!(*ball.pos(), v(0, 0, 0));
}

#[test]
fn grab_ball_set_offset_moves_idle_ball() {
    let settings = GrabBallSettings {
        radius: 20,
        padding: 50,
    };
    let mut ball = GrabBall::create(v(0, 0, 0), settings);
    ball.set_offset(v(0, -30, 0));
    assert_eq!(*ball.pos(), v(0, -30, 0));
}

#[test]
fn resize_handle_ray_reach_scrolls() {
    let settings = GrabBallSettings {
        radius: 5,
        padding: 20,
    };
    let mut handle = ResizeHandle::create(settings);

    // a ray grab from 2000 away along -z: baseline reach is the distance to
    // the deepest point
    let batch1 = vec![grabbing_ray(1, v(0, 0, 2000), v(0, 0, -1000), v(0, 0, 0))];
    handle.handle_events(&batch1);
    assert!(handle.grab_action.actor_acting());
    assert_eq!(handle.reach, 2_000_000);
    assert_eq!(handle.pos, v(0, 0, 0));

    // scrolling forward by one detent advances the reach by fifty
    // micro-steps per unit: 100 units of detent push the point 5 further
    let mut scrolled = batch1[0];
    scrolled.aux.scroll_discrete = Vec2 { x: 0, y: 100 };
    handle.handle_events(&vec![scrolled]);
    assert_eq!(handle.reach, 2_005_000);
    assert_eq!(handle.pos, v(0, 0, 2000 - 2005));

    // scrolling back far clamps the reach at zero
    let mut pulled = batch1[0];
    pulled.aux.scroll_continuous = Vec2 { x: 0, y: -100_000_000 };
    handle.handle_events(&vec![pulled]);
    assert_eq!(handle.reach, 0);
    assert_eq!(handle.pos, v(0, 0, 2000));
    assert!(handle.reach <= MAX_RAY_REACH);
}

#[test]
fn solver_square_to_viewer_gives_corner_distance() {
    // corners on the depth axis, the viewer further along it, no margin:
    // the height is the full corner distance and the width collapses
    let t = solve_content_transform(
        v(0, 0, 1000),
        v(0, 0, -1000),
        v(0, 500, 3000),
        Vec2 { x: 0, y: 0 },
        Vec2 {
            x: 4_096_000,
            y: 4_096_000,
        },
        0,
    );
    assert_eq!(t.center, v(0, 0, 0));
    assert_eq!(t.size, Vec2 { x: 0, y: 2000 });
    // the yaw direction points from the viewer toward the center
    assert_eq!(t.yaw_dir, Vec2 { x: 0, y: -3000 });
}

#[test]
fn solver_shrunk_corners_clamp_at_min_size() {
    // corners only as far apart as twice the handle gap: the raw size is
    // zero and a configured minimum takes over
    let t = solve_content_transform(
        v(0, 0, 25),
        v(0, 0, -25),
        v(0, 0, 3000),
        Vec2 { x: 100, y: 120 },
        Vec2 {
            x: 4_096_000,
            y: 4_096_000,
        },
        25,
    );
    assert_eq!(t.size, Vec2 { x: 100, y: 120 });
}

#[test]
fn solver_tilted_corners_keep_vertical_extent() {
    // corners separated vertically: the height is the vertical distance
    let t = solve_content_transform(
        v(0, 500, 0),
        v(0, -500, 0),
        v(0, 0, 3000),
        Vec2 { x: 0, y: 0 },
        Vec2 {
            x: 4_096_000,
            y: 4_096_000,
        },
        0,
    );
    assert_eq!(t.size, Vec2 { x: 0, y: 1000 });
}

#[test]
fn solver_width_follows_crosswise_offset() {
    // corners separated along x, viewer down the z axis: the whole corner
    // offset is crosswise, so it becomes the width
    let t = solve_content_transform(
        v(400, 0, 0),
        v(-400, 0, 0),
        v(0, 0, 3000),
        Vec2 { x: 0, y: 0 },
        Vec2 {
            x: 4_096_000,
            y: 4_096_000,
        },
        0,
    );
    assert_eq!(t.size.x, 800);
    assert_eq!(t.size.y, 0);
}

#[test]
fn resize_pair_places_rest_corners() {
    // half-size plus the floating gap on each axis
    let pair = ResizeHandles::create(Vec2 { x: 300, y: 300 }, None, None);
    assert_eq!(pair.top.pos, v(175, 175, 0));
    assert_eq!(pair.bottom.pos, v(-175, -175, 0));
}

#[test]
fn solver_inverts_rest_placement() {
    // handles at rest for a size, fed back through the solver with the
    // viewer straight ahead: the published size is that size again
    let pair = ResizeHandles::create(Vec2 { x: 300, y: 300 }, None, None);
    let t = solve_content_transform(
        pair.bottom.pos,
        pair.top.pos,
        v(0, 0, 3000),
        Vec2 { x: 0, y: 0 },
        Vec2 {
            x: 4_096_000,
            y: 4_096_000,
        },
        25,
    );
    assert_eq!(t.size, Vec2 { x: 300, y: 300 });
    assert_eq!(t.center, v(0, 0, 0));
}

#[test]
fn resize_pair_free_drag_starts_and_ends() {
    let mut pair = ResizeHandles::create(Vec2 { x: 300, y: 300 }, None, None);
    let empty: Vec<InputSample> = vec![];
    let viewer = Some(v(0, 0, 3000));

    // grabbing the top corner alone enters free-drag mode
    let top_grab = vec![pinching_hand(1, 10, v(150, 150, 0), v(160, 160, 0))];
    let out = pair.handle_events(&top_grab, &empty, viewer);
    assert!(out.free_drag_started);
    assert!(!out.free_drag_ended);
    assert!(pair.free_drag);
    assert!(out.new_transform.is_some());

    // releasing it leaves free-drag mode again
    let top_release = vec![idle_tip(1, 10, v(150, 150, 0))];
    let out2 = pair.handle_events(&top_release, &empty, viewer);
    assert!(!out2.free_drag_started);
    assert!(out2.free_drag_ended);
    assert!(!pair.free_drag);
    assert!(out2.new_transform.is_none());
}

#[test]
fn resize_pair_publishes_size_only_on_change() {
    let mut pair = ResizeHandles::create(Vec2 { x: 300, y: 300 }, None, None);
    let empty: Vec<InputSample> = vec![];
    let viewer = Some(v(0, 0, 3000));

    // a steady hand grab on the top corner: the first solve publishes the
    // new size, an identical second frame does not
    let grab = vec![pinching_hand(1, 10, v(150, 150, 0), v(150, 150, 0))];
    let out1 = pair.handle_events(&grab, &empty, viewer);
    assert!(out1.new_transform.is_some());
    assert!(out1.new_size.is_some());
    let out2 = pair.handle_events(&grab, &empty, viewer);
    assert!(out2.new_transform.is_some());
    assert!(out2.new_size.is_none());
}

#[test]
fn solver_viewer_overhead_falls_back() {
    // the viewer stands exactly on the vertical axis through the center:
    // the yaw falls back to a quarter turn, swapping depth into width
    let t = solve_content_transform(
        v(0, 0, 600),
        v(0, 400, -600),
        v(0, 2000, 0),
        Vec2 { x: 0, y: 0 },
        Vec2 {
            x: 4_096_000,
            y: 4_096_000,
        },
        0,
    );
    assert_eq!(t.yaw_dir, Vec2 { x: 0, y: 0 });
    // width is the depth separation, height the level-plane remainder
    assert_eq!(t.size.x, 1200);
    assert_eq!(t.size.y, 400);
}

#[test]
fn resize_handle_hand_grab_moves_corner() {
    let settings = GrabBallSettings {
        radius: 5,
        padding: 20,
    };
    let mut handle = ResizeHandle::create(settings);
    let batch = vec![pinching_hand(2, 10, v(100, 200, 0), v(200, 300, 0))];
    let fb = handle.handle_events(&batch);
    assert!(fb.grab_started);
    assert_eq!(handle.pos, v(150, 250, 0));
    // a hand grab leaves the ray reach untouched
    assert_eq!(handle.reach, 0);
}
