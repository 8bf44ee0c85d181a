//! Scenario tests of the surface input router: pointer focus, button edges,
//! pixel mapping and multi-touch.

use flatland::math::Vec2;
use flatland::math::Vec3;
use flatland::sample::AuxData;
use flatland::sample::HandData;
use flatland::sample::InputKind;
use flatland::sample::InputSample;
use flatland::sample::RayData;
use flatland::sample::TipData;
use flatland::surface::SurfaceEvent;
use flatland::surface::SurfaceInput;
use flatland::surface::BTN_LEFT;
use flatland::surface::BTN_RIGHT;

fn v(x: i64, y: i64, z: i64) -> Vec3 {
    Vec3 { x, y, z }
}

fn aux() -> AuxData {
    AuxData {
        select: 0,
        middle: 0,
        context: 0,
        grab: 0,
        pinch_strength: 0,
        scroll_continuous: Vec2 { x: 0, y: 0 },
        scroll_discrete: Vec2 { x: 0, y: 0 },
    }
}

fn ray(id: u64, distance: i64, origin: Vec3, direction: Vec3) -> InputSample {
    InputSample {
        id,
        kind: InputKind::Ray(RayData {
            origin,
            direction,
            deepest_point: v(0, 0, 0),
        }),
        distance,
        aux: aux(),
        captured: false,
    }
}

fn hand_at(id: u64, pinch: Vec3) -> InputSample {
    InputSample {
        id,
        kind: InputKind::Hand(HandData {
            thumb_tip: pinch,
            index_tip: v(pinch.x + 100, pinch.y, pinch.z),
            middle_tip: v(pinch.x + 100, pinch.y, pinch.z),
            ring_tip: v(pinch.x + 100, pinch.y, pinch.z),
            stable_pinch: pinch,
            predicted_pinch: pinch,
        }),
        distance: 100,
        aux: aux(),
        captured: false,
    }
}

fn touching_tip(id: u64, origin: Vec3) -> InputSample {
    InputSample {
        id,
        kind: InputKind::Tip(TipData { origin }),
        distance: 0,
        aux: aux(),
        captured: false,
    }
}

// a surface of 0.2 by 0.1 units at 200 by 100 pixels
fn router() -> SurfaceInput {
    SurfaceInput::new(Vec2 { x: 200, y: 100 }, Vec2 { x: 200, y: 100 })
}

#[test]
fn penetrating_ray_moves_the_pointer() {
    let mut router = router();
    // a ray straight down the view axis, just penetrating the surface:
    // its plane point is the exact center of the surface
    let batch = vec![ray(1, -1, v(0, 0, 500), v(0, 0, -1000))];
    let events = router.handle_events(&batch);
    assert_eq!(
        events,
        vec![
            SurfaceEvent::PointerMotion {
                x: 100_000,
                y: 50_000,
            },
            SurfaceEvent::Scroll {
                continuous: Vec2 { x: 0, y: 0 },
                discrete: Vec2 { x: 0, y: 0 },
            },
        ]
    );
}

#[test]
fn off_center_ray_maps_linearly() {
    let mut router = router();
    // hitting a quarter of the way left of center, a fifth above
    let batch = vec![ray(1, -1, v(-50, 10, 500), v(0, 0, -1000))];
    let events = router.handle_events(&batch);
    // x: (-50 + 100) / 200 of 200 px = 50 px; y flips: (10 - 50) / -100 of
    // 100 px = 40 px
    assert_eq!(
        events[0],
        SurfaceEvent::PointerMotion {
            x: 50_000,
            y: 40_000,
        }
    );
}

#[test]
fn ray_select_presses_and_releases_left() {
    let mut router = router();
    let idle = ray(1, -1, v(0, 0, 500), v(0, 0, -1000));
    let mut pressing = idle;
    pressing.aux.select = 600;

    // frame 1: hover only
    let e1 = router.handle_events(&vec![idle]);
    assert!(!e1.iter().any(|e| matches!(e, SurfaceEvent::Button { .. })));

    // frame 2: select crosses the threshold: exactly one press
    let e2 = router.handle_events(&vec![pressing]);
    assert_eq!(
        e2[0],
        SurfaceEvent::Button {
            button: BTN_LEFT,
            pressed: true,
        }
    );

    // frame 3: held: no repeat
    let e3 = router.handle_events(&vec![pressing]);
    assert!(!e3.iter().any(|e| matches!(e, SurfaceEvent::Button { .. })));

    // frame 4: released: exactly one release
    let e4 = router.handle_events(&vec![idle]);
    assert_eq!(
        e4[0],
        SurfaceEvent::Button {
            button: BTN_LEFT,
            pressed: false,
        }
    );
}

#[test]
fn ray_context_presses_right() {
    let mut router = router();
    let idle = ray(1, -1, v(0, 0, 500), v(0, 0, -1000));
    let mut pressing = idle;
    pressing.aux.context = 600;
    router.handle_events(&vec![idle]);
    let events = router.handle_events(&vec![pressing]);
    assert_eq!(
        events[0],
        SurfaceEvent::Button {
            button: BTN_RIGHT,
            pressed: true,
        }
    );
}

#[test]
fn hand_pinch_presses_left() {
    let mut router = router();
    // the hand hovers in the depth window in front of the surface
    let open_hand = hand_at(1, v(0, 0, 100));
    let mut pinched = open_hand;
    if let InputKind::Hand(ref mut h) = pinched.kind {
        // index tip touches the thumb tip: well below the press distance
        h.index_tip = v(10, 0, 100);
    }
    router.handle_events(&vec![open_hand]);
    let events = router.handle_events(&vec![pinched]);
    assert_eq!(
        events[0],
        SurfaceEvent::Button {
            button: BTN_LEFT,
            pressed: true,
        }
    );
}

#[test]
fn hand_outside_depth_window_does_not_hover() {
    let mut router = router();
    // closer than the near edge of the window: no hover, no pointer events
    let events = router.handle_events(&vec![hand_at(1, v(0, 0, 30))]);
    assert!(events.is_empty());
    // beyond the far edge: still nothing
    let events2 = router.handle_events(&vec![hand_at(1, v(0, 0, 250))]);
    assert!(events2.is_empty());
}

#[test]
fn closest_sample_wins_pointer_focus() {
    let mut router = router();
    let far = ray(1, -1, v(0, 0, 500), v(0, 0, -1000));
    let mut near = ray(2, -5, v(-50, 10, 500), v(0, 0, -1000));
    near.distance = -5;
    let events = router.handle_events(&vec![far, near]);
    // the nearer ray's plane point drives the motion
    assert_eq!(
        events[0],
        SurfaceEvent::PointerMotion {
            x: 50_000,
            y: 40_000,
        }
    );
}

#[test]
fn touch_lifecycle_emits_down_move_up() {
    let mut router = router();
    let down = vec![touching_tip(9, v(0, 0, 10))];
    let moved = vec![touching_tip(9, v(20, 0, 10))];
    let gone: Vec<InputSample> = vec![];

    let e1 = router.handle_events(&down);
    assert_eq!(
        e1,
        vec![SurfaceEvent::TouchDown {
            id: 9,
            x: 100_000,
            y: 50_000,
        }]
    );
    let e2 = router.handle_events(&moved);
    assert_eq!(
        e2,
        vec![SurfaceEvent::TouchMove {
            id: 9,
            x: 120_000,
            y: 50_000,
        }]
    );
    let e3 = router.handle_events(&gone);
    assert_eq!(e3, vec![SurfaceEvent::TouchUp { id: 9 }]);
    let e4 = router.handle_events(&gone);
    assert!(e4.is_empty());
}

#[test]
fn rays_never_touch() {
    let mut router = router();
    // a penetrating ray drives the pointer but produces no touch events
    let batch = vec![ray(1, -1, v(0, 0, 500), v(0, 0, -1000))];
    let events = router.handle_events(&batch);
    assert!(!events
        .iter()
        .any(|e| matches!(e, SurfaceEvent::TouchDown { .. })));
}

#[test]
fn resize_updates_the_mapping() {
    let mut router = router();
    router.resize(Vec2 { x: 400, y: 200 }, Vec2 { x: 800, y: 400 });
    let batch = vec![ray(1, -1, v(0, 0, 500), v(0, 0, -1000))];
    let events = router.handle_events(&batch);
    assert_eq!(
        events[0],
        SurfaceEvent::PointerMotion {
            x: 400_000,
            y: 200_000,
        }
    );
}

#[test]
fn parallel_ray_scrolls_without_motion() {
    let mut r = router();
    // a ray sliding level with the surface: it penetrates the field but
    // meets the plane nowhere, so only its scroll is reported
    let mut s = ray(1, -1, v(0, 0, 10), v(1000, 0, 0));
    s.aux.scroll_discrete = Vec2 { x: 0, y: 3 };
    let events = r.handle_events(&vec![s]);
    assert_eq!(
        events,
        vec![SurfaceEvent::Scroll {
            continuous: Vec2 { x: 0, y: 0 },
            discrete: Vec2 { x: 0, y: 3 },
        }]
    );
}

#[test]
fn captured_sample_keeps_pointer_focus() {
    let mut r = router();
    // a captured sample competes for focus even while nothing hovers
    let mut s = ray(4, 500, v(-50, 10, 500), v(0, 0, -1000));
    s.captured = true;
    let events = r.handle_events(&vec![s]);
    assert_eq!(
        events[0],
        SurfaceEvent::PointerMotion {
            x: 50_000,
            y: 40_000,
        }
    );
}

#[test]
fn predicted_pinch_selectable() {
    let mut r = router();
    // the hand's smoothed and predicted pinch points disagree
    let mut s = hand_at(5, v(0, 0, 100));
    if let InputKind::Hand(ref mut h) = s.kind {
        h.predicted_pinch = v(40, 0, 100);
    }

    // by default the stabilized point drives the pointer
    let stable_events = r.handle_events(&vec![s]);
    assert_eq!(
        stable_events[0],
        SurfaceEvent::PointerMotion {
            x: 100_000,
            y: 50_000,
        }
    );

    // switched to the predicted point, the same hand lands elsewhere
    let mut predicted = router();
    predicted.stable_pinch = false;
    let predicted_events = predicted.handle_events(&vec![s]);
    assert_eq!(
        predicted_events[0],
        SurfaceEvent::PointerMotion {
            x: 140_000,
            y: 50_000,
        }
    );
}
