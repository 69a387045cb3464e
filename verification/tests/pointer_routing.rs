use deskbridge::pointer::{MotionAction, PointerRouter};
use deskbridge::server::Edge;

#[test]
fn right_edge_round_trip_has_explicit_enter_move_and_return() {
    let mut router = PointerRouter::new(Edge::Right, (1000, 800), (1200, 900));
    assert_eq!(
        router.observe_local_motion(999, 400),
        MotionAction::EnterRemote { x: 0, y: 450 }
    );
    assert_eq!(
        router.observe_remote_motion(200, 10, true),
        MotionAction::MoveRemote { dx: 200, dy: 10 }
    );
    assert_eq!(
        router.observe_remote_motion(-200, 0, true),
        MotionAction::MoveRemote { dx: -200, dy: 0 }
    );
    assert!(matches!(
        router.observe_remote_motion(-10, 0, true),
        MotionAction::ReturnLocal { x: 991, y: 408 }
    ));
    assert!(!router.is_remote());
}

#[test]
fn return_position_cannot_immediately_reenter() {
    let mut router = PointerRouter::new(Edge::Right, (1000, 800), (1200, 900));
    router.observe_local_motion(999, 400);
    let MotionAction::ReturnLocal { x, y } = router.observe_remote_motion(-10, 0, true) else {
        panic!("expected return to local");
    };
    assert_eq!(router.observe_local_motion(x, y), MotionAction::Local);
    assert_eq!(
        router.observe_local_motion(999, y),
        MotionAction::EnterRemote { x: 0, y: 450 }
    );
}

#[test]
fn left_edge_round_trip_is_symmetric() {
    let mut router = PointerRouter::new(Edge::Left, (1000, 800), (1200, 900));
    assert_eq!(
        router.observe_local_motion(0, 400),
        MotionAction::EnterRemote { x: 1199, y: 450 }
    );
    assert_eq!(
        router.observe_remote_motion(10, 0, true),
        MotionAction::ReturnLocal { x: 8, y: 400 }
    );
    assert_eq!(router.observe_local_motion(8, 400), MotionAction::Local);
    assert_eq!(
        router.observe_local_motion(0, 400),
        MotionAction::EnterRemote { x: 1199, y: 450 }
    );
}

#[test]
fn local_button_blocks_transfer_and_remote_button_blocks_return() {
    let mut router = PointerRouter::new(Edge::Right, (1000, 800), (1200, 900));
    router.observe_local_button(true);
    assert_eq!(router.observe_local_motion(999, 400), MotionAction::Local);
    router.observe_local_button(false);
    router.observe_local_motion(999, 400);
    assert_eq!(
        router.observe_remote_motion(-64, 0, false),
        MotionAction::MoveRemote { dx: -64, dy: 0 }
    );
    assert!(router.is_remote());
    assert!(matches!(
        router.observe_remote_motion(-10, 0, true),
        MotionAction::ReturnLocal { .. }
    ));
}

#[test]
fn force_local_is_idempotent() {
    let mut router = PointerRouter::new(Edge::Right, (1000, 800), (1200, 900));
    assert_eq!(router.force_local(), None);
    router.observe_local_motion(999, 400);
    assert_eq!(router.force_local(), Some((991, 400)));
    assert_eq!(router.force_local(), None);
}

#[test]
fn return_needs_enough_push_toward_home() {
    let mut router = PointerRouter::new(Edge::Right, (1000, 800), (1200, 900));
    router.observe_local_motion(999, 400);
    assert_eq!(
        router.observe_remote_motion(-5, 0, true),
        MotionAction::MoveRemote { dx: -5, dy: 0 }
    );
    assert!(router.is_remote());
    assert!(matches!(
        router.observe_remote_motion(-5, 0, true),
        MotionAction::ReturnLocal { .. }
    ));
}

#[test]
fn sizes_below_one_pixel_count_as_one_and_anchor_is_the_middle() {
    let mut router = PointerRouter::new(Edge::Right, (0, -5), (1200, 900));
    assert_eq!(router.local_anchor(), (0, 0));
    router.update_local_size((1000, 800));
    assert_eq!(router.local_anchor(), (500, 400));
    assert!(router.bogus_warp_delta(495, 0));
    assert!(!router.bogus_warp_delta(3, 4));
}

#[test]
fn scaled_keeps_the_target_range() {
    assert_eq!(deskbridge::pointer::scaled(400, 800, 900), 450);
    assert_eq!(deskbridge::pointer::scaled(5000, 800, 900), 899);
    assert_eq!(deskbridge::pointer::scaled(-3, 800, 900), 0);
}
