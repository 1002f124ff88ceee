use veil_server::movement::{
    decide_move, grace_probe_needed, ground_after_step, needs_support_probe, settle_movement_step,
    GroundState, MotionFlags, MoveIntentKind, MoveRequest, MoveRequestError, StepOutcome,
};
use veil_server::schedule::{interval_micros, NON_PLAYER_TICK_HZ, PLAYER_TICK_HZ};

fn motion(intent_active: bool, grounded: bool, should_move: bool, cell_id: u32) -> MotionFlags {
    MotionFlags { intent_active, grounded, should_move, cell_id }
}

#[test]
fn step_without_change_is_clean() {
    let before = motion(true, true, true, 4);
    let out = settle_movement_step(before, false, 4, true);
    assert_eq!(out, StepOutcome { clear_intent: false, flags: before, dirty: false });
}

#[test]
fn arriving_clears_intent_and_stops() {
    let out = settle_movement_step(motion(true, true, true, 4), true, 4, true);
    assert!(out.clear_intent);
    assert_eq!(out.flags, motion(false, true, false, 4));
    assert!(out.dirty);
}

#[test]
fn airborne_actor_keeps_moving() {
    let out = settle_movement_step(motion(false, true, false, 4), false, 5, false);
    assert_eq!(out.flags, motion(false, false, true, 5));
    assert!(out.dirty);
}

#[test]
fn landing_idle_actor_stops_moving() {
    let out = settle_movement_step(motion(false, false, true, 4), false, 4, true);
    assert_eq!(out.flags, motion(false, true, false, 4));
    assert!(out.dirty);
}

#[test]
fn cell_change_alone_is_dirty() {
    let out = settle_movement_step(motion(true, true, true, 4), false, 9, true);
    assert_eq!(out.flags.cell_id, 9);
    assert!(out.dirty);
}

#[test]
fn probe_only_when_airborne() {
    assert!(needs_support_probe(false));
    assert!(!needs_support_probe(true));
}

#[test]
fn ground_contact_refills_grace() {
    let st = ground_after_step(GroundState { grounded: false, grace_steps: 0 }, true, false);
    assert_eq!(st, GroundState { grounded: true, grace_steps: 8 });
}

#[test]
fn supported_actor_spends_grace() {
    let prev = GroundState { grounded: true, grace_steps: 8 };
    assert!(grace_probe_needed(prev, false));
    let st = ground_after_step(prev, false, true);
    assert_eq!(st, GroundState { grounded: true, grace_steps: 7 });
}

#[test]
fn unsupported_actor_falls() {
    let st = ground_after_step(GroundState { grounded: true, grace_steps: 3 }, false, false);
    assert_eq!(st, GroundState { grounded: false, grace_steps: 0 });
    let prev = GroundState { grounded: true, grace_steps: 0 };
    assert!(!grace_probe_needed(prev, false));
    let st = ground_after_step(prev, false, true);
    assert_eq!(st, GroundState { grounded: false, grace_steps: 0 });
}

fn request(old_kind: MoveIntentKind, new_kind: MoveIntentKind) -> MoveRequest {
    MoveRequest {
        grounded: true,
        transform_found: true,
        old_kind,
        new_kind,
        path_len: 0,
        max_path_len: 16,
        too_close_to_last: false,
        path_point_too_far: false,
        too_close_to_current: false,
        intent_changed: true,
        should_move: false,
    }
}

#[test]
fn move_request_accepts_point() {
    let req = request(MoveIntentKind::Idle, MoveIntentKind::Point);
    assert_eq!(decide_move(&req), Ok((true, true)));
}

#[test]
fn move_request_to_idle_stops() {
    let mut req = request(MoveIntentKind::Point, MoveIntentKind::Idle);
    req.should_move = true;
    assert_eq!(decide_move(&req), Ok((false, true)));
    req.intent_changed = false;
    req.should_move = false;
    assert_eq!(decide_move(&req), Ok((false, false)));
}

#[test]
fn move_request_errors_in_order() {
    let mut req = request(MoveIntentKind::Idle, MoveIntentKind::Idle);
    req.grounded = false;
    req.transform_found = false;
    assert_eq!(decide_move(&req), Err(MoveRequestError::ActorNotGrounded));
    req.grounded = true;
    assert_eq!(decide_move(&req), Err(MoveRequestError::TransformNotFound));
    req.transform_found = true;
    assert_eq!(decide_move(&req), Err(MoveRequestError::AlreadyIdling));

    let mut req = request(MoveIntentKind::Point, MoveIntentKind::Point);
    req.too_close_to_last = true;
    req.too_close_to_current = true;
    assert_eq!(decide_move(&req), Err(MoveRequestError::TooCloseToLastPoint));
    req.too_close_to_last = false;
    assert_eq!(decide_move(&req), Err(MoveRequestError::TooCloseToCurrent));

    let mut req = request(MoveIntentKind::Actor, MoveIntentKind::Path);
    req.path_len = 17;
    req.path_point_too_far = true;
    assert_eq!(decide_move(&req), Err(MoveRequestError::PathTooComplex));
    req.path_len = 16;
    assert_eq!(decide_move(&req), Err(MoveRequestError::PathPointTooFar));
    req.path_point_too_far = false;
    assert_eq!(decide_move(&req), Ok((true, true)));
}

#[test]
fn move_request_error_messages() {
    assert_eq!(MoveRequestError::ActorNotGrounded.message(), "Actor is not grounded");
    assert_eq!(MoveRequestError::TransformNotFound.message(), "Transform data not found");
    assert_eq!(MoveRequestError::AlreadyIdling.message(), "Already idling");
    assert_eq!(MoveRequestError::TooCloseToLastPoint.message(), "Distance from last point too close");
    assert_eq!(MoveRequestError::PathTooComplex.message(), "Path is too complex");
    assert_eq!(MoveRequestError::PathPointTooFar.message(), "Distance from current position too far");
    assert_eq!(MoveRequestError::TooCloseToCurrent.message(), "Distance from current position too close");
}

#[test]
fn tick_intervals() {
    assert_eq!(interval_micros(PLAYER_TICK_HZ), 33_333);
    assert_eq!(interval_micros(NON_PLAYER_TICK_HZ), 100_000);
    assert_eq!(interval_micros(2), 500_000);
}
