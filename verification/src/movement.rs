//! Decisions of the movement ticks and of the move request: which intent
//! survives a step, when an actor keeps being processed, when its row must
//! be written, how the grounded state settles, and which move requests are
//! accepted.
//!
//! The geometry (distances, collision, ground probes) is measured by the
//! caller; these functions take its answers as plain values.
use vstd::prelude::*;

verus! {

/// The shape of a movement intent, without its coordinates.
#[derive(Debug, PartialEq, Eq, Structural, Clone, Copy)]
pub enum MoveIntentKind {
    /// Follow a sequence of waypoints.
    Path,
    /// Follow a dynamic actor by id.
    Actor,
    /// Move toward a point.
    Point,
    /// No movement intent (idling).
    Idle,
}

/// The movement-related state of an actor row.
#[derive(Debug, PartialEq, Eq, Structural, Clone, Copy)]
pub struct MotionFlags {
    /// The actor holds a movement intent other than `None`.
    pub intent_active: bool,
    /// The actor stood on ground after its last step.
    pub grounded: bool,
    /// The actor is picked up by the movement ticks.
    pub should_move: bool,
    /// The spatial cell the actor is in.
    pub cell_id: u32,
}

/// An actor is processed by the movement ticks while it has an intent or is
/// airborne (gravity needs processing).
pub open spec fn spec_should_move(intent_active: bool, grounded: bool) -> bool {
    intent_active || !grounded
}

/// The outcome of one movement step of an actor.
#[derive(Debug, PartialEq, Eq, Structural, Clone, Copy)]
pub struct StepOutcome {
    /// The intent is dropped (set to `None`).
    pub clear_intent: bool,
    /// The actor's state after the step.
    pub flags: MotionFlags,
    /// The actor row must be written back.
    pub dirty: bool,
}

/// The state after a step, given whether the actor arrived at its target,
/// the cell it ended up in and whether the character controller found
/// ground.
pub open spec fn spec_settle_step(
    before: MotionFlags,
    arrived: bool,
    new_cell_id: u32,
    corrected_grounded: bool,
) -> StepOutcome {
    let intent_active = before.intent_active && !arrived;
    let should_move = spec_should_move(intent_active, corrected_grounded);
    StepOutcome {
        clear_intent: arrived,
        flags: MotionFlags {
            intent_active,
            grounded: corrected_grounded,
            should_move,
            cell_id: new_cell_id,
        },
        dirty: arrived || new_cell_id != before.cell_id || corrected_grounded != before.grounded
            || should_move != before.should_move,
    }
}

/// Settles one movement step of an actor.
///
/// `arrived` says that the actor's movement stats were found and its
/// remaining planar distance lies within the acceptance radius (the intent
/// is then dropped); `new_cell_id` is the cell of the corrected position and
/// `corrected_grounded` whether the character controller ended on ground.
/// The row is dirty when the intent was dropped or the cell, the grounded
/// state or the should-move flag changed.
pub fn settle_movement_step(
    before: MotionFlags,
    arrived: bool,
    new_cell_id: u32,
    corrected_grounded: bool,
) -> (r: StepOutcome)
    ensures
        r == spec_settle_step(before, arrived, new_cell_id, corrected_grounded),
        r.clear_intent == arrived,
        r.flags.intent_active == (before.intent_active && !arrived),
        r.flags.grounded == corrected_grounded,
        r.flags.cell_id == new_cell_id,
        r.flags.should_move == (r.flags.intent_active || !corrected_grounded),
        r.dirty == (arrived || r.flags != before),
{
    let mut flags = before;
    let mut dirty = false;
    if arrived {
        flags.intent_active = false;
        dirty = true;
    }
    // Update cell id on actor when crossing cells.
    if new_cell_id != flags.cell_id {
        flags.cell_id = new_cell_id;
        dirty = true;
    }
    // Only update grounded state when it has changed.
    if flags.grounded != corrected_grounded {
        flags.grounded = corrected_grounded;
        dirty = true;
    }
    // Actor should move when it has a movement intent or is not grounded.
    let new_should_move = flags.intent_active || !flags.grounded;
    if flags.should_move != new_should_move {
        flags.should_move = new_should_move;
        dirty = true;
    }
    StepOutcome { clear_intent: arrived, flags, dirty }
}

/// Whether a step must probe for ground below the actor: only an actor that
/// was not grounded after its last step is probed; a grounded one counts as
/// supported.
pub fn needs_support_probe(grounded: bool) -> (r: bool)
    ensures
        r == !grounded,
{
    !grounded
}

/// After a step, an actor is processed again exactly when it still has an
/// intent or is airborne, and its row is written whenever anything that is
/// stored changed.
pub proof fn law_step_keeps_should_move_rule(
    before: MotionFlags,
    arrived: bool,
    new_cell_id: u32,
    corrected_grounded: bool,
)
    ensures
        ({
            let out = spec_settle_step(before, arrived, new_cell_id, corrected_grounded);
            &&& out.flags.should_move == spec_should_move(out.flags.intent_active, out.flags.grounded)
            &&& (out.flags != before || out.clear_intent) ==> out.dirty
            &&& arrived ==> !out.flags.intent_active
        }),
{
}

/// A movement step stores exactly what the step found: the intent is dropped
/// exactly on arrival, the grounded state is the controller's, the cell is
/// the new cell, the actor keeps moving exactly while it has an intent or is
/// airborne, and the row is written exactly when the intent was dropped or a
/// stored field changed.
pub proof fn law_step_stores_what_it_found(
    before: MotionFlags,
    arrived: bool,
    new_cell_id: u32,
    corrected_grounded: bool,
)
    ensures
        ({
            let out = spec_settle_step(before, arrived, new_cell_id, corrected_grounded);
            &&& out.clear_intent == arrived
            &&& out.flags.intent_active == (before.intent_active && !arrived)
            &&& out.flags.grounded == corrected_grounded
            &&& out.flags.cell_id == new_cell_id
            &&& out.flags.should_move == (out.flags.intent_active || !corrected_grounded)
            &&& out.dirty == (arrived || out.flags != before)
        }),
{
}

/// Number of steps an actor keeps counting as grounded without ground
/// contact, as long as a probe still finds support below it.
pub const GROUNDED_GRACE_STEPS: u8 = 8;

/// Grounded state carried between fixed steps, with its grace counter.
#[derive(Debug, PartialEq, Eq, Structural, Clone, Copy)]
pub struct GroundState {
    pub grounded: bool,
    pub grace_steps: u8,
}

/// The grounded state after a fixed step.
pub open spec fn spec_ground_after_step(
    prev: GroundState,
    corrected_grounded: bool,
    supported: bool,
) -> GroundState {
    if corrected_grounded {
        GroundState { grounded: true, grace_steps: GROUNDED_GRACE_STEPS }
    } else if prev.grace_steps > 0 {
        if supported {
            GroundState { grounded: prev.grounded, grace_steps: (prev.grace_steps - 1) as u8 }
        } else {
            GroundState { grounded: false, grace_steps: 0 }
        }
    } else {
        GroundState { grounded: false, grace_steps: 0 }
    }
}

/// Whether the fixed step must probe for support below the actor: only when
/// the controller found no ground and grace steps remain.
pub fn grace_probe_needed(prev: GroundState, corrected_grounded: bool) -> (r: bool)
    ensures
        r == (!corrected_grounded && prev.grace_steps > 0),
{
    !corrected_grounded && prev.grace_steps > 0
}

/// Settles the grounded state after a fixed step: ground contact refills the
/// grace counter; without contact, a supported actor spends one grace step
/// and an unsupported one (or one without grace left) becomes airborne.
/// `supported` is only read when `grace_probe_needed` holds.
pub fn ground_after_step(prev: GroundState, corrected_grounded: bool, supported: bool) -> (r:
    GroundState)
    ensures
        r == spec_ground_after_step(prev, corrected_grounded, supported),
        corrected_grounded ==> r == (GroundState { grounded: true, grace_steps: GROUNDED_GRACE_STEPS }),
        !corrected_grounded && prev.grace_steps > 0 && supported ==> r == (GroundState {
            grounded: prev.grounded,
            grace_steps: (prev.grace_steps - 1) as u8,
        }),
        !corrected_grounded && (prev.grace_steps == 0 || !supported) ==> r == (GroundState {
            grounded: false,
            grace_steps: 0,
        }),
{
    let mut st = prev;
    if corrected_grounded {
        st.grounded = true;
        st.grace_steps = GROUNDED_GRACE_STEPS;
    } else if st.grace_steps > 0 {
        if supported {
            st.grace_steps = st.grace_steps - 1;
        } else {
            st.grace_steps = 0;
            st.grounded = false;
        }
    } else {
        st.grounded = false;
    }
    st
}

/// The grace counter never exceeds its refill value, an actor without
/// ground contact and without grace left is airborne, and the support probe
/// only matters when it is asked for.
pub proof fn law_grace_bounded(prev: GroundState, corrected_grounded: bool, supported: bool)
    requires
        prev.grace_steps <= GROUNDED_GRACE_STEPS,
    ensures
        spec_ground_after_step(prev, corrected_grounded, supported).grace_steps
            <= GROUNDED_GRACE_STEPS,
        corrected_grounded ==> spec_ground_after_step(prev, corrected_grounded, supported).grounded,
        !corrected_grounded && prev.grace_steps == 0 ==> !spec_ground_after_step(
            prev,
            corrected_grounded,
            supported,
        ).grounded,
        !(!corrected_grounded && prev.grace_steps > 0) ==> spec_ground_after_step(
            prev,
            corrected_grounded,
            supported,
        ) == spec_ground_after_step(prev, corrected_grounded, !supported),
{
}

/// Ground contact always refills the grace counter; without contact a
/// supported actor with grace left spends exactly one grace step and keeps
/// its grounded state; otherwise the actor is airborne with no grace left.
pub proof fn law_ground_contact_refills_grace(
    prev: GroundState,
    corrected_grounded: bool,
    supported: bool,
)
    ensures
        corrected_grounded ==> spec_ground_after_step(prev, corrected_grounded, supported) == (
        GroundState { grounded: true, grace_steps: GROUNDED_GRACE_STEPS }),
        !corrected_grounded && prev.grace_steps > 0 && supported ==> spec_ground_after_step(
            prev,
            corrected_grounded,
            supported,
        ).grounded == prev.grounded && spec_ground_after_step(
            prev,
            corrected_grounded,
            supported,
        ).grace_steps + 1 == prev.grace_steps,
        !corrected_grounded && (prev.grace_steps == 0 || !supported) ==> spec_ground_after_step(
            prev,
            corrected_grounded,
            supported,
        ) == (GroundState { grounded: false, grace_steps: 0 }),
{
}

/// Why a move request was refused.
#[derive(Debug, PartialEq, Eq, Structural, Clone, Copy)]
pub enum MoveRequestError {
    ActorNotGrounded,
    TransformNotFound,
    AlreadyIdling,
    TooCloseToLastPoint,
    PathTooComplex,
    PathPointTooFar,
    TooCloseToCurrent,
}

impl MoveRequestError {
    /// The message reported to the caller.
    pub fn message(&self) -> (r: &'static str)
        ensures
            *self == MoveRequestError::ActorNotGrounded ==> r@ == "Actor is not grounded"@,
            *self == MoveRequestError::TransformNotFound ==> r@ == "Transform data not found"@,
            *self == MoveRequestError::AlreadyIdling ==> r@ == "Already idling"@,
            *self == MoveRequestError::TooCloseToLastPoint ==> r@
                == "Distance from last point too close"@,
            *self == MoveRequestError::PathTooComplex ==> r@ == "Path is too complex"@,
            *self == MoveRequestError::PathPointTooFar ==> r@
                == "Distance from current position too far"@,
            *self == MoveRequestError::TooCloseToCurrent ==> r@
                == "Distance from current position too close"@,
    {
        match self {
            MoveRequestError::ActorNotGrounded => "Actor is not grounded",
            MoveRequestError::TransformNotFound => "Transform data not found",
            MoveRequestError::AlreadyIdling => "Already idling",
            MoveRequestError::TooCloseToLastPoint => "Distance from last point too close",
            MoveRequestError::PathTooComplex => "Path is too complex",
            MoveRequestError::PathPointTooFar => "Distance from current position too far",
            MoveRequestError::TooCloseToCurrent => "Distance from current position too close",
        }
    }
}

/// What is known about a move request once the requesting actor was found.
#[derive(Debug, PartialEq, Eq, Structural, Clone, Copy)]
pub struct MoveRequest {
    /// The actor stands on ground.
    pub grounded: bool,
    /// The actor's transform row was found.
    pub transform_found: bool,
    /// The actor's current intent.
    pub old_kind: MoveIntentKind,
    /// The requested intent.
    pub new_kind: MoveIntentKind,
    /// Number of waypoints of a requested path.
    pub path_len: usize,
    /// Longest path accepted.
    pub max_path_len: usize,
    /// Old and new intents are points too close to each other.
    pub too_close_to_last: bool,
    /// Some waypoint of the requested path is too far from the actor.
    pub path_point_too_far: bool,
    /// The requested point is too close to the actor.
    pub too_close_to_current: bool,
    /// The requested intent differs from the current one.
    pub intent_changed: bool,
    /// The actor's current should-move flag.
    pub should_move: bool,
}

/// The verdict on a move request: the first failing check in order, or the
/// new should-move flag together with whether the actor row must be
/// written.
pub open spec fn spec_decide_move(req: MoveRequest) -> Result<(bool, bool), MoveRequestError> {
    if !req.grounded {
        Err(MoveRequestError::ActorNotGrounded)
    } else if !req.transform_found {
        Err(MoveRequestError::TransformNotFound)
    } else if req.old_kind == MoveIntentKind::Idle && req.new_kind == MoveIntentKind::Idle {
        Err(MoveRequestError::AlreadyIdling)
    } else if req.old_kind == MoveIntentKind::Point && req.new_kind == MoveIntentKind::Point
        && req.too_close_to_last {
        Err(MoveRequestError::TooCloseToLastPoint)
    } else if req.new_kind == MoveIntentKind::Path && req.path_len > req.max_path_len {
        Err(MoveRequestError::PathTooComplex)
    } else if req.new_kind == MoveIntentKind::Path && req.path_point_too_far {
        Err(MoveRequestError::PathPointTooFar)
    } else if req.new_kind == MoveIntentKind::Point && req.too_close_to_current {
        Err(MoveRequestError::TooCloseToCurrent)
    } else {
        let should_move = spec_should_move(req.new_kind != MoveIntentKind::Idle, req.grounded);
        Ok((should_move, req.intent_changed || req.should_move != should_move))
    }
}

/// A move request passes every check: the actor is grounded and its
/// transform known, it does not ask to idle while idling, a point does not
/// follow a point too close to it, a path is neither too long nor reaches
/// too far, and a point is not too close to the actor.
pub open spec fn move_request_passes(req: MoveRequest) -> bool {
    &&& req.grounded
    &&& req.transform_found
    &&& !(req.old_kind == MoveIntentKind::Idle && req.new_kind == MoveIntentKind::Idle)
    &&& !(req.old_kind == MoveIntentKind::Point && req.new_kind == MoveIntentKind::Point
        && req.too_close_to_last)
    &&& !(req.new_kind == MoveIntentKind::Path && req.path_len > req.max_path_len)
    &&& !(req.new_kind == MoveIntentKind::Path && req.path_point_too_far)
    &&& !(req.new_kind == MoveIntentKind::Point && req.too_close_to_current)
}

/// Decides a move request. Only grounded actors may change their intent;
/// going idle while idle, a point too close to the previous point, a path
/// that is too long or reaches too far, and a point too close to the actor
/// are refused, in that order. An accepted request yields the new
/// should-move flag (kept consistent with the movement ticks) and whether
/// the actor row changes and must be written.
pub fn decide_move(req: &MoveRequest) -> (r: Result<(bool, bool), MoveRequestError>)
    ensures
        r == spec_decide_move(*req),
        r is Ok <==> move_request_passes(*req),
        req.new_kind == MoveIntentKind::Point && req.too_close_to_current ==> r is Err,
        r matches Ok((should_move, write)) ==> should_move == (req.new_kind
            != MoveIntentKind::Idle) && write == (req.intent_changed || req.should_move
            != should_move),
{
    if !req.grounded {
        return Err(MoveRequestError::ActorNotGrounded);
    }
    if !req.transform_found {
        return Err(MoveRequestError::TransformNotFound);
    }
    match (req.old_kind, req.new_kind) {
        (MoveIntentKind::Idle, MoveIntentKind::Idle) => Err(MoveRequestError::AlreadyIdling),
        (MoveIntentKind::Point, MoveIntentKind::Point) if req.too_close_to_last => Err(
            MoveRequestError::TooCloseToLastPoint,
        ),
        (_, MoveIntentKind::Path) if req.path_len > req.max_path_len => Err(
            MoveRequestError::PathTooComplex,
        ),
        (_, MoveIntentKind::Path) if req.path_point_too_far => Err(
            MoveRequestError::PathPointTooFar,
        ),
        (_, MoveIntentKind::Point) if req.too_close_to_current => Err(
            MoveRequestError::TooCloseToCurrent,
        ),
        _ => {
            let new_active = match req.new_kind {
                MoveIntentKind::Idle => false,
                _ => true,
            };
            let should_move = new_active || !req.grounded;
            Ok((should_move, req.intent_changed || req.should_move != should_move))
        },
    }
}

/// A move request is accepted exactly when it passes every check, whatever
/// the old intent; a point too close to the actor is always refused, with
/// `TooCloseToCurrent` once the earlier checks pass; each refusal names a
/// check that failed, and an ungrounded actor is always refused first.
pub proof fn law_move_request_refusals(req: MoveRequest)
    ensures
        spec_decide_move(req) is Ok <==> move_request_passes(req),
        req.new_kind == MoveIntentKind::Point && req.too_close_to_current ==> spec_decide_move(
            req,
        ) is Err,
        req.grounded && req.transform_found && req.new_kind == MoveIntentKind::Point
            && req.too_close_to_current && !(req.old_kind == MoveIntentKind::Point
            && req.too_close_to_last) ==> spec_decide_move(req) == Err::<(bool, bool), _>(
            MoveRequestError::TooCloseToCurrent,
        ),
        !req.grounded ==> spec_decide_move(req) == Err::<(bool, bool), _>(
            MoveRequestError::ActorNotGrounded,
        ),
        spec_decide_move(req) == Err::<(bool, bool), _>(MoveRequestError::TooCloseToCurrent) ==> (
        req.new_kind == MoveIntentKind::Point && req.too_close_to_current),
        spec_decide_move(req) == Err::<(bool, bool), _>(MoveRequestError::AlreadyIdling) ==> (
        req.old_kind == MoveIntentKind::Idle && req.new_kind == MoveIntentKind::Idle),
        spec_decide_move(req) == Err::<(bool, bool), _>(MoveRequestError::TooCloseToLastPoint) ==> (
        req.old_kind == MoveIntentKind::Point && req.new_kind == MoveIntentKind::Point
            && req.too_close_to_last),
        spec_decide_move(req) == Err::<(bool, bool), _>(MoveRequestError::PathTooComplex) ==> (
        req.new_kind == MoveIntentKind::Path && req.path_len > req.max_path_len),
        spec_decide_move(req) == Err::<(bool, bool), _>(MoveRequestError::PathPointTooFar) ==> (
        req.new_kind == MoveIntentKind::Path && req.path_point_too_far),
        spec_decide_move(req) == Err::<(bool, bool), _>(MoveRequestError::TransformNotFound) ==> (
        req.grounded && !req.transform_found),
        spec_decide_move(req) matches Ok((should_move, write)) ==> should_move == (req.new_kind
            != MoveIntentKind::Idle) && write == (req.intent_changed || req.should_move
            != should_move),
{
}

/// An accepted move request leaves the actor with the same should-move rule
/// that the movement ticks keep, and writes the row whenever the intent
/// changes.
pub proof fn law_accepted_move_keeps_should_move_rule(req: MoveRequest)
    ensures
        spec_decide_move(req) matches Ok((should_move, write)) ==> {
            &&& should_move == spec_should_move(req.new_kind != MoveIntentKind::Idle, req.grounded)
            &&& req.intent_changed ==> write
            &&& req.grounded
        },
{
}

} // verus!
