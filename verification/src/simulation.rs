//! The simulation systems of a paddle-and-ball game, each one pass over the
//! store, and the order in which a tick runs them.
//!
//! Every system is described by a step function on the components of one
//! entity. A system asks the store for the entities that hold the component
//! types its step works on, and applies the step to each of them in spawn
//! order; since the step leaves every other entity as it is, the outcome is
//! the step applied to every live entity. A system that moves or resizes an
//! entity recomputes the entity's bounds in the same pass.

use crate::components::{Bounds, Position, Size, Velocity, bounds_of, boxes_intersect};
use crate::motion::{
    abs_saturating,
    advance,
    advanced,
    center_offset,
    centered,
    neg_saturating,
    saturate_i32,
    saturate_to_i32,
    saturate_to_u32,
    saturate_u32,
    saturating_abs,
    saturating_neg,
    scale,
    scaled,
};
use crate::world::{
    Bundle,
    ComponentKind,
    ComponentSet,
    Entity,
    Role,
    World,
    frontier,
    lemma_lacks_one,
    lemma_no_match_between,
    slot_matches,
    yields,
};
use vstd::prelude::*;

verus! {

/// The play area and the settings that the systems share.
#[derive(Clone, Copy, Debug, PartialEq, Eq, Structural)]
pub struct Playfield {
    /// Width of the play area, in units.
    pub width: u32,
    /// Height of the play area, in units. Sizes and speeds are relative to
    /// it: a resize scales them by the ratio of the new height to this one.
    pub height: u32,
    /// Speed of a steered paddle, in units per second.
    pub paddle_speed: u32,
    /// Speed, on each axis, at which a ball is served from the centre.
    pub ball_speed: u32,
    /// Difficulty: the speed of the opponent's paddle, as a percentage of
    /// `paddle_speed`.
    pub ai_speed_percent: u8,
    /// How far the centre of the opponent's paddle may be from the centre
    /// of the ball before the paddle starts to move.
    pub deadband: u32,
}

/// What the player asks of the paddle.
#[derive(Clone, Copy, Debug, PartialEq, Eq, Structural)]
pub enum Steer {
    Up,
    Down,
    Idle,
}

/// Who scored in a tick, if anyone.
#[derive(Clone, Copy, Debug, PartialEq, Eq, Structural)]
pub enum ScoreEvent {
    /// A ball left the play area on the right.
    PlayerScored,
    /// A ball left the play area on the left.
    AiScored,
    NoScore,
}

/// The slots with `step` applied to the components of every live entity.
pub open spec fn map_live(
    slots: Seq<Option<Bundle>>,
    step: spec_fn(Bundle) -> Bundle,
) -> Seq<Option<Bundle>> {
    Seq::new(
        slots.len(),
        |i: int|
            match slots[i] {
                Some(bundle) => Some(step(bundle)),
                None => None,
            },
    )
}

/// The bundle with its bounds, if it carries any, recomputed from its
/// position and size.
pub open spec fn synced(b: Bundle) -> Bundle {
    if b.position is Some && b.size is Some && b.bounds is Some {
        Bundle { bounds: Some(bounds_of(b.position->Some_0, b.size->Some_0)), ..b }
    } else {
        b
    }
}

/// The bounds of the bundle, if it carries position, size and bounds, are
/// those that its position and size give.
pub open spec fn bundle_in_sync(b: Bundle) -> bool {
    b.position is Some && b.size is Some && b.bounds is Some ==> b.bounds->Some_0 == bounds_of(
        b.position->Some_0,
        b.size->Some_0,
    )
}

/// Every live entity's bounds agree with its position and size.
pub open spec fn bounds_in_sync(slots: Seq<Option<Bundle>>) -> bool {
    forall|i: int| 0 <= i < slots.len() && slots[i] is Some ==> bundle_in_sync(slots[i]->Some_0)
}

/// The signed rate that a steering request gives a paddle of speed `speed`.
/// Up is toward smaller `y`.
pub open spec fn steer_rate(steer: Steer, speed: u32) -> int {
    match steer {
        Steer::Up => -(speed as int),
        Steer::Down => speed as int,
        Steer::Idle => 0,
    }
}

/// `y` kept on the track of an object `extent` high in a field `span` high:
/// not above the top edge, and then not so low that the object would reach
/// below the bottom edge.
pub open spec fn clamp_to_track(y: int, span: u32, extent: u32) -> int {
    let lowered = if y < 0 {
        0
    } else {
        y
    };
    if lowered > span - extent {
        span - extent
    } else {
        lowered
    }
}

/// A paddle after moving vertically at `rate` for `delta_micros`: its new
/// position is kept on the track, and its bounds follow.
pub open spec fn paddle_moved(b: Bundle, field: Playfield, rate: int, delta_micros: u64) -> Bundle {
    let p = b.position->Some_0;
    let y = saturate_i32(
        clamp_to_track(
            advanced(p.y, rate, delta_micros) as int,
            field.height,
            b.size->Some_0.height,
        ),
    );
    synced(Bundle { position: Some(Position { x: p.x, y }), ..b })
}

/// Entities that the player steers: the player's paddle, where it has a
/// position and a size.
pub open spec fn is_player_paddle(b: Bundle) -> bool {
    b.role == Some(Role::PlayerPaddle) && b.position is Some && b.size is Some
}

/// Entities that the opponent steers.
pub open spec fn is_ai_paddle(b: Bundle) -> bool {
    b.role == Some(Role::AiPaddle) && b.position is Some && b.size is Some
}

/// Step of the player movement system.
pub open spec fn player_step(b: Bundle, field: Playfield, steer: Steer, delta_micros: u64) -> Bundle {
    if is_player_paddle(b) {
        paddle_moved(b, field, steer_rate(steer, field.paddle_speed), delta_micros)
    } else {
        b
    }
}

/// Step of the position integration system: a ball with a position and a
/// velocity moves by its velocity times the elapsed time.
pub open spec fn integrate_step(b: Bundle, delta_micros: u64) -> Bundle {
    if b.role == Some(Role::Ball) && b.position is Some && b.velocity is Some {
        let p = b.position->Some_0;
        let v = b.velocity->Some_0;
        synced(
            Bundle {
                position: Some(
                    Position {
                        x: advanced(p.x, v.x as int, delta_micros),
                        y: advanced(p.y, v.y as int, delta_micros),
                    },
                ),
                ..b
            },
        )
    } else {
        b
    }
}

/// Entities that bounce off the walls and can leave the field.
pub open spec fn is_ball(b: Bundle) -> bool {
    b.role == Some(Role::Ball) && b.position is Some && b.velocity is Some && b.size is Some
}

/// Step of the wall system. A ball at or above the top edge is put on the
/// edge and made to move down; then a ball at or below the bottom edge is
/// put on that edge and made to move up.
pub open spec fn wall_step(b: Bundle, field: Playfield) -> Bundle {
    if is_ball(b) {
        let p = b.position->Some_0;
        let v = b.velocity->Some_0;
        let s = b.size->Some_0;
        let (y1, vy1) = if p.y <= 0 {
            (0i32, saturating_abs(v.y))
        } else {
            (p.y, v.y)
        };
        let (y2, vy2) = if y1 + s.height >= field.height {
            (saturate_i32(field.height - s.height), saturating_neg(saturating_abs(vy1)))
        } else {
            (y1, vy1)
        };
        synced(
            Bundle {
                position: Some(Position { x: p.x, y: y2 }),
                velocity: Some(Velocity { x: v.x, y: vy2 }),
                ..b
            },
        )
    } else {
        b
    }
}

/// A paddle with the given role and a box is in slot `j`.
pub open spec fn is_paddle_at(slots: Seq<Option<Bundle>>, j: int, role: Role) -> bool {
    0 <= j < slots.len() && slots[j] is Some && slots[j]->Some_0.role == Some(role)
        && slots[j]->Some_0.bounds is Some
}

/// The box `ball` intersects the box of some paddle with the given role.
pub open spec fn paddle_hit(slots: Seq<Option<Bundle>>, ball: Bounds, role: Role) -> bool {
    exists|j: int| #[trigger]
        is_paddle_at(slots, j, role) && boxes_intersect(ball, slots[j]->Some_0.bounds->Some_0)
}

/// Entities that can hit a paddle: a ball with a box and a velocity.
pub open spec fn can_collide(b: Bundle) -> bool {
    b.role == Some(Role::Ball) && b.bounds is Some && b.velocity is Some
}

/// Step of the paddle collision system, among the entities in `slots`. A
/// ball that moves left while its box intersects the box of a player's
/// paddle, or moves right while its box intersects the box of an opponent's
/// paddle, turns round horizontally. Boxes that only touch do not intersect.
pub open spec fn collide_step(b: Bundle, slots: Seq<Option<Bundle>>) -> Bundle {
    if can_collide(b) {
        let v = b.velocity->Some_0;
        let own = b.bounds->Some_0;
        let turns = (v.x < 0 && paddle_hit(slots, own, Role::PlayerPaddle)) || (v.x > 0
            && paddle_hit(slots, own, Role::AiPaddle));
        if turns {
            Bundle { velocity: Some(Velocity { x: saturating_neg(v.x), y: v.y }), ..b }
        } else {
            b
        }
    } else {
        b
    }
}

/// The speed of the opponent's paddle.
pub open spec fn ai_speed(field: Playfield) -> int {
    (field.paddle_speed as int) * (field.ai_speed_percent as int) / 100
}

/// The vertical centre of an entity with a position and a size.
pub open spec fn vertical_center(b: Bundle) -> int {
    b.position->Some_0.y + (b.size->Some_0.height / 2) as int
}

/// The rate at which the opponent's paddle moves: toward the target while
/// the centres are more than the deadband apart, and not at all otherwise.
pub open spec fn ai_rate(paddle_center: int, target_center: int, field: Playfield) -> int {
    if paddle_center < target_center - field.deadband {
        ai_speed(field)
    } else if paddle_center > target_center + field.deadband {
        -ai_speed(field)
    } else {
        0
    }
}

/// Step of the opponent's movement system, tracking `target_center`.
pub open spec fn ai_step(b: Bundle, field: Playfield, target_center: int, delta_micros: u64) -> Bundle {
    if is_ai_paddle(b) {
        paddle_moved(b, field, ai_rate(vertical_center(b), target_center, field), delta_micros)
    } else {
        b
    }
}

/// Entities that the opponent can track: a ball with a position and a size.
pub open spec fn is_target(b: Bundle) -> bool {
    b.role == Some(Role::Ball) && b.position is Some && b.size is Some
}

/// Slot `i` holds a live entity that the opponent can track.
pub open spec fn is_target_at(slots: Seq<Option<Bundle>>, i: int) -> bool {
    0 <= i < slots.len() && slots[i] is Some && is_target(slots[i]->Some_0)
}

/// Slot `i` holds the first entity, in spawn order, that the opponent can
/// track.
pub open spec fn is_first_target(slots: Seq<Option<Bundle>>, i: int) -> bool {
    is_target_at(slots, i) && forall|j: int| 0 <= j < i ==> !is_target_at(slots, j)
}

/// The store holds something for the opponent to track.
pub open spec fn has_target(slots: Seq<Option<Bundle>>) -> bool {
    exists|i: int| is_target_at(slots, i)
}

/// The slots after the opponent's movement system: every opponent's paddle
/// has followed the first target; without a target nothing has changed.
pub open spec fn after_ai(
    slots: Seq<Option<Bundle>>,
    field: Playfield,
    delta_micros: u64,
) -> Seq<Option<Bundle>> {
    if has_target(slots) {
        let first = choose|i: int| is_first_target(slots, i);
        map_live(
            slots,
            |b: Bundle| ai_step(b, field, vertical_center(slots[first]->Some_0), delta_micros),
        )
    } else {
        slots
    }
}

/// What the entity's place says about the score: a ball whose left edge is
/// left of the field has let the opponent score, one whose left edge is
/// right of the field has let the player score.
pub open spec fn exit_of(b: Bundle, field: Playfield) -> ScoreEvent {
    if is_ball(b) && b.position->Some_0.x < 0 {
        ScoreEvent::AiScored
    } else if is_ball(b) && b.position->Some_0.x > field.width {
        ScoreEvent::PlayerScored
    } else {
        ScoreEvent::NoScore
    }
}

/// The speed of a served ball as a velocity component.
pub open spec fn serve_speed(field: Playfield) -> i32 {
    saturate_i32(field.ball_speed as int)
}

/// A ball put back into play: centred in the field on both axes, and moving
/// at the serve speed on both axes, away from the edge it left by. A ball
/// that left on the left is served to the right and downward, one that left
/// on the right to the left and upward.
pub open spec fn served(b: Bundle, field: Playfield, rightward: bool) -> Bundle {
    let s = b.size->Some_0;
    let speed = serve_speed(field);
    synced(
        Bundle {
            position: Some(
                Position {
                    x: centered(field.width, s.width) as i32,
                    y: centered(field.height, s.height) as i32,
                },
            ),
            velocity: Some(
                if rightward {
                    Velocity { x: speed, y: speed }
                } else {
                    Velocity { x: (-speed) as i32, y: (-speed) as i32 }
                },
            ),
            ..b
        },
    )
}

/// Step of the scoring system: a ball that left the field is served again.
pub open spec fn score_step(b: Bundle, field: Playfield) -> Bundle {
    match exit_of(b, field) {
        ScoreEvent::AiScored => served(b, field, true),
        ScoreEvent::PlayerScored => served(b, field, false),
        ScoreEvent::NoScore => b,
    }
}

/// Slot `i` holds a live ball that left the field.
pub open spec fn is_exit_at(slots: Seq<Option<Bundle>>, i: int, field: Playfield) -> bool {
    0 <= i < slots.len() && slots[i] is Some && exit_of(slots[i]->Some_0, field)
        != ScoreEvent::NoScore
}

/// Slot `i` holds the first ball, in spawn order, that left the field.
pub open spec fn is_first_exit(slots: Seq<Option<Bundle>>, i: int, field: Playfield) -> bool {
    is_exit_at(slots, i, field) && forall|j: int| 0 <= j < i ==> !is_exit_at(slots, j, field)
}

/// The score event of a tick: that of the first ball, in spawn order, that
/// left the field.
pub open spec fn score_event(slots: Seq<Option<Bundle>>, field: Playfield) -> ScoreEvent {
    if exists|i: int| is_exit_at(slots, i, field) {
        let first = choose|i: int| is_first_exit(slots, i, field);
        exit_of(slots[first]->Some_0, field)
    } else {
        ScoreEvent::NoScore
    }
}

/// A size with both extents scaled by `new_height / old_height`.
pub open spec fn scaled_size(s: Size, new_height: u32, old_height: u32) -> Size {
    Size {
        width: saturate_u32(scaled(s.width as int, new_height, old_height)),
        height: saturate_u32(scaled(s.height as int, new_height, old_height)),
    }
}

/// A velocity with both components scaled by `new_height / old_height`.
pub open spec fn scaled_velocity(v: Velocity, new_height: u32, old_height: u32) -> Velocity {
    Velocity {
        x: saturate_i32(scaled(v.x as int, new_height, old_height)),
        y: saturate_i32(scaled(v.y as int, new_height, old_height)),
    }
}

/// The distance from the far edge of an object to the far edge of the span
/// that holds it.
pub open spec fn far_edge_offset(coordinate: i32, extent: u32, span: u32) -> int {
    span - (coordinate + extent)
}

/// The coordinate that gives an object of extent `new_extent`, in a span of
/// `new_span`, the far-edge offset that it had before.
pub open spec fn anchored_coordinate(
    coordinate: i32,
    extent: u32,
    new_extent: u32,
    span: u32,
    new_span: u32,
) -> i32 {
    saturate_i32(new_span - new_extent - far_edge_offset(coordinate, extent, span))
}

/// The settings after a resize to `width` by `height`: the speeds are scaled
/// by the ratio of the new height to the old one.
pub open spec fn resized_field(field: Playfield, width: u32, height: u32) -> Playfield {
    Playfield {
        width,
        height,
        paddle_speed: saturate_u32(scaled(field.paddle_speed as int, height, field.height)),
        ball_speed: saturate_u32(scaled(field.ball_speed as int, height, field.height)),
        ..field
    }
}

/// Step of the resize system, from the field `field` to `width` by `height`.
///
/// An entity with a role has its size and its velocity scaled by the ratio
/// of the heights. An anchored entity with a position and a size keeps the
/// distance of its far edge to the right edge, the bottom edge or both.
/// Every entity's bounds are recomputed.
pub open spec fn resize_step(b: Bundle, field: Playfield, width: u32, height: u32) -> Bundle {
    let size = if b.role is Some && b.size is Some {
        Some(scaled_size(b.size->Some_0, height, field.height))
    } else {
        b.size
    };
    let velocity = if b.role is Some && b.velocity is Some {
        Some(scaled_velocity(b.velocity->Some_0, height, field.height))
    } else {
        b.velocity
    };
    let position = if b.anchor is Some && b.position is Some && b.size is Some {
        let a = b.anchor->Some_0;
        let p = b.position->Some_0;
        let s = b.size->Some_0;
        Some(
            Position {
                x: if a.right {
                    anchored_coordinate(p.x, s.width, size->Some_0.width, field.width, width)
                } else {
                    p.x
                },
                y: if a.bottom {
                    anchored_coordinate(p.y, s.height, size->Some_0.height, field.height, height)
                } else {
                    p.y
                },
            },
        )
    } else {
        b.position
    };
    synced(Bundle { position, velocity, size, ..b })
}

/// The slots after one tick: the six systems in their fixed order.
pub open spec fn after_tick(
    slots: Seq<Option<Bundle>>,
    field: Playfield,
    steer: Steer,
    delta_micros: u64,
) -> Seq<Option<Bundle>> {
    let steered = map_live(slots, |b: Bundle| player_step(b, field, steer, delta_micros));
    let moved = map_live(steered, |b: Bundle| integrate_step(b, delta_micros));
    let walled = map_live(moved, |b: Bundle| wall_step(b, field));
    let collided = map_live(walled, |b: Bundle| collide_step(b, walled));
    let followed = after_ai(collided, field, delta_micros);
    map_live(followed, |b: Bundle| score_step(b, field))
}

/// The score event of one tick: read off the slots as they are after the
/// first five systems.
pub open spec fn tick_event(
    slots: Seq<Option<Bundle>>,
    field: Playfield,
    steer: Steer,
    delta_micros: u64,
) -> ScoreEvent {
    let steered = map_live(slots, |b: Bundle| player_step(b, field, steer, delta_micros));
    let moved = map_live(steered, |b: Bundle| integrate_step(b, delta_micros));
    let walled = map_live(moved, |b: Bundle| wall_step(b, field));
    let collided = map_live(walled, |b: Bundle| collide_step(b, walled));
    score_event(after_ai(collided, field, delta_micros), field)
}

/// One pass over the store, with what its step needs.
enum Pass {
    Player { field: Playfield, steer: Steer, delta_micros: u64 },
    Integrate { delta_micros: u64 },
    Walls { field: Playfield },
    Ai { field: Playfield, target_center: i64, delta_micros: u64 },
    Score { field: Playfield },
    Resize { field: Playfield, width: u32, height: u32 },
    Sync,
}

/// The step that a pass applies to the components of one entity.
spec fn pass_step(pass: Pass, b: Bundle) -> Bundle {
    match pass {
        Pass::Player { field, steer, delta_micros } => player_step(b, field, steer, delta_micros),
        Pass::Integrate { delta_micros } => integrate_step(b, delta_micros),
        Pass::Walls { field } => wall_step(b, field),
        Pass::Ai { field, target_center, delta_micros } => ai_step(
            b,
            field,
            target_center as int,
            delta_micros,
        ),
        Pass::Score { field } => score_step(b, field),
        Pass::Resize { field, width, height } => resize_step(b, field, width, height),
        Pass::Sync => synced(b),
    }
}

fn sync_bundle(b: Bundle) -> (r: Bundle)
    ensures
        r == synced(b),
{
    match (b.position, b.size, b.bounds) {
        (Some(p), Some(s), Some(_)) => {
            let mut r = b;
            r.bounds = Some(Bounds::from_position_and_size(p, s));
            r
        },
        _ => b,
    }
}

fn move_paddle(b: Bundle, p: Position, s: Size, field: &Playfield, rate: i64, delta_micros: u64) -> (r:
    Bundle)
    requires
        b.position == Some(p),
        b.size == Some(s),
    ensures
        r == paddle_moved(b, *field, rate as int, delta_micros),
{
    let reached = advance(p.y, rate, delta_micros);
    let lowered: i64 = if reached < 0 {
        0
    } else {
        reached as i64
    };
    let limit: i64 = field.height as i64 - s.height as i64;
    let kept: i64 = if lowered > limit {
        limit
    } else {
        lowered
    };
    let mut r = b;
    r.position = Some(Position { x: p.x, y: saturate_to_i32(kept as i128) });
    sync_bundle(r)
}

fn steer_rate_of(steer: Steer, speed: u32) -> (rate: i64)
    ensures
        rate == steer_rate(steer, speed),
{
    match steer {
        Steer::Up => -(speed as i64),
        Steer::Down => speed as i64,
        Steer::Idle => 0,
    }
}

fn ai_speed_of(field: &Playfield) -> (speed: i64)
    ensures
        speed == ai_speed(*field),
        0 <= speed <= 0xffff_ffff * 255,
{
    assert((field.paddle_speed as int) * (field.ai_speed_percent as int) <= 0xffff_ffff * 255)
        by (nonlinear_arith)
        requires
            0 <= field.paddle_speed <= 0xffff_ffff,
            0 <= field.ai_speed_percent <= 255,
    ;
    assert(0 <= (field.paddle_speed as int) * (field.ai_speed_percent as int)) by (nonlinear_arith)
        requires
            0 <= field.paddle_speed,
            0 <= field.ai_speed_percent,
    ;
    ((field.paddle_speed as u64 * field.ai_speed_percent as u64) / 100) as i64
}

fn vertical_center_of(p: Position, s: Size) -> (center: i64)
    ensures
        center == p.y + (s.height / 2) as int,
{
    p.y as i64 + (s.height / 2) as i64
}

fn ai_rate_of(paddle_center: i64, target_center: i64, field: &Playfield) -> (rate: i64)
    ensures
        rate == ai_rate(paddle_center as int, target_center as int, *field),
{
    let speed = ai_speed_of(field);
    if (paddle_center as i128) < target_center as i128 - field.deadband as i128 {
        speed
    } else if paddle_center as i128 > target_center as i128 + field.deadband as i128 {
        -speed
    } else {
        0
    }
}

fn serve(b: Bundle, s: Size, field: &Playfield, rightward: bool) -> (r: Bundle)
    requires
        b.size == Some(s),
    ensures
        r == served(b, *field, rightward),
{
    let speed = saturate_to_i32(field.ball_speed as i128);
    let mut r = b;
    r.position = Some(
        Position {
            x: center_offset(field.width, s.width),
            y: center_offset(field.height, s.height),
        },
    );
    r.velocity = Some(
        if rightward {
            Velocity { x: speed, y: speed }
        } else {
            Velocity { x: -speed, y: -speed }
        },
    );
    sync_bundle(r)
}

fn exit_of_bundle(b: &Bundle, field: &Playfield) -> (event: ScoreEvent)
    ensures
        event == exit_of(*b, *field),
{
    match (b.role, b.position, b.velocity, b.size) {
        (Some(Role::Ball), Some(p), Some(_), Some(_)) => {
            if p.x < 0 {
                ScoreEvent::AiScored
            } else if p.x as i64 > field.width as i64 {
                ScoreEvent::PlayerScored
            } else {
                ScoreEvent::NoScore
            }
        },
        _ => ScoreEvent::NoScore,
    }
}

fn anchor_coordinate(coordinate: i32, extent: u32, new_extent: u32, span: u32, new_span: u32) -> (r:
    i32)
    ensures
        r == anchored_coordinate(coordinate, extent, new_extent, span, new_span),
{
    let offset: i128 = span as i128 - (coordinate as i128 + extent as i128);
    saturate_to_i32(new_span as i128 - new_extent as i128 - offset)
}

fn apply_step(pass: &Pass, b: Bundle) -> (r: Bundle)
    ensures
        r == pass_step(*pass, b),
{
    match pass {
        Pass::Player { field, steer, delta_micros } => {
            match (b.role, b.position, b.size) {
                (Some(Role::PlayerPaddle), Some(p), Some(s)) => move_paddle(
                    b,
                    p,
                    s,
                    field,
                    steer_rate_of(*steer, field.paddle_speed),
                    *delta_micros,
                ),
                _ => b,
            }
        },
        Pass::Integrate { delta_micros } => {
            match (b.role, b.position, b.velocity) {
                (Some(Role::Ball), Some(p), Some(v)) => {
                    let mut r = b;
                    r.position = Some(
                        Position {
                            x: advance(p.x, v.x as i64, *delta_micros),
                            y: advance(p.y, v.y as i64, *delta_micros),
                        },
                    );
                    sync_bundle(r)
                },
                _ => b,
            }
        },
        Pass::Walls { field } => {
            match (b.role, b.position, b.velocity, b.size) {
                (Some(Role::Ball), Some(p), Some(v), Some(s)) => {
                    let mut y = p.y;
                    let mut vy = v.y;
                    if y <= 0 {
                        y = 0;
                        vy = abs_saturating(vy);
                    }
                    if y as i64 + s.height as i64 >= field.height as i64 {
                        y = saturate_to_i32(field.height as i128 - s.height as i128);
                        vy = neg_saturating(abs_saturating(vy));
                    }
                    let mut r = b;
                    r.position = Some(Position { x: p.x, y });
                    r.velocity = Some(Velocity { x: v.x, y: vy });
                    sync_bundle(r)
                },
                _ => b,
            }
        },
        Pass::Ai { field, target_center, delta_micros } => {
            match (b.role, b.position, b.size) {
                (Some(Role::AiPaddle), Some(p), Some(s)) => {
                    let rate = ai_rate_of(vertical_center_of(p, s), *target_center, field);
                    move_paddle(b, p, s, field, rate, *delta_micros)
                },
                _ => b,
            }
        },
        Pass::Score { field } => {
            match exit_of_bundle(&b, field) {
                ScoreEvent::AiScored => serve(b, b.size.unwrap(), field, true),
                ScoreEvent::PlayerScored => serve(b, b.size.unwrap(), field, false),
                ScoreEvent::NoScore => b,
            }
        },
        Pass::Resize { field, width, height } => {
            let mut r = b;
            if b.role.is_some() {
                if let Some(s) = b.size {
                    r.size = Some(
                        Size {
                            width: saturate_to_u32(scale(s.width as i64, *height, field.height)),
                            height: saturate_to_u32(scale(s.height as i64, *height, field.height)),
                        },
                    );
                }
                if let Some(v) = b.velocity {
                    r.velocity = Some(
                        Velocity {
                            x: saturate_to_i32(scale(v.x as i64, *height, field.height)),
                            y: saturate_to_i32(scale(v.y as i64, *height, field.height)),
                        },
                    );
                }
            }
            match (b.anchor, b.position, b.size, r.size) {
                (Some(a), Some(p), Some(s), Some(grown)) => {
                    r.position = Some(
                        Position {
                            x: if a.right {
                                anchor_coordinate(p.x, s.width, grown.width, field.width, *width)
                            } else {
                                p.x
                            },
                            y: if a.bottom {
                                anchor_coordinate(
                                    p.y,
                                    s.height,
                                    grown.height,
                                    field.height,
                                    *height,
                                )
                            } else {
                                p.y
                            },
                        },
                    );
                },
                _ => {},
            }
            sync_bundle(r)
        },
        Pass::Sync => sync_bundle(b),
    }
}

/// The set of a role and, as asked, a position, a velocity and a size.
spec fn role_with(position: bool, velocity: bool, size: bool) -> ComponentSet {
    ComponentSet {
        position,
        velocity,
        size,
        bounds: false,
        renderable: false,
        role: true,
        anchor: false,
    }
}

/// The component types that an entity must hold for the step of a pass to
/// change it. A pass asks the store for the entities that hold them all.
spec fn pass_query(pass: Pass) -> ComponentSet {
    match pass {
        Pass::Player { .. } => role_with(true, false, true),
        Pass::Integrate { .. } => role_with(true, true, false),
        Pass::Walls { .. } => role_with(true, true, true),
        Pass::Ai { .. } => role_with(true, false, true),
        Pass::Score { .. } => role_with(true, true, true),
        Pass::Resize { .. } => ComponentSet {
            position: false,
            velocity: false,
            size: false,
            bounds: false,
            renderable: false,
            role: false,
            anchor: false,
        },
        Pass::Sync => ComponentSet {
            position: true,
            velocity: false,
            size: true,
            bounds: true,
            renderable: false,
            role: false,
            anchor: false,
        },
    }
}

fn query_of(pass: &Pass) -> (set: ComponentSet)
    ensures
        set == pass_query(*pass),
{
    let role = ComponentSet::empty().with(ComponentKind::Role);
    match pass {
        Pass::Player { .. } => role.with(ComponentKind::Position).with(ComponentKind::Size),
        Pass::Integrate { .. } => role.with(ComponentKind::Position).with(ComponentKind::Velocity),
        Pass::Walls { .. } => role.with(ComponentKind::Position).with(ComponentKind::Velocity).with(
            ComponentKind::Size,
        ),
        Pass::Ai { .. } => role.with(ComponentKind::Position).with(ComponentKind::Size),
        Pass::Score { .. } => role.with(ComponentKind::Position).with(ComponentKind::Velocity).with(
            ComponentKind::Size,
        ),
        Pass::Resize { .. } => ComponentSet::empty(),
        Pass::Sync => ComponentSet::empty().with(ComponentKind::Position).with(
            ComponentKind::Size,
        ).with(ComponentKind::Bounds),
    }
}

/// What a pass makes of one slot.
spec fn stepped(pass: Pass, slot: Option<Bundle>) -> Option<Bundle> {
    match slot {
        Some(bundle) => Some(pass_step(pass, bundle)),
        None => None,
    }
}

/// The step of a pass leaves alone every entity that the query of the pass
/// does not yield.
proof fn lemma_step_changes_only_what_the_query_yields(pass: Pass, b: Bundle)
    requires
        !b.spec_has_all(pass_query(pass)),
    ensures
        pass_step(pass, b) == b,
{
    let kind = choose|kind: ComponentKind| pass_query(pass).contains(kind) && !b.spec_has(kind);
    assert(pass_query(pass).contains(kind) && !b.spec_has(kind));
}

/// Applies the step of `pass` to every live entity: the pass asks the store
/// for the entities that hold what its step works on, and steps each of
/// them, in spawn order.
fn run_pass(world: &mut World, pass: &Pass)
    ensures
        final(world)@ == map_live(old(world)@, |b: Bundle| pass_step(*pass, b)),
{
    let ghost before = world@;
    let wanted = query_of(pass);
    let found = world.entities_with(wanted);
    let m = found.len();
    let mut k: usize = 0;
    proof {
        assert forall|idx: int|
            0 <= idx < frontier(found@, 0, before.len() as int) && idx
                < before.len() implies stepped(*pass, before[idx]) == before[idx] by {
            lemma_skipped_slot_is_unchanged(*pass, before, found@, wanted, 0, idx);
        }
    }
    while k < m
        invariant
            k <= m,
            m == found.len(),
            wanted == pass_query(*pass),
            world@.len() == before.len(),
            yields(before, wanted, found@),
            forall|idx: int|
                0 <= idx < frontier(found@, k as int, before.len() as int) && idx < before.len()
                    ==> world@[idx] == stepped(*pass, before[idx]),
            forall|idx: int|
                frontier(found@, k as int, before.len() as int) <= idx < before.len()
                    ==> world@[idx] == before[idx],
        decreases m - k,
    {
        let entity = found[k];
        assert(slot_matches(before, entity.index() as int, wanted));
        match world.get(entity) {
            Some(bundle) => {
                let next = apply_step(pass, bundle);
                world.set(entity, next);
            },
            None => {},
        }
        proof {
            assert forall|idx: int|
                0 <= idx < frontier(found@, k + 1, before.len() as int) && idx
                    < before.len() implies world@[idx] == stepped(*pass, before[idx]) by {
                if idx > entity.index() {
                    lemma_skipped_slot_is_unchanged(*pass, before, found@, wanted, k + 1, idx);
                }
            }
        }
        k += 1;
    }
    assert(world@ =~= map_live(before, |b: Bundle| pass_step(*pass, b)));
}

/// On a walk over the entities found, in order, the slots between one
/// entity found and the next hold nothing that the query of the pass
/// yields, so that the step of the pass would leave them as they are.
proof fn lemma_skipped_slot_is_unchanged(
    pass: Pass,
    slots: Seq<Option<Bundle>>,
    found: Seq<Entity>,
    wanted: ComponentSet,
    next: int,
    idx: int,
)
    requires
        wanted == pass_query(pass),
        0 <= next <= found.len(),
        yields(slots, wanted, found),
        0 <= idx < frontier(found, next, slots.len() as int),
        idx < slots.len(),
        next > 0 ==> found[next - 1].index() < idx,
    ensures
        stepped(pass, slots[idx]) == slots[idx],
{
    lemma_no_match_between(slots, found, wanted, next, idx);
    if slots[idx] is Some {
        lemma_step_changes_only_what_the_query_yields(pass, slots[idx]->Some_0);
    }
}

/// A pass whose step keeps a bundle in sync keeps the whole store in sync.
proof fn lemma_pass_keeps_sync(slots: Seq<Option<Bundle>>, step: spec_fn(Bundle) -> Bundle)
    requires
        bounds_in_sync(slots),
        forall|b: Bundle| bundle_in_sync(b) ==> bundle_in_sync(#[trigger] step(b)),
    ensures
        bounds_in_sync(map_live(slots, step)),
{
    let after = map_live(slots, step);
    assert forall|i: int| 0 <= i < after.len() && after[i] is Some implies bundle_in_sync(
        after[i]->Some_0,
    ) by {
        assert(slots[i] is Some);
        assert(after[i]->Some_0 == step(slots[i]->Some_0));
    }
}

/// Recomputes the bounds of every entity that carries position, size and
/// bounds.
pub fn sync_bounds_system(world: &mut World)
    ensures
        final(world)@ == map_live(old(world)@, |b: Bundle| synced(b)),
        bounds_in_sync(final(world)@),
{
    let pass = Pass::Sync;
    run_pass(world, &pass);
    assert(final(world)@ =~= map_live(old(world)@, |b: Bundle| synced(b)));
}

/// Moves every player's paddle as the player steers, keeps it on its track
/// and recomputes its bounds.
pub fn player_paddle_system(world: &mut World, field: &Playfield, steer: Steer, delta_micros: u64)
    ensures
        final(world)@ == map_live(
            old(world)@,
            |b: Bundle| player_step(b, *field, steer, delta_micros),
        ),
        bounds_in_sync(old(world)@) ==> bounds_in_sync(final(world)@),
{
    let pass = Pass::Player { field: *field, steer, delta_micros };
    run_pass(world, &pass);
    proof {
        let step = |b: Bundle| player_step(b, *field, steer, delta_micros);
        assert(final(world)@ =~= map_live(old(world)@, step));
        if bounds_in_sync(old(world)@) {
            lemma_pass_keeps_sync(old(world)@, step);
        }
    }
}

/// Moves every ball by its velocity times the elapsed time and recomputes
/// its bounds.
pub fn ball_movement_system(world: &mut World, delta_micros: u64)
    ensures
        final(world)@ == map_live(old(world)@, |b: Bundle| integrate_step(b, delta_micros)),
        bounds_in_sync(old(world)@) ==> bounds_in_sync(final(world)@),
{
    let pass = Pass::Integrate { delta_micros };
    run_pass(world, &pass);
    proof {
        let step = |b: Bundle| integrate_step(b, delta_micros);
        assert(final(world)@ =~= map_live(old(world)@, step));
        if bounds_in_sync(old(world)@) {
            lemma_pass_keeps_sync(old(world)@, step);
        }
    }
}

/// Bounces every ball off the top and bottom edges of the field.
pub fn wall_collision_system(world: &mut World, field: &Playfield)
    ensures
        final(world)@ == map_live(old(world)@, |b: Bundle| wall_step(b, *field)),
        bounds_in_sync(old(world)@) ==> bounds_in_sync(final(world)@),
{
    let pass = Pass::Walls { field: *field };
    run_pass(world, &pass);
    proof {
        let step = |b: Bundle| wall_step(b, *field);
        assert(final(world)@ =~= map_live(old(world)@, step));
        if bounds_in_sync(old(world)@) {
            lemma_pass_keeps_sync(old(world)@, step);
        }
    }
}

/// Whether the box `ball` intersects the box of a paddle with role `role`,
/// among the entities with a role and a box.
fn hits_paddle(world: &World, ball: &Bounds, role: Role) -> (hit: bool)
    ensures
        hit == paddle_hit(world@, *ball, role),
{
    let wanted = ComponentSet::empty().with(ComponentKind::Role).with(ComponentKind::Bounds);
    let found = world.entities_with(wanted);
    let m = found.len();
    let mut k: usize = 0;
    while k < m
        invariant
            k <= m,
            m == found.len(),
            yields(world@, wanted, found@),
            forall|j: int|
                0 <= j < k ==> !(is_paddle_at(world@, (#[trigger] found[j]).index() as int, role)
                    && boxes_intersect(
                    *ball,
                    world@[found[j].index() as int]->Some_0.bounds->Some_0,
                )),
        decreases m - k,
    {
        let entity = found[k];
        match world.get(entity) {
            Some(bundle) => {
                match (bundle.role, bundle.bounds) {
                    (Some(held), Some(paddle)) => {
                        if held == role && ball.intersects(&paddle) {
                            assert(is_paddle_at(world@, entity.index() as int, role));
                            return true;
                        }
                    },
                    _ => {},
                }
            },
            None => {},
        }
        k += 1;
    }
    proof {
        if paddle_hit(world@, *ball, role) {
            let at = choose|at: int| #[trigger]
                is_paddle_at(world@, at, role) && boxes_intersect(
                    *ball,
                    world@[at]->Some_0.bounds->Some_0,
                );
            assert(slot_matches(world@, at, wanted));
            let j = choose|j: int| 0 <= j < found.len() && (#[trigger] found[j]).index() == at;
            assert(found[j].index() == at);
        }
    }
    false
}

/// What the collision system makes of one slot, among `slots`.
spec fn collided(slots: Seq<Option<Bundle>>, slot: Option<Bundle>) -> Option<Bundle> {
    match slot {
        Some(bundle) => Some(collide_step(bundle, slots)),
        None => None,
    }
}

/// Slots `a` and `b` hold paddles with the same boxes in the same places.
spec fn same_paddles(a: Seq<Option<Bundle>>, b: Seq<Option<Bundle>>) -> bool {
    a.len() == b.len() && forall|j: int|
        0 <= j < a.len() ==> (a[j] is Some) == (b[j] is Some) && (a[j] is Some ==> a[j]->Some_0.role
            == b[j]->Some_0.role && a[j]->Some_0.bounds == b[j]->Some_0.bounds)
}

proof fn lemma_same_paddles_same_hits(
    a: Seq<Option<Bundle>>,
    b: Seq<Option<Bundle>>,
    ball: Bounds,
    role: Role,
)
    requires
        same_paddles(a, b),
    ensures
        paddle_hit(a, ball, role) == paddle_hit(b, ball, role),
{
    if paddle_hit(a, ball, role) {
        let j = choose|j: int| #[trigger]
            is_paddle_at(a, j, role) && boxes_intersect(ball, a[j]->Some_0.bounds->Some_0);
        assert(is_paddle_at(b, j, role));
    }
    if paddle_hit(b, ball, role) {
        let j = choose|j: int| #[trigger]
            is_paddle_at(b, j, role) && boxes_intersect(ball, b[j]->Some_0.bounds->Some_0);
        assert(is_paddle_at(a, j, role));
    }
}

/// Turns round every ball that runs into a paddle it is moving toward: one
/// that moves left into a player's paddle, or right into an opponent's.
/// The boxes are taken as the store holds them.
pub fn ball_paddle_collision_system(world: &mut World)
    ensures
        final(world)@ == map_live(old(world)@, |b: Bundle| collide_step(b, old(world)@)),
        bounds_in_sync(old(world)@) ==> bounds_in_sync(final(world)@),
{
    let ghost before = world@;
    let wanted = ComponentSet::empty().with(ComponentKind::Role).with(ComponentKind::Bounds).with(
        ComponentKind::Velocity,
    );
    let found = world.entities_with(wanted);
    let m = found.len();
    let mut k: usize = 0;
    proof {
        assert forall|idx: int|
            0 <= idx < frontier(found@, 0, before.len() as int) && idx
                < before.len() implies collided(before, before[idx]) == before[idx] by {
            lemma_no_match_between(before, found@, wanted, 0, idx);
            if before[idx] is Some {
                let kind = lemma_lacks_one(before[idx]->Some_0, wanted);
            }
        }
    }
    while k < m
        invariant
            k <= m,
            m == found.len(),
            yields(before, wanted, found@),
            wanted == (ComponentSet {
                role: true,
                bounds: true,
                velocity: true,
                ..ComponentSet::spec_empty()
            }),
            same_paddles(world@, before),
            forall|idx: int|
                0 <= idx < frontier(found@, k as int, before.len() as int) && idx < before.len()
                    ==> world@[idx] == collided(before, before[idx]),
            forall|idx: int|
                frontier(found@, k as int, before.len() as int) <= idx < before.len()
                    ==> world@[idx] == before[idx],
        decreases m - k,
    {
        let entity = found[k];
        assert(slot_matches(before, entity.index() as int, wanted));
        match world.get(entity) {
            Some(bundle) => {
                match (bundle.role, bundle.bounds, bundle.velocity) {
                    (Some(Role::Ball), Some(own), Some(v)) => {
                        proof {
                            lemma_same_paddles_same_hits(world@, before, own, Role::PlayerPaddle);
                            lemma_same_paddles_same_hits(world@, before, own, Role::AiPaddle);
                        }
                        let turns = (v.x < 0 && hits_paddle(world, &own, Role::PlayerPaddle)) || (
                        v.x > 0 && hits_paddle(world, &own, Role::AiPaddle));
                        if turns {
                            let mut next = bundle;
                            next.velocity = Some(Velocity { x: neg_saturating(v.x), y: v.y });
                            world.set(entity, next);
                        }
                    },
                    _ => {},
                }
            },
            None => {},
        }
        proof {
            assert forall|idx: int|
                0 <= idx < frontier(found@, k + 1, before.len() as int) && idx
                    < before.len() implies world@[idx] == collided(before, before[idx]) by {
                if idx > entity.index() {
                    lemma_no_match_between(before, found@, wanted, k + 1, idx);
                    if before[idx] is Some {
                        let kind = lemma_lacks_one(before[idx]->Some_0, wanted);
                    }
                }
            }
        }
        k += 1;
    }
    proof {
        let step = |b: Bundle| collide_step(b, before);
        assert(world@ =~= map_live(before, step));
        if bounds_in_sync(before) {
            lemma_pass_keeps_sync(before, step);
        }
    }
}

/// Only one slot can hold the first target.
proof fn lemma_first_target_is_unique(slots: Seq<Option<Bundle>>, i: int, j: int)
    requires
        is_first_target(slots, i),
        is_first_target(slots, j),
    ensures
        i == j,
{
    if i < j {
        assert(!is_target_at(slots, i));
    }
    if j < i {
        assert(!is_target_at(slots, j));
    }
}

/// Finds the first ball that the opponent can follow, and its vertical
/// centre, among the entities with a role, a position and a size.
fn first_target(world: &World) -> (found: Option<(Entity, i64)>)
    ensures
        match found {
            Some((ball, center)) => is_first_target(world@, ball.index() as int) && center
                == vertical_center(world@[ball.index() as int]->Some_0),
            None => !has_target(world@),
        },
{
    let wanted = ComponentSet::empty().with(ComponentKind::Role).with(ComponentKind::Position).with(
        ComponentKind::Size,
    );
    let sized = world.entities_with(wanted);
    let m = sized.len();
    let mut k: usize = 0;
    while k < m
        invariant
            k <= m,
            m == sized.len(),
            yields(world@, wanted, sized@),
            wanted == (ComponentSet {
                role: true,
                position: true,
                size: true,
                ..ComponentSet::spec_empty()
            }),
            forall|j: int| 0 <= j < k ==> !is_target_at(world@, (#[trigger] sized[j]).index() as int),
        decreases m - k,
    {
        let entity = sized[k];
        match world.get(entity) {
            Some(bundle) => {
                match (bundle.role, bundle.position, bundle.size) {
                    (Some(Role::Ball), Some(p), Some(s)) => {
                        proof {
                            assert forall|at: int| 0 <= at < entity.index() implies !is_target_at(
                                world@,
                                at,
                            ) by {
                                if is_target_at(world@, at) {
                                    assert(slot_matches(world@, at, wanted));
                                    let j = choose|j: int|
                                        0 <= j < sized.len() && (#[trigger] sized[j]).index() == at;
                                    if j >= k {
                                        if j > k {
                                            assert(sized[k as int].index() < sized[j].index());
                                        }
                                    }
                                }
                            }
                        }
                        return Some((entity, vertical_center_of(p, s)));
                    },
                    _ => {},
                }
            },
            None => {},
        }
        k += 1;
    }
    proof {
        if has_target(world@) {
            let at = choose|at: int| is_target_at(world@, at);
            assert(slot_matches(world@, at, wanted));
            let j = choose|j: int| 0 <= j < sized.len() && (#[trigger] sized[j]).index() == at;
            assert(sized[j].index() == at);
        }
    }
    None
}

/// Moves every opponent's paddle toward the vertical centre of the first
/// ball in the store, unless the centres are within the deadband of each
/// other; keeps the paddle on its track and recomputes its bounds.
///
/// Returns the ball that was followed. Without a ball nothing changes.
pub fn ai_paddle_system(world: &mut World, field: &Playfield, delta_micros: u64) -> (followed: Option<
    Entity,
>)
    ensures
        final(world)@ == after_ai(old(world)@, *field, delta_micros),
        match followed {
            Some(ball) => is_first_target(old(world)@, ball.index() as int),
            None => !has_target(old(world)@),
        },
        bounds_in_sync(old(world)@) ==> bounds_in_sync(final(world)@),
{
    let ghost before = world@;
    match first_target(world) {
        Some((ball, target_center)) => {
            let ghost index = ball.index();
            let pass = Pass::Ai { field: *field, target_center, delta_micros };
            run_pass(world, &pass);
            proof {
                assert(is_target_at(before, index as int));
                let first = choose|k: int| is_first_target(before, k);
                lemma_first_target_is_unique(before, first, index as int);
                let step = |b: Bundle| ai_step(b, *field, target_center as int, delta_micros);
                assert(final(world)@ =~= map_live(before, step));
                assert(after_ai(before, *field, delta_micros) =~= map_live(before, step));
                if bounds_in_sync(before) {
                    lemma_pass_keeps_sync(before, step);
                }
            }
            Some(ball)
        },
        None => None,
    }
}

/// Reads the score event off the store, among the entities with a role, a
/// position, a velocity and a size.
fn first_exit(world: &World, field: &Playfield) -> (event: ScoreEvent)
    ensures
        event == score_event(world@, *field),
{
    let wanted = ComponentSet::empty().with(ComponentKind::Role).with(ComponentKind::Position).with(
        ComponentKind::Velocity,
    ).with(ComponentKind::Size);
    let moving = world.entities_with(wanted);
    let m = moving.len();
    let mut k: usize = 0;
    while k < m
        invariant
            k <= m,
            m == moving.len(),
            yields(world@, wanted, moving@),
            wanted == (ComponentSet {
                role: true,
                position: true,
                velocity: true,
                size: true,
                ..ComponentSet::spec_empty()
            }),
            forall|j: int|
                0 <= j < k ==> !is_exit_at(world@, (#[trigger] moving[j]).index() as int, *field),
        decreases m - k,
    {
        let entity = moving[k];
        match world.get(entity) {
            Some(bundle) => {
                let event = exit_of_bundle(&bundle, field);
                if event != ScoreEvent::NoScore {
                    proof {
                        let here = entity.index() as int;
                        assert forall|at: int| 0 <= at < here implies !is_exit_at(
                            world@,
                            at,
                            *field,
                        ) by {
                            if is_exit_at(world@, at, *field) {
                                assert(slot_matches(world@, at, wanted));
                                let j = choose|j: int|
                                    0 <= j < moving.len() && (#[trigger] moving[j]).index() == at;
                                if j > k {
                                    assert(moving[k as int].index() < moving[j].index());
                                }
                            }
                        }
                        assert(is_first_exit(world@, here, *field));
                        let first = choose|at: int| is_first_exit(world@, at, *field);
                        if first < here {
                            assert(!is_exit_at(world@, first, *field));
                        }
                        if here < first {
                            assert(!is_exit_at(world@, here, *field));
                        }
                    }
                    return event;
                }
            },
            None => {},
        }
        k += 1;
    }
    proof {
        if exists|at: int| is_exit_at(world@, at, *field) {
            let at = choose|at: int| is_exit_at(world@, at, *field);
            assert(slot_matches(world@, at, wanted));
            let j = choose|j: int| 0 <= j < moving.len() && (#[trigger] moving[j]).index() == at;
            assert(moving[j].index() == at);
        }
    }
    ScoreEvent::NoScore
}

/// Serves again every ball that left the field on the left or on the right,
/// and reports who scored: the event of the first such ball in the store.
pub fn scoring_system(world: &mut World, field: &Playfield) -> (event: ScoreEvent)
    ensures
        final(world)@ == map_live(old(world)@, |b: Bundle| score_step(b, *field)),
        event == score_event(old(world)@, *field),
        bounds_in_sync(old(world)@) ==> bounds_in_sync(final(world)@),
{
    let event = first_exit(world, field);
    let pass = Pass::Score { field: *field };
    run_pass(world, &pass);
    proof {
        let step = |b: Bundle| score_step(b, *field);
        assert(final(world)@ =~= map_live(old(world)@, step));
        if bounds_in_sync(old(world)@) {
            lemma_pass_keeps_sync(old(world)@, step);
        }
    }
    event
}

/// Adapts the store and the settings to a viewport of `width` by `height`.
///
/// A viewport without area is ignored: nothing changes and the result is
/// `false`. Otherwise entities with a role have their size and velocity
/// scaled by the ratio of the new height to the old one, anchored entities
/// keep their distance to the right and bottom edges, the bounds of every
/// entity are recomputed, and the settings take the new extents and the
/// scaled speeds.
pub fn resize_system(world: &mut World, field: &mut Playfield, width: u32, height: u32) -> (applied:
    bool)
    ensures
        applied == (width > 0 && height > 0),
        applied ==> {
            &&& final(world)@ == map_live(
                old(world)@,
                |b: Bundle| resize_step(b, *old(field), width, height),
            )
            &&& *final(field) == resized_field(*old(field), width, height)
            &&& bounds_in_sync(final(world)@)
        },
        !applied ==> final(world)@ == old(world)@ && *final(field) == *old(field),
{
    if width == 0 || height == 0 {
        return false;
    }
    let ghost before = world@;
    let ghost old_field = *field;
    let pass = Pass::Resize { field: *field, width, height };
    run_pass(world, &pass);
    let paddle_speed = saturate_to_u32(scale(field.paddle_speed as i64, height, field.height));
    let ball_speed = saturate_to_u32(scale(field.ball_speed as i64, height, field.height));
    field.width = width;
    field.height = height;
    field.paddle_speed = paddle_speed;
    field.ball_speed = ball_speed;
    proof {
        let step = |b: Bundle| resize_step(b, old_field, width, height);
        assert(world@ =~= map_live(before, step));
        assert forall|i: int| 0 <= i < world@.len() && world@[i] is Some implies bundle_in_sync(
            world@[i]->Some_0,
        ) by {
            assert(world@[i]->Some_0 == step(before[i]->Some_0));
        }
    }
    true
}

/// Runs one tick: player movement, ball movement, wall collision, paddle
/// collision, opponent movement and scoring, in this order, each on what
/// the one before left.
pub fn tick(world: &mut World, field: &Playfield, steer: Steer, delta_micros: u64) -> (event:
    ScoreEvent)
    ensures
        final(world)@ == after_tick(old(world)@, *field, steer, delta_micros),
        event == tick_event(old(world)@, *field, steer, delta_micros),
        bounds_in_sync(old(world)@) ==> bounds_in_sync(final(world)@),
{
    player_paddle_system(world, field, steer, delta_micros);
    ball_movement_system(world, delta_micros);
    wall_collision_system(world, field);
    ball_paddle_collision_system(world);
    ai_paddle_system(world, field, delta_micros);
    scoring_system(world, field)
}

} // verus!
