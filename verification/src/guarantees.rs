//! What holds of the simulation for every store, every setting and every
//! frame length, proved from the step functions of the systems.

use crate::motion::{centered, saturate_u32, scaled};
use crate::simulation::{
    Playfield,
    ScoreEvent,
    Steer,
    after_ai,
    after_tick,
    ai_rate,
    ai_step,
    bounds_in_sync,
    bundle_in_sync,
    collide_step,
    exit_of,
    far_edge_offset,
    has_target,
    integrate_step,
    is_ai_paddle,
    is_ball,
    is_first_target,
    is_player_paddle,
    is_target_at,
    map_live,
    player_step,
    resize_step,
    resized_field,
    scaled_size,
    scaled_velocity,
    score_step,
    serve_speed,
    synced,
    vertical_center,
    wall_step,
};
use crate::world::Bundle;
use vstd::prelude::*;

verus! {

/// Recomputing the bounds of an entity puts them in sync with its position
/// and size.
pub proof fn lemma_synced_is_in_sync(b: Bundle)
    ensures
        bundle_in_sync(synced(b)),
{
}

/// Whether a step moved or resized the entity.
pub open spec fn moved_or_resized(before: Bundle, after: Bundle) -> bool {
    before.position != after.position || before.size != after.size
}

/// Whatever a system does to an entity, the entity's bounds afterwards are
/// those of its position and size, if they were so before or if the system
/// moved or resized the entity. This holds of the step of every system.
pub proof fn lemma_steps_keep_bounds_in_sync(
    b: Bundle,
    slots: Seq<Option<Bundle>>,
    field: Playfield,
    steer: Steer,
    target_center: int,
    delta_micros: u64,
    width: u32,
    height: u32,
)
    ensures
        ({
            let after = player_step(b, field, steer, delta_micros);
            bundle_in_sync(b) || moved_or_resized(b, after) ==> bundle_in_sync(after)
        }),
        ({
            let after = integrate_step(b, delta_micros);
            bundle_in_sync(b) || moved_or_resized(b, after) ==> bundle_in_sync(after)
        }),
        ({
            let after = wall_step(b, field);
            bundle_in_sync(b) || moved_or_resized(b, after) ==> bundle_in_sync(after)
        }),
        ({
            let after = collide_step(b, slots);
            !moved_or_resized(b, after) && (bundle_in_sync(b) ==> bundle_in_sync(after))
        }),
        ({
            let after = ai_step(b, field, target_center, delta_micros);
            bundle_in_sync(b) || moved_or_resized(b, after) ==> bundle_in_sync(after)
        }),
        ({
            let after = score_step(b, field);
            bundle_in_sync(b) || moved_or_resized(b, after) ==> bundle_in_sync(after)
        }),
        bundle_in_sync(resize_step(b, field, width, height)),
{
}

/// A tick leaves a store whose bounds were in sync with bounds in sync.
pub proof fn lemma_tick_keeps_bounds_in_sync(
    slots: Seq<Option<Bundle>>,
    field: Playfield,
    steer: Steer,
    delta_micros: u64,
)
    requires
        bounds_in_sync(slots),
    ensures
        bounds_in_sync(after_tick(slots, field, steer, delta_micros)),
{
    let steered = map_live(slots, |b: Bundle| player_step(b, field, steer, delta_micros));
    assert(bounds_in_sync(steered)) by {
        assert forall|i: int| 0 <= i < steered.len() && steered[i] is Some implies bundle_in_sync(
            steered[i]->Some_0,
        ) by {
            assert(bundle_in_sync(slots[i]->Some_0));
        }
    }
    let moved = map_live(steered, |b: Bundle| integrate_step(b, delta_micros));
    assert(bounds_in_sync(moved)) by {
        assert forall|i: int| 0 <= i < moved.len() && moved[i] is Some implies bundle_in_sync(
            moved[i]->Some_0,
        ) by {
            assert(bundle_in_sync(steered[i]->Some_0));
        }
    }
    let walled = map_live(moved, |b: Bundle| wall_step(b, field));
    assert(bounds_in_sync(walled)) by {
        assert forall|i: int| 0 <= i < walled.len() && walled[i] is Some implies bundle_in_sync(
            walled[i]->Some_0,
        ) by {
            assert(bundle_in_sync(moved[i]->Some_0));
        }
    }
    let collided = map_live(walled, |b: Bundle| collide_step(b, walled));
    assert(bounds_in_sync(collided)) by {
        assert forall|i: int|
            0 <= i < collided.len() && collided[i] is Some implies bundle_in_sync(
            collided[i]->Some_0,
        ) by {
            assert(bundle_in_sync(walled[i]->Some_0));
        }
    }
    let followed = after_ai(collided, field, delta_micros);
    assert(bounds_in_sync(followed)) by {
        assert forall|i: int|
            0 <= i < followed.len() && followed[i] is Some implies bundle_in_sync(
            followed[i]->Some_0,
        ) by {
            assert(bundle_in_sync(collided[i]->Some_0));
        }
    }
    let scored = map_live(followed, |b: Bundle| score_step(b, field));
    assert forall|i: int| 0 <= i < scored.len() && scored[i] is Some implies bundle_in_sync(
        scored[i]->Some_0,
    ) by {
        assert(bundle_in_sync(followed[i]->Some_0));
    }
}

/// A ball that crossed the left edge of the field is put in the centre of
/// the field on both axes and moves right and down at the serve speed, and
/// the opponent scores. Symmetrically, a ball whose left edge passed the
/// right edge is put in the centre, moves left and up, and the player
/// scores.
pub proof fn lemma_ball_that_left_is_served_from_the_centre(b: Bundle, field: Playfield)
    requires
        is_ball(b),
    ensures
        b.position->Some_0.x < 0 ==> {
            let after = score_step(b, field);
            &&& exit_of(b, field) == ScoreEvent::AiScored
            &&& after.position->Some_0.x == centered(field.width, b.size->Some_0.width)
            &&& after.position->Some_0.y == centered(field.height, b.size->Some_0.height)
            &&& after.velocity->Some_0.x == serve_speed(field)
            &&& after.velocity->Some_0.y == serve_speed(field)
            &&& after.velocity->Some_0.x >= 0
        },
        b.position->Some_0.x > field.width ==> {
            let after = score_step(b, field);
            &&& exit_of(b, field) == ScoreEvent::PlayerScored
            &&& after.position->Some_0.x == centered(field.width, b.size->Some_0.width)
            &&& after.position->Some_0.y == centered(field.height, b.size->Some_0.height)
            &&& after.velocity->Some_0.x == -serve_speed(field)
            &&& after.velocity->Some_0.y == -serve_speed(field)
            &&& after.velocity->Some_0.x <= 0
        },
        0 <= b.position->Some_0.x <= field.width ==> score_step(b, field) == b,
{
}

/// A ball is served once for each time it leaves the field: where the ball
/// is no wider than the field, a served ball is inside the field, so that
/// scoring it again changes nothing and gives no score.
pub proof fn lemma_served_ball_is_not_served_again(b: Bundle, field: Playfield)
    requires
        is_ball(b),
        b.size->Some_0.width <= field.width,
    ensures
        exit_of(score_step(b, field), field) == ScoreEvent::NoScore,
        score_step(score_step(b, field), field) == score_step(b, field),
{
}

/// After the player's or the opponent's movement step, for any frame
/// length, a paddle that is no higher than the field lies between the top
/// edge and the lowest place at which it still fits.
pub proof fn lemma_paddle_stays_on_track(
    b: Bundle,
    field: Playfield,
    steer: Steer,
    target_center: int,
    delta_micros: u64,
)
    requires
        b.position is Some,
        b.size is Some,
        b.size->Some_0.height <= field.height,
    ensures
        is_player_paddle(b) ==> 0 <= player_step(b, field, steer, delta_micros).position->Some_0.y
            <= field.height - b.size->Some_0.height,
        is_ai_paddle(b) ==> 0 <= ai_step(
            b,
            field,
            target_center,
            delta_micros,
        ).position->Some_0.y <= field.height - b.size->Some_0.height,
        player_step(b, field, steer, delta_micros).position->Some_0.x == b.position->Some_0.x,
        ai_step(b, field, target_center, delta_micros).position->Some_0.x == b.position->Some_0.x,
{
}

/// An opponent's paddle that is on its track does not move while its centre
/// is within the deadband of the target's centre.
pub proof fn lemma_ai_rests_within_deadband(
    b: Bundle,
    field: Playfield,
    target_center: int,
    delta_micros: u64,
)
    requires
        is_ai_paddle(b),
        0 <= b.position->Some_0.y <= field.height - b.size->Some_0.height,
        -(field.deadband as int) <= vertical_center(b) - target_center <= field.deadband,
    ensures
        ai_rate(vertical_center(b), target_center, field) == 0,
        ai_step(b, field, target_center, delta_micros).position == b.position,
        bundle_in_sync(b) ==> ai_step(b, field, target_center, delta_micros) == b,
{
    assert(0 * delta_micros == 0);
}

/// Scaling by a ratio gives the exact quotient, rounded down: for a value
/// that is not negative and a denominator that is not zero,
/// `scaled * denominator <= value * numerator < (scaled + 1) * denominator`.
pub proof fn lemma_scaled_is_the_ratio_rounded_down(value: int, numerator: u32, denominator: u32)
    requires
        value >= 0,
        denominator > 0,
    ensures
        scaled(value, numerator, denominator) * denominator <= value * numerator,
        value * numerator < (scaled(value, numerator, denominator) + 1) * denominator,
        (value * numerator) % (denominator as int) == 0 ==> scaled(value, numerator, denominator)
            * denominator == value * numerator,
{
    let product = value * numerator;
    let d = denominator as int;
    vstd::arithmetic::div_mod::lemma_fundamental_div_mod(product, d);
    vstd::arithmetic::div_mod::lemma_mod_bound(product, d);
    assert(d * (product / d) == (product / d) * d) by (nonlinear_arith);
    assert((product / d + 1) * d == (product / d) * d + d) by (nonlinear_arith);
}

/// A resize from one height to another scales the sizes and velocities of
/// the entities with a role, and both speed settings, by the ratio of the
/// new height to the old one, and makes the new extents the field's own.
pub proof fn lemma_resize_scales_by_height_ratio(
    b: Bundle,
    field: Playfield,
    width: u32,
    height: u32,
)
    ensures
        b.role is Some && b.size is Some ==> resize_step(b, field, width, height).size == Some(
            scaled_size(b.size->Some_0, height, field.height),
        ),
        b.role is Some && b.size is Some ==> resize_step(
            b,
            field,
            width,
            height,
        ).size->Some_0.height == saturate_u32(
            scaled(b.size->Some_0.height as int, height, field.height),
        ),
        resized_field(field, width, height).paddle_speed == saturate_u32(
            scaled(field.paddle_speed as int, height, field.height),
        ),
        resized_field(field, width, height).ball_speed == saturate_u32(
            scaled(field.ball_speed as int, height, field.height),
        ),
        resized_field(field, width, height).width == width,
        resized_field(field, width, height).height == height,
        resized_field(field, width, height).ai_speed_percent == field.ai_speed_percent,
        resized_field(field, width, height).deadband == field.deadband,
{
}

/// A resize keeps the distance of a right-anchored entity's right edge to
/// the right edge of the field, and of a bottom-anchored entity's bottom
/// edge to the bottom edge of the field, wherever the place that this asks
/// for is a coordinate.
pub proof fn lemma_resize_keeps_anchor_offsets(
    b: Bundle,
    field: Playfield,
    width: u32,
    height: u32,
)
    requires
        b.anchor is Some,
        b.position is Some,
        b.size is Some,
    ensures
        ({
            let after = resize_step(b, field, width, height);
            let wanted = width - after.size->Some_0.width - far_edge_offset(
                b.position->Some_0.x,
                b.size->Some_0.width,
                field.width,
            );
            b.anchor->Some_0.right && i32::MIN <= wanted <= i32::MAX ==> far_edge_offset(
                after.position->Some_0.x,
                after.size->Some_0.width,
                width,
            ) == far_edge_offset(b.position->Some_0.x, b.size->Some_0.width, field.width)
        }),
        ({
            let after = resize_step(b, field, width, height);
            let wanted = height - after.size->Some_0.height - far_edge_offset(
                b.position->Some_0.y,
                b.size->Some_0.height,
                field.height,
            );
            b.anchor->Some_0.bottom && i32::MIN <= wanted <= i32::MAX ==> far_edge_offset(
                after.position->Some_0.y,
                after.size->Some_0.height,
                height,
            ) == far_edge_offset(b.position->Some_0.y, b.size->Some_0.height, field.height)
        }),
        !b.anchor->Some_0.right ==> resize_step(b, field, width, height).position->Some_0.x
            == b.position->Some_0.x,
        !b.anchor->Some_0.bottom ==> resize_step(b, field, width, height).position->Some_0.y
            == b.position->Some_0.y,
{
}

/// The paddle lies between the top edge of the field and the lowest place
/// at which it still fits.
pub open spec fn on_track(b: Bundle, field: Playfield) -> bool {
    0 <= b.position->Some_0.y <= field.height - b.size->Some_0.height
}

/// After the player movement system, for any frame length, every player's
/// paddle that is no higher than the field is on its track.
pub proof fn lemma_player_paddles_end_on_track(
    slots: Seq<Option<Bundle>>,
    field: Playfield,
    steer: Steer,
    delta_micros: u64,
)
    ensures
        forall|i: int|
            #![trigger slots[i]]
            0 <= i < slots.len() && slots[i] is Some && is_player_paddle(slots[i]->Some_0)
                && slots[i]->Some_0.size->Some_0.height <= field.height ==> on_track(
                map_live(
                    slots,
                    |b: Bundle| player_step(b, field, steer, delta_micros),
                )[i]->Some_0,
                field,
            ),
{
    assert forall|i: int|
        #![trigger slots[i]]
        0 <= i < slots.len() && slots[i] is Some && is_player_paddle(slots[i]->Some_0)
            && slots[i]->Some_0.size->Some_0.height <= field.height implies on_track(
        map_live(slots, |b: Bundle| player_step(b, field, steer, delta_micros))[i]->Some_0,
        field,
    ) by {
        lemma_paddle_stays_on_track(slots[i]->Some_0, field, steer, 0, delta_micros);
    }
}

/// After the opponent's movement system, for any frame length, every
/// opponent's paddle that is no higher than the field is on its track,
/// provided there was a ball to follow; without one the system moves
/// nothing.
pub proof fn lemma_ai_paddles_end_on_track(
    slots: Seq<Option<Bundle>>,
    field: Playfield,
    delta_micros: u64,
)
    ensures
        !has_target(slots) ==> after_ai(slots, field, delta_micros) == slots,
        has_target(slots) ==> forall|i: int|
            #![trigger slots[i]]
            0 <= i < slots.len() && slots[i] is Some && is_ai_paddle(slots[i]->Some_0)
                && slots[i]->Some_0.size->Some_0.height <= field.height ==> on_track(
                after_ai(slots, field, delta_micros)[i]->Some_0,
                field,
            ),
{
    if has_target(slots) {
        let first = choose|k: int| is_first_target(slots, k);
        let center = vertical_center(slots[first]->Some_0);
        assert forall|i: int|
            #![trigger slots[i]]
            0 <= i < slots.len() && slots[i] is Some && is_ai_paddle(slots[i]->Some_0)
                && slots[i]->Some_0.size->Some_0.height <= field.height implies on_track(
            after_ai(slots, field, delta_micros)[i]->Some_0,
            field,
        ) by {
            lemma_paddle_stays_on_track(slots[i]->Some_0, field, Steer::Idle, center, delta_micros);
        }
    }
}

/// The opponent's movement system leaves in place every opponent's paddle
/// that is on its track and whose centre is within the deadband of the
/// centre of the ball it follows, the first ball in the store.
pub proof fn lemma_ai_system_rests_within_deadband(
    slots: Seq<Option<Bundle>>,
    field: Playfield,
    delta_micros: u64,
    ball: int,
    paddle: int,
)
    requires
        is_first_target(slots, ball),
        0 <= paddle < slots.len(),
        slots[paddle] is Some,
        is_ai_paddle(slots[paddle]->Some_0),
        on_track(slots[paddle]->Some_0, field),
        -(field.deadband as int) <= vertical_center(slots[paddle]->Some_0) - vertical_center(
            slots[ball]->Some_0,
        ) <= field.deadband,
    ensures
        after_ai(slots, field, delta_micros)[paddle]->Some_0.position
            == slots[paddle]->Some_0.position,
{
    assert(is_target_at(slots, ball));
    let first = choose|k: int| is_first_target(slots, k);
    if first < ball {
        assert(!is_target_at(slots, first));
    }
    if ball < first {
        assert(!is_target_at(slots, ball));
    }
    lemma_ai_rests_within_deadband(
        slots[paddle]->Some_0,
        field,
        vertical_center(slots[ball]->Some_0),
        delta_micros,
    );
}

/// Scaling by a ratio of one changes nothing.
pub proof fn lemma_scaled_by_one(value: int, height: u32)
    ensures
        scaled(value, height, height) == value,
{
    if height > 0 {
        let h = height as int;
        if value >= 0 {
            vstd::arithmetic::div_mod::lemma_div_by_multiple(value, h);
            assert(value * h == h * value) by (nonlinear_arith);
        } else {
            vstd::arithmetic::div_mod::lemma_div_by_multiple(-value, h);
            assert((-value) * h == h * (-value)) by (nonlinear_arith);
        }
    }
}

/// A resize to the extents that the field already has moves and resizes
/// nothing: it only recomputes the bounds.
pub proof fn lemma_resize_to_same_extents_only_syncs(b: Bundle, field: Playfield)
    ensures
        resize_step(b, field, field.width, field.height) == synced(b),
        resized_field(field, field.width, field.height) == field,
{
    lemma_scaled_by_one(field.paddle_speed as int, field.height);
    lemma_scaled_by_one(field.ball_speed as int, field.height);
    if b.size is Some {
        lemma_scaled_by_one(b.size->Some_0.width as int, field.height);
        lemma_scaled_by_one(b.size->Some_0.height as int, field.height);
        assert(scaled_size(b.size->Some_0, field.height, field.height) == b.size->Some_0);
    }
    if b.velocity is Some {
        lemma_scaled_by_one(b.velocity->Some_0.x as int, field.height);
        lemma_scaled_by_one(b.velocity->Some_0.y as int, field.height);
        assert(scaled_velocity(b.velocity->Some_0, field.height, field.height)
            == b.velocity->Some_0);
    }
}

/// Where the scaled values fit their types, a resize from one height to
/// another gives every entity with a role exactly its extents and its
/// velocity times the new height over the old one, rounded toward zero, and
/// gives the field exactly its two speeds times that ratio.
pub proof fn lemma_resize_is_exact_where_it_fits(
    b: Bundle,
    field: Playfield,
    width: u32,
    height: u32,
)
    requires
        field.height > 0,
    ensures
        ({
            let ratio_of = |value: int| scaled(value, height, field.height);
            let after = resize_step(b, field, width, height);
            &&& b.role is Some && b.size is Some && ratio_of(b.size->Some_0.width as int)
                <= u32::MAX && ratio_of(b.size->Some_0.height as int) <= u32::MAX ==> {
                &&& after.size->Some_0.width == (b.size->Some_0.width as int) * (height as int) / (
                field.height as int)
                &&& after.size->Some_0.height == (b.size->Some_0.height as int) * (height as int)
                    / (field.height as int)
            }
            &&& b.role is Some && b.velocity is Some && i32::MIN <= ratio_of(
                b.velocity->Some_0.x as int,
            ) <= i32::MAX && i32::MIN <= ratio_of(b.velocity->Some_0.y as int) <= i32::MAX ==> {
                &&& after.velocity->Some_0.x == ratio_of(b.velocity->Some_0.x as int)
                &&& after.velocity->Some_0.y == ratio_of(b.velocity->Some_0.y as int)
            }
            &&& ratio_of(field.paddle_speed as int) <= u32::MAX ==> resized_field(
                field,
                width,
                height,
            ).paddle_speed == (field.paddle_speed as int) * (height as int) / (field.height as int)
            &&& ratio_of(field.ball_speed as int) <= u32::MAX ==> resized_field(
                field,
                width,
                height,
            ).ball_speed == (field.ball_speed as int) * (height as int) / (field.height as int)
        }),
{
    assert forall|value: int| value >= 0 implies #[trigger] scaled(value, height, field.height)
        >= 0 by {
        assert(value * height >= 0) by (nonlinear_arith)
            requires
                value >= 0,
                height >= 0,
        ;
    }
}

/// Slots `a` and `b` hold live entities in the same places, with the same
/// sizes.
pub open spec fn same_sizes(a: Seq<Option<Bundle>>, b: Seq<Option<Bundle>>) -> bool {
    a.len() == b.len() && forall|i: int|
        #![trigger a[i]]
        0 <= i < a.len() ==> (a[i] is Some) == (b[i] is Some) && (a[i] is Some
            ==> a[i]->Some_0.size == b[i]->Some_0.size)
}

/// A tick resizes nothing: only a resize does. Every entity has after a
/// tick the size that it had before.
pub proof fn lemma_tick_keeps_sizes(
    slots: Seq<Option<Bundle>>,
    field: Playfield,
    steer: Steer,
    delta_micros: u64,
)
    ensures
        same_sizes(after_tick(slots, field, steer, delta_micros), slots),
{
    let steered = map_live(slots, |b: Bundle| player_step(b, field, steer, delta_micros));
    assert(same_sizes(steered, slots));
    let moved = map_live(steered, |b: Bundle| integrate_step(b, delta_micros));
    assert(same_sizes(moved, steered));
    let walled = map_live(moved, |b: Bundle| wall_step(b, field));
    assert(same_sizes(walled, moved));
    let collided = map_live(walled, |b: Bundle| collide_step(b, walled));
    assert(same_sizes(collided, walled));
    let followed = after_ai(collided, field, delta_micros);
    assert(same_sizes(followed, collided));
    let scored = map_live(followed, |b: Bundle| score_step(b, field));
    assert(same_sizes(scored, followed));
    assert(same_sizes(scored, slots)) by {
        assert forall|i: int| #![trigger scored[i]] 0 <= i < scored.len() implies (scored[i]
            is Some) == (slots[i] is Some) && (scored[i] is Some ==> scored[i]->Some_0.size
            == slots[i]->Some_0.size) by {
            let _ = followed[i];
            let _ = collided[i];
            let _ = walled[i];
            let _ = moved[i];
            let _ = steered[i];
        }
    }
}

} // verus!
