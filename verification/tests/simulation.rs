use wakey_2d_engine::components::{Bounds, Position, Renderable, Size, Velocity};
use wakey_2d_engine::simulation::{
    ai_paddle_system, ball_movement_system, ball_paddle_collision_system, player_paddle_system,
    resize_system, scoring_system, sync_bounds_system, tick, wall_collision_system, Playfield,
    ScoreEvent, Steer,
};
use wakey_2d_engine::world::{Anchor, Bundle, Component, Entity, Role, World};

fn field() -> Playfield {
    Playfield {
        width: 800,
        height: 600,
        paddle_speed: 400,
        ball_speed: 400,
        ai_speed_percent: 70,
        deadband: 10,
    }
}

fn piece(role: Role, x: i32, y: i32, w: u32, h: u32, vx: i32, vy: i32) -> Bundle {
    let p = Position::new(x, y);
    let s = Size::new(w, h);
    Bundle::new()
        .with(Component::Role(role))
        .with(Component::Position(p))
        .with(Component::Size(s))
        .with(Component::Velocity(Velocity::new(vx, vy)))
        .with(Component::Bounds(Bounds::from_position_and_size(p, s)))
        .with(Component::Renderable(Renderable::white()))
}

fn ball(x: i32, y: i32, vx: i32, vy: i32) -> Bundle {
    piece(Role::Ball, x, y, 10, 10, vx, vy)
}

fn paddle(role: Role, x: i32, y: i32) -> Bundle {
    piece(role, x, y, 20, 120, 0, 0)
}

fn position(world: &World, e: Entity) -> Position {
    world.get(e).unwrap().position.unwrap()
}

fn velocity(world: &World, e: Entity) -> Velocity {
    world.get(e).unwrap().velocity.unwrap()
}

fn bounds(world: &World, e: Entity) -> Bounds {
    world.get(e).unwrap().bounds.unwrap()
}

fn in_sync(world: &World, e: Entity) -> bool {
    let b = world.get(e).unwrap();
    b.bounds.unwrap() == Bounds::from_position_and_size(b.position.unwrap(), b.size.unwrap())
}

#[test]
fn one_tick_moves_the_ball_by_velocity_times_delta() {
    let mut world = World::new();
    let b = world.spawn(ball(395, 295, 400, 400));
    let event = tick(&mut world, &field(), Steer::Idle, 100_000);
    assert_eq!(event, ScoreEvent::NoScore);
    assert_eq!(position(&world, b), Position::new(435, 335));
    assert_eq!(bounds(&world, b), Bounds { min_x: 435, min_y: 335, max_x: 445, max_y: 345 });
    assert_eq!(velocity(&world, b), Velocity::new(400, 400));
}

#[test]
fn tick_runs_all_systems_in_order() {
    let mut world = World::new();
    let player = world.spawn(paddle(Role::PlayerPaddle, 20, 240));
    let ai = world.spawn(paddle(Role::AiPaddle, 760, 240));
    // The ball starts just right of the player's paddle and moves left into it.
    let b = world.spawn(ball(45, 295, -100, 0));
    let event = tick(&mut world, &field(), Steer::Down, 100_000);
    assert_eq!(event, ScoreEvent::NoScore);
    // player: 240 + 40 = 280
    assert_eq!(position(&world, player), Position::new(20, 280));
    // ball: 45 - 10 = 35; its box (35..45) overlaps the paddle's (20..40): it turns round.
    assert_eq!(position(&world, b), Position::new(35, 295));
    assert_eq!(velocity(&world, b), Velocity::new(100, 0));
    // opponent: centre 300 against the ball's centre 300: at rest.
    assert_eq!(position(&world, ai), Position::new(760, 240));
    assert!(in_sync(&world, player));
    assert!(in_sync(&world, ai));
    assert!(in_sync(&world, b));
}

#[test]
fn player_paddle_moves_up_and_down_and_rests() {
    let mut world = World::new();
    let p = world.spawn(paddle(Role::PlayerPaddle, 20, 300));
    player_paddle_system(&mut world, &field(), Steer::Up, 100_000);
    assert_eq!(position(&world, p), Position::new(20, 260));
    assert_eq!(bounds(&world, p), Bounds { min_x: 20, min_y: 260, max_x: 40, max_y: 380 });
    player_paddle_system(&mut world, &field(), Steer::Down, 50_000);
    assert_eq!(position(&world, p), Position::new(20, 280));
    player_paddle_system(&mut world, &field(), Steer::Idle, 1_000_000);
    assert_eq!(position(&world, p), Position::new(20, 280));
}

#[test]
fn player_paddle_is_clamped_to_the_field() {
    let mut world = World::new();
    let p = world.spawn(paddle(Role::PlayerPaddle, 20, 10));
    player_paddle_system(&mut world, &field(), Steer::Up, 100_000);
    assert_eq!(position(&world, p).y, 0);
    player_paddle_system(&mut world, &field(), Steer::Down, 10_000_000);
    assert_eq!(position(&world, p).y, 480);
    assert_eq!(bounds(&world, p).max_y, 600);
    player_paddle_system(&mut world, &field(), Steer::Up, u64::MAX);
    assert_eq!(position(&world, p).y, 0);
    player_paddle_system(&mut world, &field(), Steer::Down, u64::MAX);
    assert_eq!(position(&world, p).y, 480);
}

#[test]
fn player_system_leaves_other_entities_alone() {
    let mut world = World::new();
    let ai = world.spawn(paddle(Role::AiPaddle, 760, 100));
    let b = world.spawn(ball(100, 100, 50, 50));
    let bare = world.spawn(Bundle::new().with(Component::Role(Role::PlayerPaddle)));
    let gone = world.spawn(paddle(Role::PlayerPaddle, 20, 100));
    world.despawn(gone);
    player_paddle_system(&mut world, &field(), Steer::Down, 100_000);
    assert_eq!(world.get(ai), Some(paddle(Role::AiPaddle, 760, 100)));
    assert_eq!(world.get(b), Some(ball(100, 100, 50, 50)));
    assert_eq!(world.get(bare), Some(Bundle::new().with(Component::Role(Role::PlayerPaddle))));
    assert_eq!(world.get(gone), None);
}

#[test]
fn a_paddle_higher_than_the_field_ends_above_it() {
    let mut f = field();
    f.height = 100;
    let mut world = World::new();
    let p = world.spawn(paddle(Role::PlayerPaddle, 20, 0));
    player_paddle_system(&mut world, &f, Steer::Idle, 16_000);
    assert_eq!(position(&world, p).y, -20);
}

#[test]
fn ball_movement_moves_only_balls() {
    let mut world = World::new();
    let b = world.spawn(ball(10, 20, -300, 150));
    let p = world.spawn(piece(Role::PlayerPaddle, 20, 20, 20, 120, 100, 100));
    ball_movement_system(&mut world, 500_000);
    assert_eq!(position(&world, b), Position::new(-140, 95));
    assert!(in_sync(&world, b));
    assert_eq!(position(&world, p), Position::new(20, 20));
}

#[test]
fn ball_bounces_off_the_top_edge() {
    let mut world = World::new();
    let b = world.spawn(ball(100, -5, 30, -100));
    wall_collision_system(&mut world, &field());
    assert_eq!(position(&world, b), Position::new(100, 0));
    assert_eq!(velocity(&world, b), Velocity::new(30, 100));
    assert!(in_sync(&world, b));
}

#[test]
fn ball_on_the_top_edge_is_made_to_move_down() {
    let mut world = World::new();
    let up = world.spawn(ball(100, 0, 0, -7));
    let down = world.spawn(ball(100, 0, 0, 7));
    wall_collision_system(&mut world, &field());
    assert_eq!(velocity(&world, up).y, 7);
    assert_eq!(velocity(&world, down).y, 7);
}

#[test]
fn ball_bounces_off_the_bottom_edge() {
    let mut world = World::new();
    let b = world.spawn(ball(100, 595, 30, 100));
    let touching = world.spawn(ball(100, 590, 0, -100));
    let inside = world.spawn(ball(100, 589, 0, 100));
    wall_collision_system(&mut world, &field());
    assert_eq!(position(&world, b), Position::new(100, 590));
    assert_eq!(velocity(&world, b), Velocity::new(30, -100));
    assert_eq!(position(&world, touching).y, 590);
    assert_eq!(velocity(&world, touching).y, -100);
    assert_eq!(position(&world, inside).y, 589);
    assert_eq!(velocity(&world, inside).y, 100);
}

#[test]
fn ball_bounce_with_the_steepest_velocity() {
    let mut world = World::new();
    let b = world.spawn(ball(100, -1, 0, i32::MIN));
    wall_collision_system(&mut world, &field());
    assert_eq!(velocity(&world, b).y, i32::MAX);
}

#[test]
fn ball_moving_left_turns_at_the_players_paddle() {
    let mut world = World::new();
    world.spawn(paddle(Role::PlayerPaddle, 20, 240));
    let b = world.spawn(ball(35, 300, -400, 50));
    ball_paddle_collision_system(&mut world);
    assert_eq!(velocity(&world, b), Velocity::new(400, 50));
    assert_eq!(position(&world, b), Position::new(35, 300));
}

#[test]
fn ball_moving_right_turns_at_the_opponents_paddle() {
    let mut world = World::new();
    let b = world.spawn(ball(755, 300, 400, 50));
    world.spawn(paddle(Role::AiPaddle, 760, 240));
    ball_paddle_collision_system(&mut world);
    assert_eq!(velocity(&world, b), Velocity::new(-400, 50));
}

#[test]
fn ball_moving_away_from_a_paddle_passes_through_it() {
    let mut world = World::new();
    world.spawn(paddle(Role::PlayerPaddle, 20, 240));
    world.spawn(paddle(Role::AiPaddle, 760, 240));
    let leaving_player = world.spawn(ball(35, 300, 400, 0));
    let leaving_ai = world.spawn(ball(755, 300, -400, 0));
    let still = world.spawn(ball(35, 300, 0, 9));
    ball_paddle_collision_system(&mut world);
    assert_eq!(velocity(&world, leaving_player).x, 400);
    assert_eq!(velocity(&world, leaving_ai).x, -400);
    assert_eq!(velocity(&world, still), Velocity::new(0, 9));
}

#[test]
fn ball_that_only_touches_a_paddle_does_not_turn() {
    let mut world = World::new();
    world.spawn(paddle(Role::PlayerPaddle, 20, 240));
    world.spawn(paddle(Role::AiPaddle, 760, 240));
    // left edge of the ball on the right edge of the player's paddle
    let at_player = world.spawn(ball(40, 300, -400, 0));
    // right edge of the ball on the left edge of the opponent's paddle
    let at_ai = world.spawn(ball(750, 300, 400, 0));
    // bottom edge of the ball on the top edge of the player's paddle
    let above = world.spawn(ball(25, 230, -400, 0));
    ball_paddle_collision_system(&mut world);
    assert_eq!(velocity(&world, at_player).x, -400);
    assert_eq!(velocity(&world, at_ai).x, 400);
    assert_eq!(velocity(&world, above).x, -400);
}

#[test]
fn collision_uses_the_boxes_that_the_store_holds() {
    let mut world = World::new();
    world.spawn(paddle(Role::PlayerPaddle, 20, 240));
    let stale = ball(35, 300, -400, 0)
        .with(Component::Bounds(Bounds { min_x: 500, min_y: 0, max_x: 510, max_y: 10 }));
    let b = world.spawn(stale);
    ball_paddle_collision_system(&mut world);
    assert_eq!(velocity(&world, b).x, -400);
    sync_bounds_system(&mut world);
    assert!(in_sync(&world, b));
    ball_paddle_collision_system(&mut world);
    assert_eq!(velocity(&world, b).x, 400);
}

#[test]
fn opponent_follows_the_ball_outside_the_deadband() {
    let mut world = World::new();
    let ai = world.spawn(paddle(Role::AiPaddle, 760, 240));
    let b = world.spawn(ball(400, 100, 0, 0));
    // paddle centre 300, ball centre 105: up at 70 % of 400 = 280 units per second
    let followed = ai_paddle_system(&mut world, &field(), 100_000);
    assert_eq!(followed, Some(b));
    assert_eq!(position(&world, ai), Position::new(760, 212));
    assert_eq!(bounds(&world, ai), Bounds { min_x: 760, min_y: 212, max_x: 780, max_y: 332 });
    world.set(b, ball(400, 500, 0, 0));
    // paddle centre 272, ball centre 505: down
    ai_paddle_system(&mut world, &field(), 100_000);
    assert_eq!(position(&world, ai).y, 240);
}

#[test]
fn opponent_rests_within_the_deadband() {
    for ball_y in [285, 290, 295, 300, 305] {
        let mut world = World::new();
        let ai = world.spawn(paddle(Role::AiPaddle, 760, 240));
        // ball centres 290 ..= 310 against the paddle centre 300
        world.spawn(ball(400, ball_y, 0, 0));
        ai_paddle_system(&mut world, &field(), 100_000);
        assert_eq!(world.get(ai), Some(paddle(Role::AiPaddle, 760, 240)));
    }
}

#[test]
fn opponent_moves_just_outside_the_deadband() {
    let mut world = World::new();
    let ai = world.spawn(paddle(Role::AiPaddle, 760, 240));
    let b = world.spawn(ball(400, 306, 0, 0));
    ai_paddle_system(&mut world, &field(), 100_000);
    assert_eq!(position(&world, ai).y, 268);
    world.set(ai, paddle(Role::AiPaddle, 760, 240));
    world.set(b, ball(400, 284, 0, 0));
    ai_paddle_system(&mut world, &field(), 100_000);
    assert_eq!(position(&world, ai).y, 212);
}

#[test]
fn opponent_without_a_ball_does_nothing() {
    let mut world = World::new();
    let stale = paddle(Role::AiPaddle, 760, -50)
        .with(Component::Bounds(Bounds { min_x: 0, min_y: 0, max_x: 1, max_y: 1 }));
    let ai = world.spawn(stale);
    let followed = ai_paddle_system(&mut world, &field(), 100_000);
    assert_eq!(followed, None);
    assert_eq!(world.get(ai), Some(stale));
}

#[test]
fn opponent_follows_the_first_ball() {
    let mut world = World::new();
    let ai = world.spawn(paddle(Role::AiPaddle, 760, 240));
    let gone = world.spawn(ball(400, 0, 0, 0));
    world.despawn(gone);
    let first = world.spawn(ball(400, 550, 0, 0));
    world.spawn(ball(400, 0, 0, 0));
    assert_eq!(ai_paddle_system(&mut world, &field(), 100_000), Some(first));
    assert_eq!(position(&world, ai).y, 268);
}

#[test]
fn opponent_is_clamped_to_the_field() {
    let mut world = World::new();
    let ai = world.spawn(paddle(Role::AiPaddle, 760, 470));
    world.spawn(ball(400, 590, 0, 0));
    ai_paddle_system(&mut world, &field(), 1_000_000);
    assert_eq!(position(&world, ai).y, 480);
    let mut world = World::new();
    let ai = world.spawn(paddle(Role::AiPaddle, 760, 5));
    world.spawn(ball(400, 0, 0, 0));
    ai_paddle_system(&mut world, &field(), 1_000_000);
    assert_eq!(position(&world, ai).y, 0);
}

#[test]
fn opponent_speed_follows_the_difficulty() {
    let mut f = field();
    f.ai_speed_percent = 100;
    let mut world = World::new();
    let ai = world.spawn(paddle(Role::AiPaddle, 760, 240));
    world.spawn(ball(400, 0, 0, 0));
    ai_paddle_system(&mut world, &f, 100_000);
    assert_eq!(position(&world, ai).y, 200);
    f.ai_speed_percent = 0;
    ai_paddle_system(&mut world, &f, 100_000);
    assert_eq!(position(&world, ai).y, 200);
}

#[test]
fn ball_that_left_on_the_left_is_served_from_the_centre() {
    let mut world = World::new();
    let b = world.spawn(ball(-1, 17, -400, -250));
    let event = scoring_system(&mut world, &field());
    assert_eq!(event, ScoreEvent::AiScored);
    assert_eq!(position(&world, b), Position::new(395, 295));
    assert_eq!(velocity(&world, b), Velocity::new(400, 400));
    assert_eq!(bounds(&world, b), Bounds { min_x: 395, min_y: 295, max_x: 405, max_y: 305 });
}

#[test]
fn ball_is_served_once_for_each_crossing() {
    let mut world = World::new();
    let b = world.spawn(ball(-1, 17, -400, -250));
    assert_eq!(scoring_system(&mut world, &field()), ScoreEvent::AiScored);
    let served = world.get(b);
    assert_eq!(scoring_system(&mut world, &field()), ScoreEvent::NoScore);
    assert_eq!(world.get(b), served);
}

#[test]
fn ball_that_left_on_the_right_is_served_the_other_way() {
    let mut world = World::new();
    let b = world.spawn(ball(801, 17, 400, 250));
    let event = scoring_system(&mut world, &field());
    assert_eq!(event, ScoreEvent::PlayerScored);
    assert_eq!(position(&world, b), Position::new(395, 295));
    assert_eq!(velocity(&world, b), Velocity::new(-400, -400));
}

#[test]
fn ball_on_the_edges_of_the_field_has_not_left() {
    let mut world = World::new();
    let left = world.spawn(ball(0, 17, -400, 0));
    let right = world.spawn(ball(800, 17, 400, 0));
    assert_eq!(scoring_system(&mut world, &field()), ScoreEvent::NoScore);
    assert_eq!(world.get(left), Some(ball(0, 17, -400, 0)));
    assert_eq!(world.get(right), Some(ball(800, 17, 400, 0)));
}

#[test]
fn the_first_ball_that_left_gives_the_event() {
    let mut world = World::new();
    world.spawn(paddle(Role::PlayerPaddle, -50, 0));
    world.spawn(ball(10, 10, 0, 0));
    let right = world.spawn(ball(900, 10, 0, 0));
    let left = world.spawn(ball(-900, 10, 0, 0));
    assert_eq!(scoring_system(&mut world, &field()), ScoreEvent::PlayerScored);
    assert_eq!(position(&world, right), Position::new(395, 295));
    assert_eq!(position(&world, left), Position::new(395, 295));
    assert_eq!(velocity(&world, right), Velocity::new(-400, -400));
    assert_eq!(velocity(&world, left), Velocity::new(400, 400));
}

#[test]
fn serve_speed_stops_at_the_largest_velocity() {
    let mut f = field();
    f.ball_speed = u32::MAX;
    let mut world = World::new();
    let b = world.spawn(ball(-1, 0, 0, 0));
    scoring_system(&mut world, &f);
    assert_eq!(velocity(&world, b), Velocity::new(i32::MAX, i32::MAX));
}

#[test]
fn resize_scales_sizes_and_speeds_by_the_height_ratio() {
    let mut f = field();
    let mut world = World::new();
    let player = world.spawn(paddle(Role::PlayerPaddle, 20, 240));
    let b = world.spawn(ball(395, 295, 400, -400));
    assert!(resize_system(&mut world, &mut f, 1600, 1200));
    assert_eq!(
        f,
        Playfield {
            width: 1600,
            height: 1200,
            paddle_speed: 800,
            ball_speed: 800,
            ai_speed_percent: 70,
            deadband: 10,
        }
    );
    let p = world.get(player).unwrap();
    assert_eq!(p.size, Some(Size::new(40, 240)));
    assert_eq!(p.position, Some(Position::new(20, 240)));
    assert_eq!(p.bounds, Some(Bounds { min_x: 20, min_y: 240, max_x: 60, max_y: 480 }));
    let ball_now = world.get(b).unwrap();
    assert_eq!(ball_now.size, Some(Size::new(20, 20)));
    assert_eq!(ball_now.velocity, Some(Velocity::new(800, -800)));
    assert_eq!(ball_now.position, Some(Position::new(395, 295)));
    assert!(in_sync(&world, b));
}

#[test]
fn resize_to_a_smaller_viewport_rounds_toward_zero() {
    let mut f = field();
    let mut world = World::new();
    let b = world.spawn(ball(395, 295, 401, -401));
    assert!(resize_system(&mut world, &mut f, 400, 300));
    assert_eq!(f.paddle_speed, 200);
    let ball_now = world.get(b).unwrap();
    assert_eq!(ball_now.size, Some(Size::new(5, 5)));
    assert_eq!(ball_now.velocity, Some(Velocity::new(200, -200)));
}

#[test]
fn resize_keeps_the_offset_of_anchored_entities() {
    let mut f = field();
    let mut world = World::new();
    let right = Anchor { right: true, bottom: false };
    let ai = world.spawn(paddle(Role::AiPaddle, 760, 240).with(Component::Anchor(right)));
    let both = Anchor { right: true, bottom: true };
    let label = world.spawn(
        Bundle::new()
            .with(Component::Position(Position::new(700, 550)))
            .with(Component::Size(Size::new(90, 40)))
            .with(Component::Anchor(both)),
    );
    assert!(resize_system(&mut world, &mut f, 1600, 1200));
    // the paddle was 20 from the right edge and is now 40 wide: 1600 - 40 - 20
    let p = world.get(ai).unwrap();
    assert_eq!(p.size, Some(Size::new(40, 240)));
    assert_eq!(p.position, Some(Position::new(1540, 240)));
    assert_eq!(p.bounds, Some(Bounds { min_x: 1540, min_y: 240, max_x: 1580, max_y: 480 }));
    // without a role the label keeps its size; it was 10 from both edges
    let l = world.get(label).unwrap();
    assert_eq!(l.size, Some(Size::new(90, 40)));
    assert_eq!(l.position, Some(Position::new(1500, 1150)));
}

#[test]
fn resize_recomputes_all_bounds() {
    let mut f = field();
    let mut world = World::new();
    let stale = Bundle::new()
        .with(Component::Position(Position::new(5, 6)))
        .with(Component::Size(Size::new(7, 8)))
        .with(Component::Bounds(Bounds { min_x: 0, min_y: 0, max_x: 0, max_y: 0 }));
    let e = world.spawn(stale);
    assert!(resize_system(&mut world, &mut f, 801, 601));
    assert_eq!(bounds(&world, e), Bounds { min_x: 5, min_y: 6, max_x: 12, max_y: 14 });
}

#[test]
fn resize_to_a_viewport_without_area_is_ignored() {
    let mut world = World::new();
    let ai = world.spawn(paddle(Role::AiPaddle, 760, 240));
    for (w, h) in [(0, 0), (0, 600), (800, 0)] {
        let mut f = field();
        assert!(!resize_system(&mut world, &mut f, w, h));
        assert_eq!(f, field());
        assert_eq!(world.get(ai), Some(paddle(Role::AiPaddle, 760, 240)));
    }
}

#[test]
fn resize_back_and_forth_restores_even_sizes() {
    let mut f = field();
    let mut world = World::new();
    let p = world.spawn(paddle(Role::PlayerPaddle, 20, 240));
    assert!(resize_system(&mut world, &mut f, 1600, 1200));
    assert!(resize_system(&mut world, &mut f, 800, 600));
    assert_eq!(f, field());
    assert_eq!(world.get(p), Some(paddle(Role::PlayerPaddle, 20, 240)));
}

#[test]
fn sync_bounds_recomputes_what_is_stale() {
    let mut world = World::new();
    let stale = world.spawn(
        ball(1, 2, 0, 0).with(Component::Bounds(Bounds { min_x: 9, min_y: 9, max_x: 9, max_y: 9 })),
    );
    let unboxed = world.spawn(
        Bundle::new()
            .with(Component::Position(Position::new(1, 1)))
            .with(Component::Size(Size::square(1))),
    );
    sync_bounds_system(&mut world);
    assert_eq!(bounds(&world, stale), Bounds { min_x: 1, min_y: 2, max_x: 11, max_y: 12 });
    assert_eq!(world.get(unboxed).unwrap().bounds, None);
}

#[test]
fn systems_on_an_empty_world_do_nothing() {
    let mut world = World::new();
    let mut f = field();
    assert_eq!(tick(&mut world, &f, Steer::Up, 16_000), ScoreEvent::NoScore);
    assert!(resize_system(&mut world, &mut f, 10, 10));
    assert_eq!(world.len(), 0);
}
