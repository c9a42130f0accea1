use wakey_2d_engine::components::{Bounds, Color, Position, Renderable, Size, Velocity};
use wakey_2d_engine::engine::{Directive, WindowEvent};
use wakey_2d_engine::input::Input;
use wakey_2d_engine::pong::{
    steer_of, Controls, Pong, AI_DEADBAND, AI_SPEED_PERCENT, BALL_SIZE, BALL_SPEED,
    PADDLE_HEIGHT, PADDLE_MARGIN, PADDLE_SPEED, PADDLE_WIDTH,
};
use wakey_2d_engine::prelude::{App, Engine, EngineConfig, Game};
use wakey_2d_engine::render::types::BufferRef;
use wakey_2d_engine::simulation::{Playfield, ScoreEvent, Steer};
use wakey_2d_engine::world::{Anchor, Role, World};

fn controls() -> Controls {
    Controls { up: 1, up_alternate: 2, down: 3, down_alternate: 4 }
}

#[test]
fn new_game_has_the_standard_settings() {
    let game = Pong::new(1280, 720, controls());
    assert_eq!(
        game.field,
        Playfield {
            width: 1280,
            height: 720,
            paddle_speed: 400,
            ball_speed: 400,
            ai_speed_percent: 70,
            deadband: 10,
        }
    );
    assert_eq!(game.controls, controls());
    assert_eq!(game.player_score, 0);
    assert_eq!(game.ai_score, 0);
    assert_eq!(
        (PADDLE_WIDTH, PADDLE_HEIGHT, PADDLE_MARGIN, PADDLE_SPEED, BALL_SIZE, BALL_SPEED),
        (20, 120, 20, 400, 10, 400)
    );
    assert_eq!((AI_SPEED_PERCENT, AI_DEADBAND), (70, 10));
}

#[test]
fn steering_follows_the_held_keys() {
    let mut input: Input<u32> = Input::new();
    assert_eq!(steer_of(&input, &controls()), Steer::Idle);
    input.press(3);
    assert_eq!(steer_of(&input, &controls()), Steer::Down);
    input.release(3);
    input.press(4);
    assert_eq!(steer_of(&input, &controls()), Steer::Down);
    input.press(2);
    assert_eq!(steer_of(&input, &controls()), Steer::Up);
    input.release(2);
    input.release(4);
    input.press(1);
    assert_eq!(steer_of(&input, &controls()), Steer::Up);
    input.release(1);
    input.press(99);
    assert_eq!(steer_of(&input, &controls()), Steer::Idle);
}

#[test]
fn setup_spawns_two_paddles_and_a_ball() {
    let game = Pong::new(1280, 720, controls());
    let mut world = World::new();
    game.setup(&mut world);
    assert_eq!(world.len(), 3);
    let player = world.get(world.entity_at(0)).unwrap();
    assert_eq!(player.role, Some(Role::PlayerPaddle));
    assert_eq!(player.position, Some(Position::new(20, 300)));
    assert_eq!(player.size, Some(Size::new(20, 120)));
    assert_eq!(player.velocity, Some(Velocity::new(0, 0)));
    assert_eq!(player.bounds, Some(Bounds { min_x: 20, min_y: 300, max_x: 40, max_y: 420 }));
    assert_eq!(player.renderable, Some(Renderable::white()));
    assert_eq!(player.anchor, None);
    let ai = world.get(world.entity_at(1)).unwrap();
    assert_eq!(ai.role, Some(Role::AiPaddle));
    assert_eq!(ai.position, Some(Position::new(1240, 300)));
    assert_eq!(ai.size, Some(Size::new(20, 120)));
    assert_eq!(ai.bounds, Some(Bounds { min_x: 1240, min_y: 300, max_x: 1260, max_y: 420 }));
    assert_eq!(ai.anchor, Some(Anchor { right: true, bottom: false }));
    let ball = world.get(world.entity_at(2)).unwrap();
    assert_eq!(ball.role, Some(Role::Ball));
    assert_eq!(ball.position, Some(Position::new(635, 355)));
    assert_eq!(ball.size, Some(Size::new(10, 10)));
    assert_eq!(ball.velocity, Some(Velocity::new(400, 400)));
    assert_eq!(ball.bounds, Some(Bounds { min_x: 635, min_y: 355, max_x: 645, max_y: 365 }));
    assert_eq!(ball.anchor, None);
}

#[test]
fn points_are_counted_up_to_the_largest_score() {
    let mut game = Pong::new(800, 600, controls());
    game.count(ScoreEvent::NoScore);
    assert_eq!((game.player_score, game.ai_score), (0, 0));
    game.count(ScoreEvent::PlayerScored);
    game.count(ScoreEvent::PlayerScored);
    game.count(ScoreEvent::AiScored);
    assert_eq!((game.player_score, game.ai_score), (2, 1));
    game.player_score = u32::MAX;
    game.ai_score = u32::MAX - 1;
    game.count(ScoreEvent::PlayerScored);
    game.count(ScoreEvent::AiScored);
    game.count(ScoreEvent::AiScored);
    assert_eq!((game.player_score, game.ai_score), (u32::MAX, u32::MAX));
}

#[test]
fn advance_runs_a_tick_and_queues_the_overlay() {
    let mut game = Pong::new(1280, 720, controls());
    let mut engine = Engine::new(1280, 720);
    game.init(&mut engine);
    engine.input_mut().press(3);
    engine.time_mut().update(100_000);
    let event = game.advance(&mut engine, 100_000);
    assert_eq!(event, ScoreEvent::NoScore);
    let world = engine.world();
    let player = world.get(world.entity_at(0)).unwrap();
    assert_eq!(player.position, Some(Position::new(20, 340)));
    let ball = world.get(world.entity_at(2)).unwrap();
    assert_eq!(ball.position, Some(Position::new(675, 395)));
    // the opponent's centre 360 is 40 above the ball's centre 400: down by 28
    let ai = world.get(world.entity_at(1)).unwrap();
    assert_eq!(ai.position, Some(Position::new(1240, 328)));
    let batch = engine.renderer_mut().drain();
    let contents: Vec<&str> = batch.shape_requests.iter().map(|r| r.content.as_str()).collect();
    assert_eq!(contents, vec!["FPS: 10", "Player: 0", "AI: 0"]);
    let sizes: Vec<u32> = batch.shape_requests.iter().map(|r| r.size).collect();
    assert_eq!(sizes, vec![10, 16, 16]);
    let places: Vec<Position> = batch.texts.iter().map(|t| t.position).collect();
    assert_eq!(
        places,
        vec![Position::new(10, 10), Position::new(10, 30), Position::new(1130, 30)]
    );
    for (i, text) in batch.texts.iter().enumerate() {
        assert_eq!(text.buffer_ref, BufferRef::Immediate(i));
        assert_eq!(text.color, Color::rgba(255, 255, 255, 255));
        assert_eq!(text.scale_percent, 100);
        assert_eq!(text.bounds, None);
    }
    assert!(batch.rectangles.is_empty());
}

#[test]
fn a_ball_that_leaves_scores_and_is_served_again() {
    let mut game = Pong::new(800, 600, controls());
    let mut engine = Engine::new(800, 600);
    game.init(&mut engine);
    // one second at 400 units per second takes the ball from 395 to 795;
    // another carries it past the right edge, through the opponent
    let ball = engine.world().entity_at(2);
    assert_eq!(game.advance(&mut engine, 1_000_000), ScoreEvent::NoScore);
    assert_eq!(engine.world().get(ball).unwrap().position.unwrap().x, 795);
    let ai = engine.world().entity_at(1);
    engine.world_mut().despawn(ai);
    assert_eq!(game.advance(&mut engine, 1_000_000), ScoreEvent::PlayerScored);
    assert_eq!((game.player_score, game.ai_score), (1, 0));
    let served = engine.world().get(ball).unwrap();
    assert_eq!(served.position, Some(Position::new(395, 295)));
    assert_eq!(served.velocity, Some(Velocity::new(-400, -400)));
    let batch = engine.renderer_mut().drain();
    assert_eq!(batch.shape_requests[4].content, "Player: 1");
    assert_eq!(batch.shape_requests[5].content, "AI: 0");
}

#[test]
fn the_game_resizes_with_the_viewport() {
    let mut game = Pong::new(1280, 720, controls());
    let mut world = World::new();
    game.setup(&mut world);
    assert!(!game.resize(&mut world, 0, 0));
    assert_eq!(game.field.height, 720);
    assert!(game.resize(&mut world, 2560, 1440));
    assert_eq!(game.field.width, 2560);
    assert_eq!(game.field.height, 1440);
    assert_eq!(game.field.paddle_speed, 800);
    assert_eq!(game.field.ball_speed, 800);
    let ai = world.get(world.entity_at(1)).unwrap();
    assert_eq!(ai.size, Some(Size::new(40, 240)));
    assert_eq!(ai.position, Some(Position::new(2500, 300)));
    assert_eq!(ai.bounds, Some(Bounds { min_x: 2500, min_y: 300, max_x: 2540, max_y: 540 }));
    let player = world.get(world.entity_at(0)).unwrap();
    assert_eq!(player.position, Some(Position::new(20, 300)));
    assert_eq!(player.size, Some(Size::new(40, 240)));
}

#[test]
fn the_game_runs_under_the_driver() {
    let config = EngineConfig::new().with_title("Pong").with_size(1280, 720);
    let game = Pong::new(config.window_width, config.window_height, controls());
    let mut driver = App::driver(config, game);
    assert!(driver.resumed(1280, 720));
    driver.window_event(WindowEvent::KeyboardInput { code: 1, pressed: true });
    let batch = match driver.window_event(WindowEvent::RedrawRequested { now_micros: 0 }) {
        Directive::Present(batch) => batch,
        _ => panic!("a frame was expected"),
    };
    assert_eq!(batch.rectangles.len(), 3);
    assert_eq!(batch.texts.len(), 3);
    assert_eq!(batch.shape_requests[0].content, "FPS: 62");
    // the first frame lasts 16 ms: the paddle moves up by 400 * 0.016 = 6
    assert_eq!(batch.rectangles[0].position, Position::new(20, 294));
    let directive = driver.window_event(WindowEvent::Resized { width: 640, height: 360 });
    assert!(matches!(directive, Directive::ConfigureSurface { width: 640, height: 360 }));
    assert_eq!(driver.game.field.height, 360);
    assert_eq!(driver.game.field.paddle_speed, 200);
    assert!(!driver.game.on_event(driver.engine.as_mut().unwrap(), &WindowEvent::Other));
}
