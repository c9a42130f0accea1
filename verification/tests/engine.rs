use wakey_2d_engine::components::{Color, Position, Renderable, Size};
use wakey_2d_engine::engine::app::{begin_frame, end_frame, record_key};
use wakey_2d_engine::engine::config::{DEFAULT_WINDOW_HEIGHT, DEFAULT_WINDOW_WIDTH};
use wakey_2d_engine::engine::{Directive, EngineApp, FramePhase};
use wakey_2d_engine::prelude::{App, Engine, EngineConfig, Game};
use wakey_2d_engine::engine::WindowEvent;
use wakey_2d_engine::render::types::QueuedRectangle;
use wakey_2d_engine::systems::render_system;
use wakey_2d_engine::world::{Bundle, Component};

#[derive(Default)]
struct Recorder {
    inits: u32,
    deltas: Vec<u64>,
    resizes: Vec<(u32, u32)>,
    events: Vec<WindowEvent>,
    saw_just_pressed: Vec<bool>,
}

impl Game for Recorder {
    fn init(&mut self, engine: &mut Engine) {
        self.inits += 1;
        engine.world_mut().spawn(
            Bundle::new()
                .with(Component::Position(Position::new(1, 2)))
                .with(Component::Size(Size::new(3, 4)))
                .with(Component::Renderable(Renderable::red())),
        );
    }

    fn update(&mut self, engine: &mut Engine, delta_micros: u64) {
        self.deltas.push(delta_micros);
        self.saw_just_pressed.push(engine.input().is_just_pressed(30));
        engine.renderer_mut().queue_rectangle(9, 9, 9, 9, Color::rgba(0, 0, 0, 255));
    }

    fn on_resize(&mut self, _engine: &mut Engine, width: u32, height: u32) {
        self.resizes.push((width, height));
    }

    fn on_event(&mut self, _engine: &mut Engine, event: &WindowEvent) -> bool {
        self.events.push(*event);
        true
    }
}

struct Silent;

impl Game for Silent {
    fn init(&mut self, _engine: &mut Engine) {}

    fn update(&mut self, _engine: &mut Engine, _delta_micros: u64) {}

    fn on_resize(&mut self, _engine: &mut Engine, _width: u32, _height: u32) {}
}

fn started() -> EngineApp<Recorder> {
    let mut driver = App::driver(EngineConfig::new(), Recorder::default());
    assert!(driver.resumed(800, 600));
    driver
}

#[test]
fn default_config() {
    let c = EngineConfig::new();
    assert_eq!(c.window_title, "Wakey 2D Engine");
    assert_eq!(c.window_width, 800);
    assert_eq!(c.window_height, 600);
    assert_eq!(DEFAULT_WINDOW_WIDTH, 800);
    assert_eq!(DEFAULT_WINDOW_HEIGHT, 600);
    let d = EngineConfig::default();
    assert_eq!(d.window_title, c.window_title);
    assert_eq!(d.window_width, c.window_width);
    assert_eq!(d.window_height, c.window_height);
}

#[test]
fn config_builders() {
    let c = EngineConfig::new().with_title("Pong").with_size(1280, 720);
    assert_eq!(c.window_title, "Pong");
    assert_eq!(c.window_width, 1280);
    assert_eq!(c.window_height, 720);
    let c = c.with_title("");
    assert_eq!(c.window_title, "");
    assert_eq!(c.window_width, 1280);
}

#[test]
fn config_keeps_its_size_when_asked_for_no_area() {
    let c = EngineConfig::new().with_size(0, 720);
    assert_eq!((c.window_width, c.window_height), (800, 600));
    let c = c.with_size(1280, 0);
    assert_eq!((c.window_width, c.window_height), (800, 600));
    let c = c.with_size(1, 1);
    assert_eq!((c.window_width, c.window_height), (1, 1));
}

#[test]
fn new_context_is_empty() {
    let mut engine = Engine::new(640, 480);
    assert_eq!(engine.renderer().viewport(), (640, 480));
    assert_eq!(engine.world().len(), 0);
    assert!(!engine.input().is_pressed(0));
    assert_eq!(engine.time().frame_count(), 0);
    engine.time_mut().update(5);
    assert_eq!(engine.time().delta_time(), 5);
    engine.input_mut().press(4);
    assert!(engine.input().is_pressed(4));
    engine.world_mut().spawn(Bundle::new());
    assert_eq!(engine.world().len(), 1);
    engine.renderer_mut().queue_rectangle(0, 0, 1, 1, Color::rgba(0, 0, 0, 0));
    assert_eq!(engine.renderer().queued_rectangle_count(), 1);
}

#[test]
fn driver_waits_for_its_window() {
    let mut driver = App::driver(EngineConfig::new().with_title("t"), Recorder::default());
    assert!(driver.needs_window());
    assert!(driver.engine.is_none());
    assert!(!driver.initialized);
    assert_eq!(driver.config.window_title, "t");
    assert_eq!(driver.last_frame_time, None);
    assert_eq!(driver.dropped_frames, 0);
    assert_eq!(driver.phase, FramePhase::Idle);
    assert!(matches!(
        driver.window_event(WindowEvent::RedrawRequested { now_micros: 5 }),
        Directive::RequestRedraw
    ));
    assert_eq!(driver.phase, FramePhase::Idle);
    assert!(matches!(driver.frame_submitted(false), Directive::Idle));
    assert_eq!(driver.dropped_frames, 0);
    assert!(matches!(
        driver.window_event(WindowEvent::Resized { width: 10, height: 10 }),
        Directive::Idle
    ));
    assert!(matches!(
        driver.window_event(WindowEvent::KeyboardInput { code: 1, pressed: true }),
        Directive::Idle
    ));
    assert!(matches!(driver.window_event(WindowEvent::Other), Directive::Idle));
    assert!(driver.needs_window());
    assert_eq!(driver.last_frame_time, None);
    assert_eq!(driver.game.inits, 0);
    assert!(driver.game.deltas.is_empty());
    assert!(driver.game.resizes.is_empty());
    assert!(driver.game.events.is_empty());
}

#[test]
fn resumed_sets_the_game_up_once() {
    let mut driver = started();
    assert!(!driver.needs_window());
    assert!(driver.initialized);
    assert_eq!(driver.game.inits, 1);
    assert!(!driver.resumed(10, 10));
    assert_eq!(driver.game.inits, 1);
    let engine = driver.engine.as_ref().unwrap();
    assert_eq!(engine.renderer().viewport(), (800, 600));
    assert_eq!(engine.world().len(), 1);
}

#[test]
fn close_request_asks_to_exit() {
    let mut driver = started();
    assert!(matches!(driver.window_event(WindowEvent::CloseRequested), Directive::Exit));
    let mut waiting = App::driver(EngineConfig::new(), Silent);
    assert!(matches!(waiting.window_event(WindowEvent::CloseRequested), Directive::Exit));
}

#[test]
fn redraw_runs_one_frame_and_hands_out_the_batch() {
    let mut driver = started();
    let directive = driver.window_event(WindowEvent::RedrawRequested { now_micros: 1_000_000 });
    let batch = match directive {
        Directive::Present(batch) => batch,
        _ => panic!("a frame was expected"),
    };
    // what the game queued comes first, then the drawn entities
    assert_eq!(
        batch.rectangles,
        vec![
            QueuedRectangle {
                position: Position::new(9, 9),
                size: Size::new(9, 9),
                color: Color::rgba(0, 0, 0, 255),
            },
            QueuedRectangle {
                position: Position::new(1, 2),
                size: Size::new(3, 4),
                color: Color::rgba(255, 0, 0, 255),
            },
        ]
    );
    assert_eq!(driver.game.deltas, vec![16_000]);
    assert_eq!(driver.last_frame_time, Some(1_000_000));
    let engine = driver.engine.as_ref().unwrap();
    assert_eq!(engine.time().delta_time(), 16_000);
    assert_eq!(engine.time().frame_count(), 1);
    assert_eq!(engine.renderer().queued_rectangle_count(), 0);

    let directive = driver.window_event(WindowEvent::RedrawRequested { now_micros: 1_016_667 });
    assert!(matches!(directive, Directive::Present(_)));
    assert_eq!(driver.game.deltas, vec![16_000, 16_667]);
    let engine = driver.engine.as_ref().unwrap();
    assert_eq!(engine.time().elapsed_time(), 32_667);
    assert_eq!(engine.time().frame_count(), 2);
}

#[test]
fn a_failed_frame_leaves_nothing_behind() {
    let mut driver = started();
    let first = match driver.window_event(WindowEvent::RedrawRequested { now_micros: 10 }) {
        Directive::Present(batch) => batch,
        _ => panic!("a frame was expected"),
    };
    assert_eq!(driver.phase, FramePhase::Submit);
    assert!(matches!(driver.frame_submitted(false), Directive::RequestRedraw));
    assert_eq!(driver.phase, FramePhase::Idle);
    assert_eq!(driver.dropped_frames, 1);
    // a second report for the same frame counts nothing
    assert!(matches!(driver.frame_submitted(false), Directive::Idle));
    assert_eq!(driver.dropped_frames, 1);
    let second = match driver.window_event(WindowEvent::RedrawRequested { now_micros: 20 }) {
        Directive::Present(batch) => batch,
        _ => panic!("a frame was expected"),
    };
    assert_eq!(first.rectangles.len(), 2);
    assert_eq!(second.rectangles, first.rectangles);
    assert!(matches!(driver.frame_submitted(true), Directive::RequestRedraw));
    assert_eq!(driver.dropped_frames, 1);
    assert_eq!(driver.game.deltas, vec![16_000, 10]);
}

#[test]
fn key_events_reach_the_input_state() {
    let mut driver = started();
    assert!(matches!(
        driver.window_event(WindowEvent::KeyboardInput { code: 30, pressed: true }),
        Directive::Idle
    ));
    {
        let engine = driver.engine.as_ref().unwrap();
        assert!(engine.input().is_pressed(30));
        assert!(engine.input().is_just_pressed(30));
    }
    // the frame forgets the change before the game looks
    driver.window_event(WindowEvent::RedrawRequested { now_micros: 1 });
    assert_eq!(driver.game.saw_just_pressed, vec![false]);
    assert!(driver.engine.as_ref().unwrap().input().is_pressed(30));
    driver.window_event(WindowEvent::KeyboardInput { code: 30, pressed: false });
    let engine = driver.engine.as_ref().unwrap();
    assert!(!engine.input().is_pressed(30));
    assert!(engine.input().is_just_released(30));
    assert!(driver.game.events.is_empty());
}

#[test]
fn resize_reaches_renderer_and_game_once() {
    let mut driver = started();
    let directive = driver.window_event(WindowEvent::Resized { width: 1024, height: 768 });
    assert!(matches!(directive, Directive::ConfigureSurface { width: 1024, height: 768 }));
    assert_eq!(driver.game.resizes, vec![(1024, 768)]);
    assert_eq!(driver.engine.as_ref().unwrap().renderer().viewport(), (1024, 768));
    driver.window_event(WindowEvent::RedrawRequested { now_micros: 1 });
    assert_eq!(driver.game.resizes, vec![(1024, 768)]);
}

#[test]
fn resize_without_area_is_ignored() {
    let mut driver = started();
    for (width, height) in [(0, 0), (0, 10), (10, 0)] {
        let directive = driver.window_event(WindowEvent::Resized { width, height });
        assert!(matches!(directive, Directive::Idle));
    }
    assert!(driver.game.resizes.is_empty());
    assert_eq!(driver.engine.as_ref().unwrap().renderer().viewport(), (800, 600));
}

#[test]
fn other_events_go_to_the_game() {
    let mut driver = started();
    let events = [
        WindowEvent::PointerMoved { x: 3, y: 4 },
        WindowEvent::PointerButton { button: 1, pressed: true },
        WindowEvent::FocusChanged { focused: false },
        WindowEvent::Other,
    ];
    for event in events {
        assert!(matches!(driver.window_event(event), Directive::Idle));
    }
    assert_eq!(driver.game.events, events.to_vec());
    assert!(driver.game.deltas.is_empty());
}

#[test]
fn a_game_need_not_handle_events() {
    let mut driver = App::driver(EngineConfig::new(), Silent);
    driver.resumed(1, 1);
    assert!(matches!(driver.window_event(WindowEvent::Other), Directive::Idle));
    let mut engine = Engine::new(1, 1);
    assert!(!Silent.on_event(&mut engine, &WindowEvent::Other));
}

#[test]
fn frame_halves() {
    let mut engine = Engine::new(800, 600);
    record_key(&mut engine, 5, true);
    assert!(engine.input().is_just_pressed(5));
    assert_eq!(begin_frame(&mut engine, Some(100), 350), 250);
    assert!(engine.input().is_pressed(5));
    assert!(!engine.input().is_just_pressed(5));
    assert_eq!(engine.time().delta_time(), 250);
    record_key(&mut engine, 5, false);
    assert!(engine.input().is_just_released(5));
    engine.world_mut().spawn(
        Bundle::new()
            .with(Component::Position(Position::new(1, 2)))
            .with(Component::Size(Size::new(3, 4)))
            .with(Component::Renderable(Renderable::blue())),
    );
    engine.renderer_mut().queue_text("hud", Position::new(0, 0), 10, Color::rgba(1, 1, 1, 1));
    let batch = end_frame(&mut engine);
    assert_eq!(batch.rectangles.len(), 1);
    assert_eq!(batch.rectangles[0].color, Color::rgba(0, 0, 255, 255));
    assert_eq!(batch.texts.len(), 1);
    assert_eq!(batch.shape_requests.len(), 1);
    assert_eq!(engine.renderer().queued_rectangle_count(), 0);
    assert_eq!(engine.renderer().queued_text_count(), 0);
    assert_eq!(engine.renderer().shape_request_count(), 0);
    assert_eq!(engine.world().len(), 1);
}

#[test]
fn render_system_draws_entities_with_position_size_and_renderable() {
    let mut engine = Engine::new(800, 600);
    let full = Bundle::new()
        .with(Component::Position(Position::new(10, 20)))
        .with(Component::Size(Size::new(30, 40)))
        .with(Component::Renderable(Renderable::green()));
    let world = engine.world_mut();
    world.spawn(full);
    world.spawn(full.without(wakey_2d_engine::world::ComponentKind::Renderable));
    world.spawn(full.without(wakey_2d_engine::world::ComponentKind::Size));
    world.spawn(full.without(wakey_2d_engine::world::ComponentKind::Position));
    let gone = world.spawn(full);
    world.despawn(gone);
    world.spawn(full.with(Component::Position(Position::new(-1, -2))));
    engine.renderer_mut().queue_rectangle(0, 0, 1, 1, Color::rgba(9, 9, 9, 9));
    render_system(&mut engine);
    let batch = engine.renderer_mut().drain();
    assert_eq!(
        batch.rectangles,
        vec![
            QueuedRectangle {
                position: Position::new(0, 0),
                size: Size::new(1, 1),
                color: Color::rgba(9, 9, 9, 9),
            },
            QueuedRectangle {
                position: Position::new(10, 20),
                size: Size::new(30, 40),
                color: Color::rgba(0, 255, 0, 255),
            },
            QueuedRectangle {
                position: Position::new(-1, -2),
                size: Size::new(30, 40),
                color: Color::rgba(0, 255, 0, 255),
            },
        ]
    );
    assert_eq!(engine.world().len(), 6);
}
