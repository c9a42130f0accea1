//! A paddle-and-ball game on the engine: two paddles, one steered by the
//! player and one by the built-in opponent, and a ball between them.

use crate::components::{Bounds, Color, Position, Renderable, Size, Velocity, bounds_of};
use crate::engine::context::Engine;
use crate::engine::game::Game;
use crate::format::{decimal, labelled};
use crate::input::Input;
use crate::motion::{center_offset, centered, saturate_i32, saturate_to_i32};
use crate::render::queue::RendererView;
use crate::simulation::{
    Playfield,
    ScoreEvent,
    Steer,
    after_tick,
    bounds_in_sync,
    map_live,
    resize_step,
    resize_system,
    resized_field,
    serve_speed,
    tick,
    tick_event,
};
use crate::time::fps_spec;
use crate::world::{Anchor, Bundle, Role, World};
use vstd::prelude::*;

verus! {

/// Width of a paddle at the start.
pub const PADDLE_WIDTH: u32 = 20;

/// Height of a paddle at the start.
pub const PADDLE_HEIGHT: u32 = 120;

/// Distance of each paddle from its own side of the field.
pub const PADDLE_MARGIN: u32 = 20;

/// Speed of the player's paddle, in units per second.
pub const PADDLE_SPEED: u32 = 400;

/// Width and height of the ball at the start.
pub const BALL_SIZE: u32 = 10;

/// Speed of a served ball on each axis, in units per second.
pub const BALL_SPEED: u32 = 400;

/// Speed of the opponent's paddle, as a percentage of the player's.
pub const AI_SPEED_PERCENT: u8 = 70;

/// How far the opponent lets the ball's centre stray before it moves.
pub const AI_DEADBAND: u32 = 10;

/// The key codes that steer the player's paddle: two for each direction.
#[derive(Clone, Copy, Debug, PartialEq, Eq, Structural)]
pub struct Controls {
    pub up: u32,
    pub up_alternate: u32,
    pub down: u32,
    pub down_alternate: u32,
}

/// The game: its field and settings, its controls and the score.
#[derive(Clone, Copy, Debug, PartialEq, Eq, Structural)]
pub struct Pong {
    pub field: Playfield,
    pub controls: Controls,
    pub player_score: u32,
    pub ai_score: u32,
}

/// What the held keys ask of the paddle: up while a key for up is held,
/// else down while a key for down is held, else nothing.
pub open spec fn steer_spec(pressed: Set<u32>, controls: Controls) -> Steer {
    if pressed.contains(controls.up) || pressed.contains(controls.up_alternate) {
        Steer::Up
    } else if pressed.contains(controls.down) || pressed.contains(controls.down_alternate) {
        Steer::Down
    } else {
        Steer::Idle
    }
}

/// Reads the steering request off the input state.
pub fn steer_of(input: &Input<u32>, controls: &Controls) -> (steer: Steer)
    ensures
        steer == steer_spec(input.pressed_set(), *controls),
{
    if input.is_pressed(controls.up) || input.is_pressed(controls.up_alternate) {
        Steer::Up
    } else if input.is_pressed(controls.down) || input.is_pressed(controls.down_alternate) {
        Steer::Down
    } else {
        Steer::Idle
    }
}

/// `score + 1`, stopping at the largest `u32`.
pub open spec fn next_score(score: u32) -> u32 {
    if score == u32::MAX {
        score
    } else {
        (score + 1) as u32
    }
}

/// A white entity with the given place, size, velocity and role, and with
/// the bounds that its place and size give.
pub open spec fn piece(
    position: Position,
    size: Size,
    velocity: Velocity,
    role: Role,
    anchor: Option<Anchor>,
) -> Bundle {
    Bundle {
        position: Some(position),
        velocity: Some(velocity),
        size: Some(size),
        bounds: Some(bounds_of(position, size)),
        renderable: Some(Renderable { color: Color { r: 255, g: 255, b: 255, a: 255 } }),
        role: Some(role),
        anchor,
    }
}

/// The player's paddle at the start: at the left margin, centred
/// vertically, at rest.
pub open spec fn player_paddle(field: Playfield) -> Bundle {
    piece(
        Position { x: PADDLE_MARGIN as i32, y: centered(field.height, PADDLE_HEIGHT) as i32 },
        Size { width: PADDLE_WIDTH, height: PADDLE_HEIGHT },
        Velocity { x: 0, y: 0 },
        Role::PlayerPaddle,
        None,
    )
}

/// The opponent's paddle at the start: at the right margin, to which it is
/// anchored, centred vertically, at rest.
pub open spec fn ai_paddle(field: Playfield) -> Bundle {
    piece(
        Position {
            x: saturate_i32(field.width - PADDLE_WIDTH - PADDLE_MARGIN),
            y: centered(field.height, PADDLE_HEIGHT) as i32,
        },
        Size { width: PADDLE_WIDTH, height: PADDLE_HEIGHT },
        Velocity { x: 0, y: 0 },
        Role::AiPaddle,
        Some(Anchor { right: true, bottom: false }),
    )
}

/// The ball at the start: in the centre of the field, moving right and
/// down at the serve speed.
pub open spec fn ball(field: Playfield) -> Bundle {
    piece(
        Position {
            x: centered(field.width, BALL_SIZE) as i32,
            y: centered(field.height, BALL_SIZE) as i32,
        },
        Size { width: BALL_SIZE, height: BALL_SIZE },
        Velocity { x: serve_speed(field), y: serve_speed(field) },
        Role::Ball,
        None,
    )
}

/// The renderer with the three texts of the game's overlay queued by
/// content: the frame rate at the top left, the player's score below it,
/// and the opponent's score at the same height near the right edge.
pub open spec fn overlay_queued(
    renderer: RendererView,
    fps: u64,
    player_score: u32,
    ai_score: u32,
    field_width: u32,
) -> RendererView {
    let white = Color { r: 255, g: 255, b: 255, a: 255 };
    renderer.with_text_queued(
        "FPS: "@ + decimal(fps as nat),
        Position { x: 10, y: 10 },
        10,
        white,
    ).with_text_queued(
        "Player: "@ + decimal(player_score as nat),
        Position { x: 10, y: 30 },
        16,
        white,
    ).with_text_queued(
        "AI: "@ + decimal(ai_score as nat),
        Position { x: saturate_i32(field_width - 150), y: 30 },
        16,
        white,
    )
}

fn make_piece(
    position: Position,
    size: Size,
    velocity: Velocity,
    role: Role,
    anchor: Option<Anchor>,
) -> (bundle: Bundle)
    ensures
        bundle == piece(position, size, velocity, role, anchor),
{
    Bundle {
        position: Some(position),
        velocity: Some(velocity),
        size: Some(size),
        bounds: Some(Bounds::from_position_and_size(position, size)),
        renderable: Some(Renderable::white()),
        role: Some(role),
        anchor,
    }
}

impl Pong {
    /// The game after `event`: the side that scored has one more point,
    /// up to the largest score that can be counted.
    pub open spec fn scored(self, event: ScoreEvent) -> Pong {
        match event {
            ScoreEvent::PlayerScored => Pong { player_score: next_score(self.player_score), ..self },
            ScoreEvent::AiScored => Pong { ai_score: next_score(self.ai_score), ..self },
            ScoreEvent::NoScore => self,
        }
    }

    /// A new game on a field of `width` by `height`, at nil all.
    pub fn new(width: u32, height: u32, controls: Controls) -> (game: Self)
        ensures
            game == (Pong {
                field: Playfield {
                    width,
                    height,
                    paddle_speed: PADDLE_SPEED,
                    ball_speed: BALL_SPEED,
                    ai_speed_percent: AI_SPEED_PERCENT,
                    deadband: AI_DEADBAND,
                },
                controls,
                player_score: 0,
                ai_score: 0,
            }),
    {
        Pong {
            field: Playfield {
                width,
                height,
                paddle_speed: PADDLE_SPEED,
                ball_speed: BALL_SPEED,
                ai_speed_percent: AI_SPEED_PERCENT,
                deadband: AI_DEADBAND,
            },
            controls,
            player_score: 0,
            ai_score: 0,
        }
    }

    /// Spawns the player's paddle, the opponent's paddle and the ball, in
    /// this order.
    pub fn setup(&self, world: &mut World)
        ensures
            final(world)@ == old(world)@.push(Some(player_paddle(self.field))).push(
                Some(ai_paddle(self.field)),
            ).push(Some(ball(self.field))),
            bounds_in_sync(old(world)@) ==> bounds_in_sync(final(world)@),
    {
        let paddle_size = Size::new(PADDLE_WIDTH, PADDLE_HEIGHT);
        let paddle_y = center_offset(self.field.height, PADDLE_HEIGHT);
        let at_rest = Velocity::new(0, 0);
        world.spawn(
            make_piece(
                Position::new(PADDLE_MARGIN as i32, paddle_y),
                paddle_size,
                at_rest,
                Role::PlayerPaddle,
                None,
            ),
        );
        let right = saturate_to_i32(
            self.field.width as i128 - PADDLE_WIDTH as i128 - PADDLE_MARGIN as i128,
        );
        world.spawn(
            make_piece(
                Position::new(right, paddle_y),
                paddle_size,
                at_rest,
                Role::AiPaddle,
                Some(Anchor { right: true, bottom: false }),
            ),
        );
        let speed = saturate_to_i32(self.field.ball_speed as i128);
        world.spawn(
            make_piece(
                Position::new(
                    center_offset(self.field.width, BALL_SIZE),
                    center_offset(self.field.height, BALL_SIZE),
                ),
                Size::square(BALL_SIZE),
                Velocity::new(speed, speed),
                Role::Ball,
                None,
            ),
        );
    }

    /// Counts the point of `event`, if it is one.
    pub fn count(&mut self, event: ScoreEvent)
        ensures
            *final(self) == old(self).scored(event),
    {
        match event {
            ScoreEvent::PlayerScored => {
                if self.player_score < u32::MAX {
                    self.player_score = self.player_score + 1;
                }
            },
            ScoreEvent::AiScored => {
                if self.ai_score < u32::MAX {
                    self.ai_score = self.ai_score + 1;
                }
            },
            ScoreEvent::NoScore => {},
        }
    }

    /// Runs one frame of the game: steers the player's paddle by the held
    /// keys, runs one tick of the simulation, counts the point if one was
    /// scored, and queues the overlay with the frame rate and the score.
    pub fn advance(&mut self, engine: &mut Engine, delta_micros: u64) -> (event: ScoreEvent)
        ensures
            event == tick_event(
                old(engine).world@,
                old(self).field,
                steer_spec(old(engine).input.pressed_set(), old(self).controls),
                delta_micros,
            ),
            final(engine).world@ == after_tick(
                old(engine).world@,
                old(self).field,
                steer_spec(old(engine).input.pressed_set(), old(self).controls),
                delta_micros,
            ),
            bounds_in_sync(old(engine).world@) ==> bounds_in_sync(final(engine).world@),
            *final(self) == old(self).scored(event),
            final(engine).renderer@ == overlay_queued(
                old(engine).renderer@,
                fps_spec(old(engine).time.delta_time()),
                final(self).player_score,
                final(self).ai_score,
                old(self).field.width,
            ),
            final(engine).input == old(engine).input,
            final(engine).time == old(engine).time,
    {
        let steer = steer_of(&engine.input, &self.controls);
        let event = tick(&mut engine.world, &self.field, steer, delta_micros);
        self.count(event);
        let white = Color::rgba(255, 255, 255, 255);
        let fps = labelled("FPS: ", engine.time.fps());
        engine.renderer.queue_text(fps.as_str(), Position::new(10, 10), 10, white);
        let player = labelled("Player: ", self.player_score as u64);
        engine.renderer.queue_text(player.as_str(), Position::new(10, 30), 16, white);
        let opponent = labelled("AI: ", self.ai_score as u64);
        let right = saturate_to_i32(self.field.width as i128 - 150);
        engine.renderer.queue_text(opponent.as_str(), Position::new(right, 30), 16, white);
        event
    }

    /// Adapts the game to a viewport of `width` by `height`; one without
    /// area is ignored.
    pub fn resize(&mut self, world: &mut World, width: u32, height: u32) -> (applied: bool)
        ensures
            applied == (width > 0 && height > 0),
            applied ==> {
                &&& final(world)@ == map_live(
                    old(world)@,
                    |b: Bundle| resize_step(b, old(self).field, width, height),
                )
                &&& *final(self) == (Pong {
                    field: resized_field(old(self).field, width, height),
                    ..*old(self)
                })
                &&& bounds_in_sync(final(world)@)
            },
            !applied ==> final(world)@ == old(world)@ && *final(self) == *old(self),
    {
        resize_system(world, &mut self.field, width, height)
    }
}

/// Counting a point changes the score and nothing else: the field, its
/// speeds and the controls stay as the last resize left them, so that a
/// frame never rescales anything.
pub proof fn lemma_counting_keeps_the_settings(game: Pong, event: ScoreEvent)
    ensures
        game.scored(event).field == game.field,
        game.scored(event).controls == game.controls,
{
}

impl Game for Pong {
    /// Setting up spawns the two paddles and the ball, in this order, and
    /// changes nothing else.
    open spec fn sets_up(&self, before: Engine, game: &Self, after: Engine) -> bool {
        &&& after.world@ == before.world@.push(Some(player_paddle(self.field))).push(
            Some(ai_paddle(self.field)),
        ).push(Some(ball(self.field)))
        &&& *game == *self
        &&& after.renderer == before.renderer
        &&& after.input == before.input
        &&& after.time == before.time
    }

    fn init(&mut self, engine: &mut Engine) {
        self.setup(&mut engine.world);
    }

    /// An update steers the player's paddle by the held keys, runs one tick
    /// of the simulation, counts the point if one was scored, and queues
    /// the overlay with the frame rate and the score. The input state and
    /// the timing stay as they are.
    open spec fn updates(&self, before: Engine, delta_micros: u64, game: &Self, after: Engine) -> bool {
        let steer = steer_spec(before.input.pressed_set(), self.controls);
        &&& after.world@ == after_tick(before.world@, self.field, steer, delta_micros)
        &&& *game == self.scored(tick_event(before.world@, self.field, steer, delta_micros))
        &&& after.renderer@ == overlay_queued(
            before.renderer@,
            fps_spec(before.time.delta_time()),
            game.player_score,
            game.ai_score,
            self.field.width,
        )
        &&& after.input == before.input
        &&& after.time == before.time
    }

    fn update(&mut self, engine: &mut Engine, delta_micros: u64) {
        self.advance(engine, delta_micros);
    }

    /// A resize to extents with area scales the entities and the settings
    /// and recomputes every entity's bounds; one to extents without area
    /// changes nothing. The renderer, the input state and the timing stay
    /// as they are.
    open spec fn resizes(
        &self,
        before: Engine,
        width: u32,
        height: u32,
        game: &Self,
        after: Engine,
    ) -> bool {
        &&& if width > 0 && height > 0 {
            &&& after.world@ == map_live(
                before.world@,
                |b: Bundle| resize_step(b, self.field, width, height),
            )
            &&& *game == (Pong { field: resized_field(self.field, width, height), ..*self })
        } else {
            after.world@ == before.world@ && *game == *self
        }
        &&& after.renderer == before.renderer
        &&& after.input == before.input
        &&& after.time == before.time
    }

    fn on_resize(&mut self, engine: &mut Engine, width: u32, height: u32) {
        self.resize(&mut engine.world, width, height);
    }
}

} // verus!
