//! The driver: the engine's side of the event loop.
//!
//! The driver owns the context and the game. For every event of the window
//! it updates both and answers with a directive, which says what is to be
//! done to the window or the drawing backend. It never touches either
//! itself, and it never fails: a frame whose batch the backend cannot draw
//! is lost, and the next frame starts from an empty queue like any other.

use crate::engine::config::EngineConfig;
use crate::engine::context::Engine;
use crate::engine::game::{Game, WindowEvent};
use crate::render::queue::RendererView;
use crate::render::types::{Batch, BatchView};
use crate::world::Bundle;
use crate::systems::{drawn_rectangles, render_system};
use crate::time::{frame_delta, frame_delta_spec, saturating_next, saturating_sum};
use vstd::prelude::*;

verus! {

/// What the caller's event loop is to do after an event.
pub enum Directive {
    /// Nothing.
    Idle,
    /// Leave the event loop.
    Exit,
    /// Give the drawing surface these extents.
    ConfigureSurface { width: u32, height: u32 },
    /// Submit this batch to the backend, then report what became of it
    /// with [`EngineApp::frame_submitted`].
    Present(Batch),
    /// Ask for the next redraw.
    RequestRedraw,
}

/// Where the driver stands between two events. A frame passes through
/// clearing the input changes, updating the game and building the queue
/// while one redraw request is handled; what is left to see from outside is
/// whether the frame's batch is still out for submission.
#[derive(Clone, Copy, Debug, PartialEq, Eq, Structural)]
pub enum FramePhase {
    /// No frame is under way.
    Idle,
    /// The batch of a frame was handed out, and what became of it has not
    /// been reported yet.
    Submit,
}

/// The driver of one game.
pub struct EngineApp<G: Game> {
    /// The context, once the window exists.
    pub engine: Option<Engine>,
    pub config: EngineConfig,
    pub game: G,
    /// When the last frame was drawn, in microseconds.
    pub last_frame_time: Option<u64>,
    /// Whether the game has been set up.
    pub initialized: bool,
    /// How many frames the backend failed to draw.
    pub dropped_frames: u64,
    pub phase: FramePhase,
}

/// The batch ends with the rectangles of the drawn entities of the store,
/// one for each live entity with a position, a size and a renderable, in
/// spawn order. Whatever else the batch holds was queued before them.
pub open spec fn presents_drawn_entities(batch: BatchView, slots: Seq<Option<Bundle>>) -> bool {
    let handed = batch.rectangles;
    let drawn = drawn_rectangles(slots);
    handed.len() >= drawn.len() && handed.subrange(handed.len() - drawn.len(), handed.len() as int)
        == drawn
}

/// What the first half of a frame does to the context, between the time of
/// the last frame and the time now: the key changes of the frame before are
/// forgotten, the held keys stay held, the frame's length is accounted for,
/// and the store and the renderer stay as they are.
pub open spec fn frame_begun(
    before: Engine,
    last_frame_time: Option<u64>,
    now_micros: u64,
    after: Engine,
) -> bool {
    &&& after.input.pressed_set() == before.input.pressed_set()
    &&& after.input.just_pressed_set() == Set::<u32>::empty()
    &&& after.input.just_released_set() == Set::<u32>::empty()
    &&& after.time == before.time.updated(frame_delta_spec(last_frame_time, now_micros))
    &&& after.world == before.world
    &&& after.renderer == before.renderer
}

/// What the second half of a frame does to the context, and the batch that
/// it hands out: what was queued, then the rectangles of the drawn entities
/// in spawn order. The queue is empty afterwards; the cache, the store, the
/// input state and the timing stay as they are.
pub open spec fn frame_ended(before: Engine, after: Engine, batch: BatchView) -> bool {
    &&& batch == (RendererView {
        rectangles: before.renderer@.rectangles + drawn_rectangles(before.world@),
        ..before.renderer@
    }).batch()
    &&& after.renderer@ == before.renderer@.drained()
    &&& after.world == before.world
    &&& after.input == before.input
    &&& after.time == before.time
}

/// The renderer takes new extents; the rest of the context stays as it is.
pub open spec fn extents_taken(before: Engine, width: u32, height: u32, after: Engine) -> bool {
    &&& after.renderer@ == (RendererView { width, height, ..before.renderer@ })
    &&& after.world == before.world
    &&& after.input == before.input
    &&& after.time == before.time
}

/// One whole frame of `game`, drawn at `now_micros`: the frame is begun on
/// the context `before`, the game is updated once on what that left, with
/// the frame's length, and the frame is ended on what the update left,
/// which gives the context `after` and the batch.
pub open spec fn frame_run<G: Game>(
    game: G,
    before: Engine,
    last_frame_time: Option<u64>,
    now_micros: u64,
    game_after: G,
    after: Engine,
    batch: BatchView,
) -> bool {
    exists|begun: Engine, updated: Engine|
        #![trigger frame_begun(before, last_frame_time, now_micros, begun), frame_ended(updated, after, batch)]
        {
            &&& frame_begun(before, last_frame_time, now_micros, begun)
            &&& game.updates(
                begun,
                frame_delta_spec(last_frame_time, now_micros),
                &game_after,
                updated,
            )
            &&& frame_ended(updated, after, batch)
        }
}

/// A resize of `game` to `width` by `height`: the renderer takes the
/// extents, and the game is resized once on what that left.
pub open spec fn resize_run<G: Game>(
    game: G,
    before: Engine,
    width: u32,
    height: u32,
    game_after: G,
    after: Engine,
) -> bool {
    exists|resized: Engine|
        #![trigger extents_taken(before, width, height, resized)]
        extents_taken(before, width, height, resized) && game.resizes(
            resized,
            width,
            height,
            &game_after,
            after,
        )
}

/// The setting up of `game` for a viewport of `width` by `height`: the game
/// is set up once, on a fresh context.
pub open spec fn setup_run<G: Game>(
    game: G,
    width: u32,
    height: u32,
    game_after: G,
    after: Engine,
) -> bool {
    exists|fresh: Engine|
        #![trigger fresh.is_fresh(width, height)]
        fresh.is_fresh(width, height) && game.sets_up(fresh, &game_after, after)
}

/// The first half of a frame: forgets the key changes of the frame before,
/// works out the frame's length from the time of the last frame and the
/// time now, and accounts for it. Returns the frame's length.
pub fn begin_frame(engine: &mut Engine, last_frame_time: Option<u64>, now_micros: u64) -> (delta:
    u64)
    ensures
        delta == frame_delta_spec(last_frame_time, now_micros),
        frame_begun(*old(engine), last_frame_time, now_micros, *final(engine)),
        final(engine).input.pressed_set() == old(engine).input.pressed_set(),
        final(engine).input.just_pressed_set() == Set::<u32>::empty(),
        final(engine).input.just_released_set() == Set::<u32>::empty(),
        final(engine).time == old(engine).time.updated(delta),
        final(engine).time.delta_time() == delta,
        final(engine).time.elapsed_time() == saturating_sum(old(engine).time.elapsed_time(), delta),
        final(engine).time.frame_count() == saturating_next(old(engine).time.frame_count()),
        final(engine).world == old(engine).world,
        final(engine).renderer == old(engine).renderer,
{
    engine.input.clear();
    let delta = frame_delta(last_frame_time, now_micros);
    engine.time.update(delta);
    delta
}

/// The second half of a frame: queues the rectangles of the drawn entities
/// behind what the game queued, and hands out the whole queue as the
/// frame's batch. The queue is empty afterwards; the cache stays.
pub fn end_frame(engine: &mut Engine) -> (batch: Batch)
    ensures
        frame_ended(*old(engine), *final(engine), batch@),
        batch@ == (RendererView {
            rectangles: old(engine).renderer@.rectangles + drawn_rectangles(old(engine).world@),
            ..old(engine).renderer@
        }).batch(),
        final(engine).renderer@ == old(engine).renderer@.drained(),
        final(engine).world == old(engine).world,
        final(engine).input == old(engine).input,
        final(engine).time == old(engine).time,
{
    render_system(engine);
    engine.renderer.drain()
}

/// Records a key going down or up.
pub fn record_key(engine: &mut Engine, code: u32, pressed: bool)
    ensures
        final(engine).input.pressed_set() == if pressed {
            old(engine).input.pressed_set().insert(code)
        } else {
            old(engine).input.pressed_set().remove(code)
        },
        final(engine).input.just_pressed_set() == if pressed && !old(
            engine,
        ).input.pressed_set().contains(code) {
            old(engine).input.just_pressed_set().insert(code)
        } else {
            old(engine).input.just_pressed_set()
        },
        final(engine).input.just_released_set() == if !pressed && old(
            engine,
        ).input.pressed_set().contains(code) {
            old(engine).input.just_released_set().insert(code)
        } else {
            old(engine).input.just_released_set()
        },
        final(engine).world == old(engine).world,
        final(engine).renderer == old(engine).renderer,
        final(engine).time == old(engine).time,
{
    if pressed {
        engine.input.press(code);
    } else {
        engine.input.release(code);
    }
}

impl<G: Game> EngineApp<G> {
    /// A driver that waits for its window: no context yet, no frame drawn,
    /// the game not set up.
    pub fn new(config: EngineConfig, game: G) -> (driver: Self)
        ensures
            driver.engine is None,
            driver.config == config,
            driver.game == game,
            driver.last_frame_time is None,
            !driver.initialized,
            driver.dropped_frames == 0,
            driver.phase == FramePhase::Idle,
    {
        EngineApp {
            engine: None,
            config,
            game,
            last_frame_time: None,
            initialized: false,
            dropped_frames: 0,
            phase: FramePhase::Idle,
        }
    }

    /// Whether the driver still waits for its window.
    pub fn needs_window(&self) -> (needed: bool)
        ensures
            needed == (self.engine is None),
    {
        self.engine.is_none()
    }

    /// Tells the driver that its window exists, with a viewport of `width`
    /// by `height`. The first time, the driver makes the context and has
    /// the game set itself up on it; the result is `true`. Later calls
    /// change nothing.
    pub fn resumed(&mut self, width: u32, height: u32) -> (started: bool)
        ensures
            started == (old(self).engine is None),
            final(self).engine is Some,
            final(self).config == old(self).config,
            final(self).last_frame_time == old(self).last_frame_time,
            final(self).dropped_frames == old(self).dropped_frames,
            final(self).phase == old(self).phase,
            started ==> final(self).initialized,
            started ==> setup_run(
                old(self).game,
                width,
                height,
                final(self).game,
                final(self).engine->Some_0,
            ),
            !started ==> *final(self) == *old(self),
    {
        if self.engine.is_none() {
            let mut engine = Engine::new(width, height);
            let ghost fresh = engine;
            self.game.init(&mut engine);
            assert(fresh.is_fresh(width, height) && old(self).game.sets_up(
                fresh,
                &self.game,
                engine,
            ));
            self.engine = Some(engine);
            self.initialized = true;
            true
        } else {
            false
        }
    }

    /// Tells the driver what became of the batch of the last frame. A frame
    /// that the backend did not accept is counted as dropped and not tried
    /// again: either way the driver is idle again, the loop is asked for the
    /// next redraw, and that frame starts from the empty queue that the
    /// drain left. A report without a frame out for submission is ignored.
    pub fn frame_submitted(&mut self, accepted: bool) -> (directive: Directive)
        ensures
            final(self).phase == FramePhase::Idle,
            old(self).phase == FramePhase::Submit ==> directive is RequestRedraw,
            old(self).phase == FramePhase::Idle ==> directive is Idle,
            final(self).dropped_frames == if old(self).phase == FramePhase::Submit && !accepted {
                saturating_sum(old(self).dropped_frames, 1)
            } else {
                old(self).dropped_frames
            },
            final(self).engine == old(self).engine,
            final(self).config == old(self).config,
            final(self).game == old(self).game,
            final(self).last_frame_time == old(self).last_frame_time,
            final(self).initialized == old(self).initialized,
    {
        match self.phase {
            FramePhase::Idle => Directive::Idle,
            FramePhase::Submit => {
                self.phase = FramePhase::Idle;
                if !accepted && self.dropped_frames < u64::MAX {
                    self.dropped_frames = self.dropped_frames + 1;
                }
                Directive::RequestRedraw
            },
        }
    }

    /// Handles one event of the window and says what the event loop is to
    /// do next.
    ///
    /// - A close request asks the loop to exit.
    /// - New extents, if they have area and the context exists, go to the
    ///   renderer and to the game, once; the loop is asked to give the
    ///   surface the same extents. Extents without area are ignored.
    /// - A key event updates the input state.
    /// - A redraw request runs one frame: the key changes of the last frame
    ///   are forgotten, the frame's length is worked out and accounted for,
    ///   the game is updated, the drawn entities are queued, and the queue
    ///   is handed out as the batch to present, which leaves the driver in
    ///   the submit phase. Whatever the game did in its update, the batch
    ///   ends with the rectangles of the entities as the update left them. A batch that is still out from an earlier frame
    ///   is given up. Before the context exists the loop is only asked for
    ///   the next redraw.
    /// - Every other event goes to the game.
    ///
    /// Where the game is called, the contract speaks of the call through
    /// the game's own relations: a resize is [`resize_run`], a frame is
    /// [`frame_run`].
    pub fn window_event(&mut self, event: WindowEvent) -> (directive: Directive)
        ensures
            final(self).config == old(self).config,
            final(self).initialized == old(self).initialized,
            final(self).dropped_frames == old(self).dropped_frames,
            (final(self).engine is Some) == (old(self).engine is Some),
            old(self).engine is None ==> *final(self) == *old(self),
            final(self).phase == if event is RedrawRequested && old(self).engine is Some {
                FramePhase::Submit
            } else {
                old(self).phase
            },
            match event {
                WindowEvent::CloseRequested => directive is Exit && *final(self) == *old(self),
                WindowEvent::Resized { width, height } => {
                    &&& final(self).last_frame_time == old(self).last_frame_time
                    &&& if old(self).engine is Some && width > 0 && height > 0 {
                        &&& directive == (Directive::ConfigureSurface { width, height })
                        &&& resize_run(
                            old(self).game,
                            old(self).engine->Some_0,
                            width,
                            height,
                            final(self).game,
                            final(self).engine->Some_0,
                        )
                    } else {
                        directive is Idle && *final(self) == *old(self)
                    }
                },
                WindowEvent::KeyboardInput { code, pressed } => {
                    &&& directive is Idle
                    &&& final(self).game == old(self).game
                    &&& final(self).last_frame_time == old(self).last_frame_time
                    &&& old(self).engine is Some ==> {
                        let before = old(self).engine->Some_0;
                        let after = final(self).engine->Some_0;
                        &&& after.world == before.world
                        &&& after.renderer == before.renderer
                        &&& after.time == before.time
                        &&& after.input.pressed_set() == if pressed {
                            before.input.pressed_set().insert(code)
                        } else {
                            before.input.pressed_set().remove(code)
                        }
                        &&& after.input.just_pressed_set() == if pressed
                            && !before.input.pressed_set().contains(code) {
                            before.input.just_pressed_set().insert(code)
                        } else {
                            before.input.just_pressed_set()
                        }
                        &&& after.input.just_released_set() == if !pressed
                            && before.input.pressed_set().contains(code) {
                            before.input.just_released_set().insert(code)
                        } else {
                            before.input.just_released_set()
                        }
                    }
                },
                WindowEvent::RedrawRequested { now_micros } => {
                    if old(self).engine is Some {
                        &&& directive is Present
                        &&& final(self).last_frame_time == Some(now_micros)
                        &&& final(self).engine->Some_0.renderer@.shape_requests.len() == 0
                        &&& final(self).engine->Some_0.renderer@.rectangles.len() == 0
                        &&& final(self).engine->Some_0.renderer@.texts.len() == 0
                        &&& presents_drawn_entities(
                            directive->Present_0@,
                            final(self).engine->Some_0.world@,
                        )
                        &&& frame_run(
                            old(self).game,
                            old(self).engine->Some_0,
                            old(self).last_frame_time,
                            now_micros,
                            final(self).game,
                            final(self).engine->Some_0,
                            directive->Present_0@,
                        )
                    } else {
                        directive is RequestRedraw
                    }
                },
                _ => directive is Idle && final(self).last_frame_time == old(self).last_frame_time,
            },
    {
        match event {
            WindowEvent::CloseRequested => Directive::Exit,
            WindowEvent::Resized { width, height } => {
                match &mut self.engine {
                    Some(engine) => {
                        if engine.renderer.resize(width, height) {
                            let ghost resized = *engine;
                            self.game.on_resize(engine, width, height);
                            assert(extents_taken(
                                old(self).engine->Some_0,
                                width,
                                height,
                                resized,
                            ) && old(self).game.resizes(
                                resized,
                                width,
                                height,
                                &self.game,
                                *engine,
                            ));
                            Directive::ConfigureSurface { width, height }
                        } else {
                            Directive::Idle
                        }
                    },
                    None => Directive::Idle,
                }
            },
            WindowEvent::KeyboardInput { code, pressed } => {
                match &mut self.engine {
                    Some(engine) => {
                        record_key(engine, code, pressed);
                    },
                    None => {},
                }
                Directive::Idle
            },
            WindowEvent::RedrawRequested { now_micros } => {
                match &mut self.engine {
                    Some(engine) => {
                        let delta = begin_frame(engine, self.last_frame_time, now_micros);
                        let ghost begun = *engine;
                        self.last_frame_time = Some(now_micros);
                        self.game.update(engine, delta);
                        let ghost updated = *engine;
                        let ghost queued = engine.renderer@.rectangles;
                        let batch = end_frame(engine);
                        assert(frame_begun(
                            old(self).engine->Some_0,
                            old(self).last_frame_time,
                            now_micros,
                            begun,
                        ) && old(self).game.updates(begun, delta, &self.game, updated)
                            && frame_ended(updated, *engine, batch@));
                        assert((queued + drawn_rectangles(engine.world@)).subrange(
                            queued.len() as int,
                            (queued.len() + drawn_rectangles(engine.world@).len()) as int,
                        ) =~= drawn_rectangles(engine.world@));
                        self.phase = FramePhase::Submit;
                        Directive::Present(batch)
                    },
                    None => Directive::RequestRedraw,
                }
            },
            other => {
                match &mut self.engine {
                    Some(engine) => {
                        self.game.on_event(engine, &other);
                    },
                    None => {},
                }
                Directive::Idle
            },
        }
    }
}

} // verus!
