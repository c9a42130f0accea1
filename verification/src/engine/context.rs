//! The context that every system and every game callback works on.

use crate::input::Input;
use crate::render::queue::Renderer;
use crate::time::Time;
use crate::world::World;
use vstd::prelude::*;

verus! {

/// Everything a running game can reach: the renderer, the entity store, the
/// input state and the frame timing. There is one per running engine, owned
/// by the driver and lent to the game for each callback.
pub struct Engine {
    pub renderer: Renderer,
    pub world: World,
    /// Key state, by key code.
    pub input: Input<u32>,
    pub time: Time,
}

impl Engine {
    /// The context is fresh, for a viewport of `width` by `height`: nothing
    /// queued or cached, no entities, no keys held, no time passed.
    pub open spec fn is_fresh(self, width: u32, height: u32) -> bool {
        &&& self.renderer@ == Renderer::new_view(width, height)
        &&& self.world@ == Seq::<Option<crate::world::Bundle>>::empty()
        &&& self.input.pressed_set() == Set::<u32>::empty()
        &&& self.input.just_pressed_set() == Set::<u32>::empty()
        &&& self.input.just_released_set() == Set::<u32>::empty()
        &&& self.time == Time::new_value()
    }

    /// A fresh context for a viewport of `width` by `height`: nothing
    /// queued or cached, no entities, no keys held, no time passed.
    pub fn new(width: u32, height: u32) -> (engine: Self)
        ensures
            engine.is_fresh(width, height),
            engine.renderer@ == Renderer::new_view(width, height),
            engine.world@ == Seq::<Option<crate::world::Bundle>>::empty(),
            engine.input.pressed_set() == Set::<u32>::empty(),
            engine.input.just_pressed_set() == Set::<u32>::empty(),
            engine.input.just_released_set() == Set::<u32>::empty(),
            engine.time == Time::new_value(),
            engine.time.delta_time() == 0,
            engine.time.elapsed_time() == 0,
            engine.time.frame_count() == 0,
    {
        Engine {
            renderer: Renderer::new(width, height),
            world: World::new(),
            input: Input::new(),
            time: Time::new(),
        }
    }

    pub fn renderer_mut(&mut self) -> (renderer: &mut Renderer)
        ensures
            *renderer == old(self).renderer,
            *final(self) == (Engine { renderer: *final(renderer), ..*old(self) }),
    {
        &mut self.renderer
    }

    pub fn renderer(&self) -> (renderer: &Renderer)
        ensures
            *renderer == self.renderer,
    {
        &self.renderer
    }

    pub fn world_mut(&mut self) -> (world: &mut World)
        ensures
            *world == old(self).world,
            *final(self) == (Engine { world: *final(world), ..*old(self) }),
    {
        &mut self.world
    }

    pub fn world(&self) -> (world: &World)
        ensures
            *world == self.world,
    {
        &self.world
    }

    pub fn input(&self) -> (input: &Input<u32>)
        ensures
            *input == self.input,
    {
        &self.input
    }

    pub fn input_mut(&mut self) -> (input: &mut Input<u32>)
        ensures
            *input == old(self).input,
            *final(self) == (Engine { input: *final(input), ..*old(self) }),
    {
        &mut self.input
    }

    pub fn time(&self) -> (time: Time)
        ensures
            time == self.time,
    {
        self.time
    }

    pub fn time_mut(&mut self) -> (time: &mut Time)
        ensures
            *time == old(self).time,
            *final(self) == (Engine { time: *final(time), ..*old(self) }),
    {
        &mut self.time
    }
}

} // verus!
