//! The interface between the engine and a game.

use crate::engine::context::Engine;
use vstd::prelude::*;

verus! {

/// What the window reports to the driver.
#[derive(Clone, Copy, Debug, PartialEq, Eq, Structural)]
pub enum WindowEvent {
    /// The user asked to close the window.
    CloseRequested,
    /// The viewport has new extents.
    Resized { width: u32, height: u32 },
    /// A key went down or up.
    KeyboardInput { code: u32, pressed: bool },
    /// It is time to draw a frame; `now_micros` is the time on a clock that
    /// counts microseconds from any fixed start.
    RedrawRequested { now_micros: u64 },
    /// The pointer moved to a place in the viewport.
    PointerMoved { x: i32, y: i32 },
    /// A pointer button went down or up.
    PointerButton { button: u32, pressed: bool },
    /// The window gained or lost the focus.
    FocusChanged { focused: bool },
    /// Anything else.
    Other,
}

/// A game that the engine runs. The driver calls `init` once, before the
/// first frame, `update` once per frame, `on_resize` once per change of the
/// viewport's extents, and `on_event` for every event that the driver does
/// not handle itself.
///
/// A game may say what its callbacks do, each as a relation between the
/// game and the context before the call and after it. The callback must
/// keep to the relation, and the driver's contracts then speak of the frame
/// through it. A game that says nothing promises nothing: every relation
/// holds of everything unless the game gives it a meaning.
pub trait Game: Send + 'static {
    /// What `init` does: `self` and `before` are the game and the context
    /// as the call finds them, `game` and `after` as it leaves them.
    open spec fn sets_up(&self, before: Engine, game: &Self, after: Engine) -> bool {
        true
    }

    /// Sets the game up: called once, with a fresh context.
    fn init(&mut self, engine: &mut Engine)
        ensures
            old(self).sets_up(*old(engine), &*final(self), *final(engine)),
    ;

    /// What `update` does in a frame of `delta_micros` microseconds.
    open spec fn updates(&self, before: Engine, delta_micros: u64, game: &Self, after: Engine) -> bool {
        true
    }

    /// Advances the game by one frame of `delta_micros` microseconds and
    /// queues what only the game knows how to draw.
    fn update(&mut self, engine: &mut Engine, delta_micros: u64)
        ensures
            old(self).updates(*old(engine), delta_micros, &*final(self), *final(engine)),
    ;

    /// What `on_resize` does for a viewport of `width` by `height`.
    open spec fn resizes(
        &self,
        before: Engine,
        width: u32,
        height: u32,
        game: &Self,
        after: Engine,
    ) -> bool {
        true
    }

    /// Adapts the game to a viewport of `width` by `height`, both greater
    /// than zero.
    fn on_resize(&mut self, engine: &mut Engine, width: u32, height: u32)
        ensures
            old(self).resizes(*old(engine), width, height, &*final(self), *final(engine)),
    ;

    /// Hands the game an event; the result says whether the game used it.
    /// Unless a game says otherwise, it uses none: it answers `false` and
    /// leaves itself and the context as they are.
    fn on_event(&mut self, engine: &mut Engine, event: &WindowEvent) -> (used: bool)
        default_ensures
            !used,
            &*final(self) == &*old(self),
            *final(engine) == *old(engine),
    {
        false
    }
}

} // verus!
