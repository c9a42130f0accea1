//! The records that the render queue is made of.

use crate::components::{Color, Position, Size};
use vstd::prelude::*;

verus! {

/// Handle of a cached text. It stays valid from frame to frame, until the
/// text is invalidated.
#[derive(Clone, Copy, Debug, PartialEq, Eq, Hash, Structural)]
pub struct TextHandle(pub usize);

/// Which shaped buffer a queued text is drawn from.
#[derive(Clone, Copy, Debug, PartialEq, Eq, Structural)]
pub enum BufferRef {
    /// The buffer of a cached text.
    Cached(TextHandle),
    /// A buffer shaped for this frame only: the one that the shape request
    /// with this index in the frame's batch produces.
    Immediate(usize),
}

/// Clipping rectangle of a queued text, in units.
#[derive(Clone, Copy, Debug, PartialEq, Eq, Structural)]
pub struct TextBounds {
    pub left: i32,
    pub top: i32,
    pub right: i32,
    pub bottom: i32,
}

/// A text kept in the cache: its content and the size it was created with,
/// with which it is shaped again when the content changes.
#[derive(Clone, Debug, PartialEq, Eq)]
pub struct CachedTextEntry {
    pub content: String,
    pub size: u32,
}

/// One text to draw this frame.
#[derive(Clone, Copy, Debug, PartialEq, Eq, Structural)]
pub struct QueuedText {
    /// Which buffer to draw.
    pub buffer_ref: BufferRef,
    /// Where on screen.
    pub position: Position,
    pub color: Color,
    /// Size multiplier, in percent.
    pub scale_percent: u32,
    /// Clipping, if any.
    pub bounds: Option<TextBounds>,
}

/// One filled rectangle to draw this frame.
#[derive(Clone, Copy, Debug, PartialEq, Eq, Structural)]
pub struct QueuedRectangle {
    pub position: Position,
    pub size: Size,
    pub color: Color,
}

/// A request to the shaping backend: lay out `content` at `size` into the
/// buffer that `target` names.
#[derive(Clone, Debug, PartialEq, Eq)]
pub struct ShapeRequest {
    pub target: BufferRef,
    pub content: String,
    pub size: u32,
}

/// Everything that one frame hands to the backend: first the texts to
/// shape, then the primitives to draw, each list in queueing order.
#[derive(Clone, Debug, PartialEq, Eq)]
pub struct Batch {
    pub shape_requests: Vec<ShapeRequest>,
    pub rectangles: Vec<QueuedRectangle>,
    pub texts: Vec<QueuedText>,
}

/// A cached text as a value.
pub struct CachedTextView {
    pub content: Seq<char>,
    pub size: u32,
}

/// A shape request as a value.
pub struct ShapeRequestView {
    pub target: BufferRef,
    pub content: Seq<char>,
    pub size: u32,
}

/// A batch as a value.
pub struct BatchView {
    pub shape_requests: Seq<ShapeRequestView>,
    pub rectangles: Seq<QueuedRectangle>,
    pub texts: Seq<QueuedText>,
}

impl TextHandle {
    /// The number of the cache slot that the handle names.
    pub open spec fn spec_index(self) -> usize {
        self.0
    }

    #[verifier::when_used_as_spec(spec_index)]
    pub fn index(self) -> (index: usize)
        ensures
            index == self.spec_index(),
    {
        self.0
    }
}

impl View for CachedTextEntry {
    type V = CachedTextView;

    open spec fn view(&self) -> CachedTextView {
        CachedTextView { content: self.content@, size: self.size }
    }
}

impl View for ShapeRequest {
    type V = ShapeRequestView;

    open spec fn view(&self) -> ShapeRequestView {
        ShapeRequestView { target: self.target, content: self.content@, size: self.size }
    }
}

/// The cache slots as values.
pub open spec fn cache_views(slots: Seq<Option<CachedTextEntry>>) -> Seq<Option<CachedTextView>> {
    Seq::new(
        slots.len(),
        |i: int|
            match slots[i] {
                Some(entry) => Some(entry@),
                None => None,
            },
    )
}

/// The shape requests as values.
pub open spec fn shape_views(requests: Seq<ShapeRequest>) -> Seq<ShapeRequestView> {
    Seq::new(requests.len(), |i: int| requests[i]@)
}

impl View for Batch {
    type V = BatchView;

    open spec fn view(&self) -> BatchView {
        BatchView {
            shape_requests: shape_views(self.shape_requests@),
            rectangles: self.rectangles@,
            texts: self.texts@,
        }
    }
}

} // verus!
