//! The renderer's frame state: the queue that is rebuilt every frame and the
//! cache of texts that outlives it.

use crate::components::{Color, Position, Size};
use crate::render::types::{
    Batch,
    BatchView,
    BufferRef,
    CachedTextEntry,
    CachedTextView,
    QueuedRectangle,
    QueuedText,
    ShapeRequest,
    ShapeRequestView,
    TextBounds,
    TextHandle,
    cache_views,
    shape_views,
};
use vstd::prelude::*;
use vstd::string::StringExecFns;

verus! {

/// Collects what a frame draws and keeps the cached texts.
///
/// Shaping is left to the backend: the renderer records which texts must be
/// shaped, as shape requests that travel with the frame's batch. A cached
/// text is requested once when it is created and once whenever its content
/// is changed; a text queued by content is requested every time.
pub struct Renderer {
    width: u32,
    height: u32,
    cached: Vec<Option<CachedTextEntry>>,
    shape_requests: Vec<ShapeRequest>,
    rectangles: Vec<QueuedRectangle>,
    texts: Vec<QueuedText>,
}

/// The renderer as a value.
pub struct RendererView {
    /// Extents of the viewport.
    pub width: u32,
    pub height: u32,
    /// The cache slots in creation order; `None` where a text was
    /// invalidated.
    pub cache: Seq<Option<CachedTextView>>,
    /// The shape requests recorded since the last drain.
    pub shape_requests: Seq<ShapeRequestView>,
    /// The rectangles queued since the last drain.
    pub rectangles: Seq<QueuedRectangle>,
    /// The texts queued since the last drain.
    pub texts: Seq<QueuedText>,
}

impl RendererView {
    /// Whether `handle` names a text that is in the cache.
    pub open spec fn is_cached(self, handle: TextHandle) -> bool {
        handle.index() < self.cache.len() && self.cache[handle.index() as int] is Some
    }

    /// The batch that a drain hands out.
    pub open spec fn batch(self) -> BatchView {
        BatchView {
            shape_requests: self.shape_requests,
            rectangles: self.rectangles,
            texts: self.texts,
        }
    }

    /// The renderer after a drain: the cache and the viewport as they were,
    /// nothing queued.
    pub open spec fn drained(self) -> RendererView {
        RendererView {
            shape_requests: Seq::empty(),
            rectangles: Seq::empty(),
            texts: Seq::empty(),
            ..self
        }
    }

    /// The renderer with one more cached text of the given content and
    /// size, and the request to shape it.
    pub open spec fn with_cached_text(self, content: Seq<char>, size: u32) -> RendererView {
        RendererView {
            cache: self.cache.push(Some(CachedTextView { content, size })),
            shape_requests: self.shape_requests.push(
                ShapeRequestView {
                    target: BufferRef::Cached(TextHandle(self.cache.len() as usize)),
                    content,
                    size,
                },
            ),
            ..self
        }
    }

    /// The renderer with the content of a cached text replaced, and the
    /// request to shape it again at its size.
    pub open spec fn with_content(self, handle: TextHandle, content: Seq<char>) -> RendererView {
        let size = self.cache[handle.index() as int]->Some_0.size;
        RendererView {
            cache: self.cache.update(
                handle.index() as int,
                Some(CachedTextView { content, size }),
            ),
            shape_requests: self.shape_requests.push(
                ShapeRequestView { target: BufferRef::Cached(handle), content, size },
            ),
            ..self
        }
    }

    /// The renderer with a cached text queued for drawing. Nothing is
    /// shaped.
    pub open spec fn with_cached_text_queued(
        self,
        handle: TextHandle,
        position: Position,
        scale_percent: u32,
        color: Color,
        clip: Option<TextBounds>,
    ) -> RendererView {
        RendererView {
            texts: self.texts.push(
                QueuedText {
                    buffer_ref: BufferRef::Cached(handle),
                    position,
                    color,
                    scale_percent,
                    bounds: clip,
                },
            ),
            ..self
        }
    }

    /// The renderer with a text queued by content: a request to shape it
    /// for this frame, and the text drawn from that buffer at full scale
    /// and without clipping.
    pub open spec fn with_text_queued(
        self,
        content: Seq<char>,
        position: Position,
        size: u32,
        color: Color,
    ) -> RendererView {
        RendererView {
            shape_requests: self.shape_requests.push(
                ShapeRequestView {
                    target: BufferRef::Immediate(self.shape_requests.len() as usize),
                    content,
                    size,
                },
            ),
            texts: self.texts.push(
                QueuedText {
                    buffer_ref: BufferRef::Immediate(self.shape_requests.len() as usize),
                    position,
                    color,
                    scale_percent: 100,
                    bounds: None,
                },
            ),
            ..self
        }
    }

    /// The renderer with a rectangle queued.
    pub open spec fn with_rectangle_queued(self, rectangle: QueuedRectangle) -> RendererView {
        RendererView { rectangles: self.rectangles.push(rectangle), ..self }
    }
}

impl View for Renderer {
    type V = RendererView;

    closed spec fn view(&self) -> RendererView {
        RendererView {
            width: self.width,
            height: self.height,
            cache: cache_views(self.cached@),
            shape_requests: shape_views(self.shape_requests@),
            rectangles: self.rectangles@,
            texts: self.texts@,
        }
    }
}

impl Renderer {
    /// The value of a new renderer for a viewport of `width` by `height`.
    pub open spec fn new_view(width: u32, height: u32) -> RendererView {
        RendererView {
            width,
            height,
            cache: Seq::empty(),
            shape_requests: Seq::empty(),
            rectangles: Seq::empty(),
            texts: Seq::empty(),
        }
    }

    /// A renderer for a viewport of `width` by `height`, with an empty
    /// cache and nothing queued.
    pub fn new(width: u32, height: u32) -> (renderer: Self)
        ensures
            renderer@ == Renderer::new_view(width, height),
    {
        let renderer = Renderer {
            width,
            height,
            cached: Vec::new(),
            shape_requests: Vec::new(),
            rectangles: Vec::new(),
            texts: Vec::new(),
        };
        assert(cache_views(renderer.cached@) =~= Seq::empty());
        assert(shape_views(renderer.shape_requests@) =~= Seq::empty());
        renderer
    }

    /// Takes over the extents of a resized viewport. A viewport without
    /// area is ignored, and the result is `false`.
    pub fn resize(&mut self, width: u32, height: u32) -> (applied: bool)
        ensures
            applied == (width > 0 && height > 0),
            applied ==> final(self)@ == (RendererView { width, height, ..old(self)@ }),
            !applied ==> *final(self) == *old(self),
    {
        if width == 0 || height == 0 {
            false
        } else {
            self.width = width;
            self.height = height;
            true
        }
    }

    /// The extents of the viewport, width first.
    pub fn viewport(&self) -> (extents: (u32, u32))
        ensures
            extents == (self@.width, self@.height),
    {
        (self.width, self.height)
    }

    /// Whether `handle` names a text that is in the cache.
    pub fn is_cached(&self, handle: TextHandle) -> (cached: bool)
        ensures
            cached == self@.is_cached(handle),
    {
        handle.0 < self.cached.len() && self.cached[handle.0].is_some()
    }

    /// The number of texts queued since the last drain.
    pub fn queued_text_count(&self) -> (n: usize)
        ensures
            n == self@.texts.len(),
    {
        self.texts.len()
    }

    /// The number of rectangles queued since the last drain.
    pub fn queued_rectangle_count(&self) -> (n: usize)
        ensures
            n == self@.rectangles.len(),
    {
        self.rectangles.len()
    }

    /// The number of shape requests recorded since the last drain.
    pub fn shape_request_count(&self) -> (n: usize)
        ensures
            n == self@.shape_requests.len(),
    {
        self.shape_requests.len()
    }

    /// Puts a text into the cache and asks for it to be shaped once. The
    /// handle names the new last slot of the cache.
    pub fn create_cached_text(&mut self, content: &str, base_size: u32) -> (handle: TextHandle)
        ensures
            handle.index() == old(self)@.cache.len(),
            final(self)@ == old(self)@.with_cached_text(content@, base_size),
            final(self)@.is_cached(handle),
    {
        let handle = TextHandle(self.cached.len());
        self.cached.push(Some(CachedTextEntry { content: String::from_str(content), size: base_size }));
        self.shape_requests.push(
            ShapeRequest {
                target: BufferRef::Cached(handle),
                content: String::from_str(content),
                size: base_size,
            },
        );
        proof {
            let wanted = old(self)@.with_cached_text(content@, base_size);
            assert(self@.cache =~= wanted.cache);
            assert(self@.shape_requests =~= wanted.shape_requests);
        }
        handle
    }

    /// Replaces the content of a cached text and asks for it to be shaped
    /// again, at the size it was created with. For a handle that names no
    /// cached text nothing changes and the result is `false`.
    pub fn set_cached_text(&mut self, handle: TextHandle, content: &str) -> (changed: bool)
        ensures
            changed == old(self)@.is_cached(handle),
            changed ==> final(self)@ == old(self)@.with_content(handle, content@),
            !changed ==> final(self)@ == old(self)@,
    {
        if handle.0 >= self.cached.len() {
            return false;
        }
        let size = match &self.cached[handle.0] {
            Some(entry) => entry.size,
            None => {
                return false;
            },
        };
        self.cached[handle.0] = Some(CachedTextEntry { content: String::from_str(content), size });
        self.shape_requests.push(
            ShapeRequest { target: BufferRef::Cached(handle), content: String::from_str(content), size },
        );
        proof {
            let wanted = old(self)@.with_content(handle, content@);
            assert(self@.cache =~= wanted.cache);
            assert(self@.shape_requests =~= wanted.shape_requests);
        }
        true
    }

    /// Takes a text out of the cache. Its handle names nothing from then
    /// on; the handles of the other texts stay as they are. For a handle
    /// that names no cached text nothing changes and the result is `false`.
    pub fn invalidate_cached_text(&mut self, handle: TextHandle) -> (removed: bool)
        ensures
            removed == old(self)@.is_cached(handle),
            removed ==> final(self)@ == (RendererView {
                cache: old(self)@.cache.update(handle.index() as int, None),
                ..old(self)@
            }),
            !removed ==> final(self)@ == old(self)@,
    {
        if handle.0 < self.cached.len() && self.cached[handle.0].is_some() {
            self.cached[handle.0] = None;
            proof {
                assert(self@.cache =~= old(self)@.cache.update(handle.index() as int, None));
            }
            true
        } else {
            false
        }
    }

    /// Queues a cached text for this frame. Only the place, the scale, the
    /// colour and the clipping are recorded: the text is not shaped again.
    /// For a handle that names no cached text nothing is queued and the
    /// result is `false`.
    pub fn queue_cached_text(
        &mut self,
        handle: TextHandle,
        position: Position,
        scale_percent: u32,
        color: Color,
        clip: Option<TextBounds>,
    ) -> (queued: bool)
        ensures
            queued == old(self)@.is_cached(handle),
            queued ==> final(self)@ == old(self)@.with_cached_text_queued(
                handle,
                position,
                scale_percent,
                color,
                clip,
            ),
            !queued ==> final(self)@ == old(self)@,
            final(self)@.shape_requests == old(self)@.shape_requests,
            final(self)@.cache == old(self)@.cache,
    {
        if !self.is_cached(handle) {
            return false;
        }
        self.texts.push(
            QueuedText {
                buffer_ref: BufferRef::Cached(handle),
                position,
                color,
                scale_percent,
                bounds: clip,
            },
        );
        true
    }

    /// Queues a text by content: it is shaped for this frame only, at
    /// `size`, and drawn at `position` in `color`.
    pub fn queue_text(&mut self, content: &str, position: Position, size: u32, color: Color)
        ensures
            final(self)@ == old(self)@.with_text_queued(content@, position, size, color),
    {
        let target = BufferRef::Immediate(self.shape_requests.len());
        self.shape_requests.push(ShapeRequest { target, content: String::from_str(content), size });
        self.texts.push(
            QueuedText { buffer_ref: target, position, color, scale_percent: 100, bounds: None },
        );
        proof {
            let wanted = old(self)@.with_text_queued(content@, position, size, color);
            assert(self@.shape_requests =~= wanted.shape_requests);
        }
    }

    /// Queues a filled rectangle with its top-left corner at (`x`, `y`).
    pub fn queue_rectangle(&mut self, x: i32, y: i32, width: u32, height: u32, color: Color)
        ensures
            final(self)@ == old(self)@.with_rectangle_queued(
                QueuedRectangle {
                    position: Position { x, y },
                    size: Size { width, height },
                    color,
                },
            ),
    {
        self.rectangles.push(
            QueuedRectangle { position: Position { x, y }, size: Size { width, height }, color },
        );
    }

    /// Hands out everything queued since the last drain as one batch and
    /// empties the queue. The cache stays as it is.
    ///
    /// The queue is empty from here on whatever becomes of the batch: a
    /// backend that fails to draw it leaves nothing behind for the next
    /// frame.
    pub fn drain(&mut self) -> (batch: Batch)
        ensures
            batch@ == old(self)@.batch(),
            final(self)@ == old(self)@.drained(),
    {
        let mut shape_requests: Vec<ShapeRequest> = Vec::new();
        let mut rectangles: Vec<QueuedRectangle> = Vec::new();
        let mut texts: Vec<QueuedText> = Vec::new();
        std::mem::swap(&mut self.shape_requests, &mut shape_requests);
        std::mem::swap(&mut self.rectangles, &mut rectangles);
        std::mem::swap(&mut self.texts, &mut texts);
        proof {
            assert(self@.shape_requests =~= Seq::empty());
        }
        Batch { shape_requests, rectangles, texts }
    }
}

/// Queueing one cached text twice in a frame, at two places, gives two
/// queued texts that draw from the same cached buffer, in the order of the
/// calls, and records no shape request.
pub proof fn lemma_queueing_cached_text_never_shapes(
    renderer: RendererView,
    handle: TextHandle,
    first: Position,
    second: Position,
    scale_percent: u32,
    color: Color,
)
    ensures
        ({
            let after = renderer.with_cached_text_queued(
                handle,
                first,
                scale_percent,
                color,
                None,
            ).with_cached_text_queued(handle, second, scale_percent, color, None);
            &&& after.shape_requests == renderer.shape_requests
            &&& after.cache == renderer.cache
            &&& after.texts.len() == renderer.texts.len() + 2
            &&& after.texts[renderer.texts.len() as int].buffer_ref == BufferRef::Cached(handle)
            &&& after.texts[renderer.texts.len() as int + 1].buffer_ref == BufferRef::Cached(handle)
            &&& after.texts[renderer.texts.len() as int].position == first
            &&& after.texts[renderer.texts.len() as int + 1].position == second
        }),
{
}

/// A drain empties the queue and keeps the cache, so that what one frame
/// queued never shows in the next.
pub proof fn lemma_drain_keeps_only_the_cache(renderer: RendererView)
    ensures
        renderer.drained().cache == renderer.cache,
        renderer.drained().batch().shape_requests.len() == 0,
        renderer.drained().batch().rectangles.len() == 0,
        renderer.drained().batch().texts.len() == 0,
        renderer.drained().drained() == renderer.drained(),
{
}

} // verus!
