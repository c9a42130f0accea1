use wakey_2d_engine::components::{Color, Position, Size};
use wakey_2d_engine::render::queue::Renderer;
use wakey_2d_engine::render::types::{
    BufferRef, QueuedRectangle, QueuedText, ShapeRequest, TextBounds, TextHandle,
};

fn white() -> Color {
    Color::rgba(255, 255, 255, 255)
}

#[test]
fn new_renderer_has_nothing_queued_or_cached() {
    let mut r = Renderer::new(800, 600);
    assert_eq!(r.viewport(), (800, 600));
    assert_eq!(r.queued_text_count(), 0);
    assert_eq!(r.queued_rectangle_count(), 0);
    assert_eq!(r.shape_request_count(), 0);
    assert!(!r.is_cached(TextHandle(0)));
    let batch = r.drain();
    assert!(batch.shape_requests.is_empty());
    assert!(batch.rectangles.is_empty());
    assert!(batch.texts.is_empty());
}

#[test]
fn cached_text_queued_twice_is_shaped_once() {
    let mut r = Renderer::new(800, 600);
    let handle = r.create_cached_text("Score", 16);
    let created = r.drain();
    assert_eq!(
        created.shape_requests,
        vec![ShapeRequest {
            target: BufferRef::Cached(handle),
            content: "Score".to_string(),
            size: 16
        }]
    );
    assert!(created.texts.is_empty());

    assert!(r.queue_cached_text(handle, Position::new(10, 10), 100, white(), None));
    assert!(r.queue_cached_text(handle, Position::new(10, 40), 100, white(), None));
    assert_eq!(r.shape_request_count(), 0);
    assert_eq!(r.queued_text_count(), 2);
    let batch = r.drain();
    assert!(batch.shape_requests.is_empty());
    assert_eq!(
        batch.texts,
        vec![
            QueuedText {
                buffer_ref: BufferRef::Cached(handle),
                position: Position::new(10, 10),
                color: white(),
                scale_percent: 100,
                bounds: None,
            },
            QueuedText {
                buffer_ref: BufferRef::Cached(handle),
                position: Position::new(10, 40),
                color: white(),
                scale_percent: 100,
                bounds: None,
            },
        ]
    );
}

#[test]
fn cached_text_outlives_the_frame() {
    let mut r = Renderer::new(800, 600);
    let a = r.create_cached_text("a", 10);
    let b = r.create_cached_text("b", 20);
    assert_eq!(a, TextHandle(0));
    assert_eq!(b, TextHandle(1));
    assert_eq!(a.index(), 0);
    r.drain();
    r.drain();
    assert!(r.is_cached(a));
    assert!(r.is_cached(b));
    assert!(r.queue_cached_text(b, Position::new(0, 0), 50, white(), None));
    let batch = r.drain();
    assert_eq!(batch.texts.len(), 1);
    assert_eq!(batch.texts[0].buffer_ref, BufferRef::Cached(b));
    assert_eq!(batch.texts[0].scale_percent, 50);
}

#[test]
fn cached_text_can_be_queued_with_clipping() {
    let mut r = Renderer::new(800, 600);
    let h = r.create_cached_text("clipped", 12);
    let clip = TextBounds { left: 0, top: 0, right: 100, bottom: 20 };
    assert!(r.queue_cached_text(h, Position::new(1, 2), 200, Color::rgba(1, 2, 3, 4), Some(clip)));
    let batch = r.drain();
    assert_eq!(
        batch.texts,
        vec![QueuedText {
            buffer_ref: BufferRef::Cached(h),
            position: Position::new(1, 2),
            color: Color::rgba(1, 2, 3, 4),
            scale_percent: 200,
            bounds: Some(clip),
        }]
    );
}

#[test]
fn unknown_handle_is_not_queued() {
    let mut r = Renderer::new(800, 600);
    r.create_cached_text("a", 10);
    assert!(!r.queue_cached_text(TextHandle(1), Position::new(0, 0), 100, white(), None));
    assert!(!r.set_cached_text(TextHandle(1), "x"));
    assert!(!r.invalidate_cached_text(TextHandle(1)));
    assert_eq!(r.queued_text_count(), 0);
    assert_eq!(r.shape_request_count(), 1);
}

#[test]
fn changing_the_content_of_a_cached_text_shapes_it_again() {
    let mut r = Renderer::new(800, 600);
    let h = r.create_cached_text("old", 24);
    r.drain();
    assert!(r.set_cached_text(h, "new"));
    let batch = r.drain();
    assert_eq!(
        batch.shape_requests,
        vec![ShapeRequest { target: BufferRef::Cached(h), content: "new".to_string(), size: 24 }]
    );
    assert!(r.is_cached(h));
}

#[test]
fn invalidated_text_is_gone_and_other_handles_stay() {
    let mut r = Renderer::new(800, 600);
    let a = r.create_cached_text("a", 10);
    let b = r.create_cached_text("b", 10);
    assert!(r.invalidate_cached_text(a));
    assert!(!r.is_cached(a));
    assert!(r.is_cached(b));
    assert!(!r.invalidate_cached_text(a));
    assert!(!r.queue_cached_text(a, Position::new(0, 0), 100, white(), None));
    assert!(!r.set_cached_text(a, "again"));
    assert!(r.queue_cached_text(b, Position::new(0, 0), 100, white(), None));
    let c = r.create_cached_text("c", 10);
    assert_eq!(c, TextHandle(2));
}

#[test]
fn text_queued_by_content_is_shaped_every_time() {
    let mut r = Renderer::new(800, 600);
    r.create_cached_text("cached", 10);
    r.queue_text("Player: 1", Position::new(10, 30), 16, white());
    r.queue_text("Player: 1", Position::new(10, 60), 16, white());
    let batch = r.drain();
    assert_eq!(batch.shape_requests.len(), 3);
    assert_eq!(
        batch.shape_requests[1],
        ShapeRequest { target: BufferRef::Immediate(1), content: "Player: 1".to_string(), size: 16 }
    );
    assert_eq!(
        batch.shape_requests[2],
        ShapeRequest { target: BufferRef::Immediate(2), content: "Player: 1".to_string(), size: 16 }
    );
    assert_eq!(
        batch.texts,
        vec![
            QueuedText {
                buffer_ref: BufferRef::Immediate(1),
                position: Position::new(10, 30),
                color: white(),
                scale_percent: 100,
                bounds: None,
            },
            QueuedText {
                buffer_ref: BufferRef::Immediate(2),
                position: Position::new(10, 60),
                color: white(),
                scale_percent: 100,
                bounds: None,
            },
        ]
    );
    r.queue_text("next frame", Position::new(0, 0), 8, white());
    let next = r.drain();
    assert_eq!(next.shape_requests.len(), 1);
    assert_eq!(next.shape_requests[0].target, BufferRef::Immediate(0));
    assert_eq!(next.texts[0].buffer_ref, BufferRef::Immediate(0));
}

#[test]
fn rectangles_are_queued_in_order_and_drained() {
    let mut r = Renderer::new(800, 600);
    r.queue_rectangle(1, 2, 3, 4, Color::rgba(255, 0, 0, 255));
    r.queue_rectangle(-5, -6, 7, 8, white());
    assert_eq!(r.queued_rectangle_count(), 2);
    let batch = r.drain();
    assert_eq!(
        batch.rectangles,
        vec![
            QueuedRectangle {
                position: Position::new(1, 2),
                size: Size::new(3, 4),
                color: Color::rgba(255, 0, 0, 255),
            },
            QueuedRectangle {
                position: Position::new(-5, -6),
                size: Size::new(7, 8),
                color: white(),
            },
        ]
    );
    assert_eq!(r.queued_rectangle_count(), 0);
    assert!(r.drain().rectangles.is_empty());
}

#[test]
fn renderer_resize_ignores_a_viewport_without_area() {
    let mut r = Renderer::new(800, 600);
    assert!(r.resize(1024, 768));
    assert_eq!(r.viewport(), (1024, 768));
    assert!(!r.resize(0, 768));
    assert!(!r.resize(1024, 0));
    assert!(!r.resize(0, 0));
    assert_eq!(r.viewport(), (1024, 768));
}
