//! Systems that the engine itself runs every frame.

use crate::engine::context::Engine;
use crate::render::queue::RendererView;
use crate::render::types::QueuedRectangle;
use crate::world::{
    Bundle,
    ComponentKind,
    ComponentSet,
    Entity,
    frontier,
    lemma_lacks_one,
    lemma_no_match_between,
    slot_matches,
    yields,
};
use vstd::prelude::*;

verus! {

/// The rectangle that an entity is drawn as: its position, its size and the
/// colour of its renderable. An entity that lacks one of the three is not
/// drawn.
pub open spec fn rectangle_of(slot: Option<Bundle>) -> Option<QueuedRectangle> {
    match slot {
        Some(b) => if b.position is Some && b.size is Some && b.renderable is Some {
            Some(
                QueuedRectangle {
                    position: b.position->Some_0,
                    size: b.size->Some_0,
                    color: b.renderable->Some_0.color,
                },
            )
        } else {
            None
        },
        None => None,
    }
}

/// The rectangles of all drawn entities, in spawn order.
pub open spec fn drawn_rectangles(slots: Seq<Option<Bundle>>) -> Seq<QueuedRectangle>
    decreases slots.len(),
{
    if slots.len() == 0 {
        Seq::empty()
    } else {
        let earlier = drawn_rectangles(slots.drop_last());
        match rectangle_of(slots.last()) {
            Some(rectangle) => earlier.push(rectangle),
            None => earlier,
        }
    }
}

/// One more slot adds its rectangle, if it has one, behind those of the
/// slots before it.
proof fn lemma_drawn_up_to_next(slots: Seq<Option<Bundle>>, upto: int)
    requires
        0 <= upto < slots.len(),
    ensures
        drawn_rectangles(slots.take(upto + 1)) == match rectangle_of(slots[upto]) {
            Some(rectangle) => drawn_rectangles(slots.take(upto)).push(rectangle),
            None => drawn_rectangles(slots.take(upto)),
        },
{
    assert(slots.take(upto + 1).drop_last() =~= slots.take(upto));
    assert(slots.take(upto + 1).last() == slots[upto]);
}

/// Slots without a rectangle add nothing to what is drawn.
proof fn lemma_nothing_drawn_between(slots: Seq<Option<Bundle>>, from: int, to: int)
    requires
        0 <= from <= to <= slots.len(),
        forall|at: int| from <= at < to ==> rectangle_of(#[trigger] slots[at]) is None,
    ensures
        drawn_rectangles(slots.take(to)) == drawn_rectangles(slots.take(from)),
    decreases to - from,
{
    if from < to {
        lemma_nothing_drawn_between(slots, from, to - 1);
        lemma_drawn_up_to_next(slots, to - 1);
    }
}

/// Queues a rectangle for every live entity with a position, a size and a
/// renderable, in spawn order, behind what is queued already. Nothing else
/// changes.
pub fn render_system(engine: &mut Engine)
    ensures
        final(engine).renderer@ == (RendererView {
            rectangles: old(engine).renderer@.rectangles + drawn_rectangles(old(engine).world@),
            ..old(engine).renderer@
        }),
        final(engine).world == old(engine).world,
        final(engine).input == old(engine).input,
        final(engine).time == old(engine).time,
{
    let ghost slots = engine.world@;
    let ghost queued = engine.renderer@.rectangles;
    let wanted = ComponentSet::empty().with(ComponentKind::Position).with(ComponentKind::Size).with(
        ComponentKind::Renderable,
    );
    let found = engine.world.entities_with(wanted);
    let m = found.len();
    let mut k: usize = 0;
    proof {
        assert forall|at: int| 0 <= at < frontier(found@, 0, slots.len() as int) implies rectangle_of(
            #[trigger] slots[at],
        ) is None by {
            lemma_undrawn_between(slots, found@, wanted, 0, at);
        }
        if m > 0 {
            assert(slot_matches(slots, found[0].index() as int, wanted));
        }
        lemma_nothing_drawn_between(slots, 0, frontier(found@, 0, slots.len() as int));
        assert(slots.take(0) =~= Seq::empty());
        assert(queued + drawn_rectangles(slots.take(0)) =~= queued);
    }
    while k < m
        invariant
            k <= m,
            m == found.len(),
            engine.world == old(engine).world,
            engine.input == old(engine).input,
            engine.time == old(engine).time,
            slots == engine.world@,
            yields(slots, wanted, found@),
            wanted == (ComponentSet {
                position: true,
                size: true,
                renderable: true,
                ..ComponentSet::spec_empty()
            }),
            0 <= frontier(found@, k as int, slots.len() as int) <= slots.len(),
            engine.renderer@ == (RendererView {
                rectangles: queued + drawn_rectangles(
                    slots.take(frontier(found@, k as int, slots.len() as int)),
                ),
                ..old(engine).renderer@
            }),
        decreases m - k,
    {
        let entity = found[k];
        let ghost here = entity.index() as int;
        assert(slot_matches(slots, here, wanted));
        match engine.world.get(entity) {
            Some(bundle) => {
                match (bundle.position, bundle.size, bundle.renderable) {
                    (Some(p), Some(s), Some(r)) => {
                        engine.renderer.queue_rectangle(p.x, p.y, s.width, s.height, r.color);
                    },
                    _ => {},
                }
            },
            None => {},
        }
        proof {
            let next = frontier(found@, k + 1, slots.len() as int);
            if k + 1 < m {
                assert(slot_matches(slots, found[k + 1].index() as int, wanted));
                assert(found[k as int].index() < found[k + 1].index());
            }
            lemma_drawn_up_to_next(slots, here);
            assert forall|at: int| here + 1 <= at < next implies rectangle_of(
                #[trigger] slots[at],
            ) is None by {
                lemma_undrawn_between(slots, found@, wanted, k + 1, at);
            }
            lemma_nothing_drawn_between(slots, here + 1, next);
            assert(engine.renderer@.rectangles =~= queued + drawn_rectangles(slots.take(next)));
        }
        k += 1;
    }
    assert(slots.take(slots.len() as int) =~= slots);
}

/// Between one drawn entity and the next, no slot has a rectangle.
proof fn lemma_undrawn_between(
    slots: Seq<Option<Bundle>>,
    found: Seq<Entity>,
    wanted: ComponentSet,
    next: int,
    at: int,
)
    requires
        wanted == (ComponentSet {
            position: true,
            size: true,
            renderable: true,
            ..ComponentSet::spec_empty()
        }),
        0 <= next <= found.len(),
        yields(slots, wanted, found),
        0 <= at < frontier(found, next, slots.len() as int),
        next > 0 ==> found[next - 1].index() < at,
    ensures
        0 <= at < slots.len(),
        rectangle_of(slots[at]) is None,
{
    lemma_no_match_between(slots, found, wanted, next, at);
    if next < found.len() {
        assert(slot_matches(slots, found[next].index() as int, wanted));
    }
    if slots[at] is Some {
        let kind = lemma_lacks_one(slots[at]->Some_0, wanted);
    }
}

} // verus!
