//! The entity store: one component array for each component type, all of
//! them addressed by the number of the entity's slot.
//!
//! Entities are numbered in the order in which they are spawned and keep
//! their number for good; a despawned entity leaves an empty slot behind.
//! Every walk over the store visits the slots in that order.

use crate::column::Column;
use crate::components::{Bounds, Position, Renderable, Size, Velocity};
use vstd::prelude::*;

verus! {

/// What part an entity plays in the simulation.
#[derive(Clone, Copy, Debug, PartialEq, Eq, Structural)]
pub enum Role {
    /// The paddle steered by the player.
    PlayerPaddle,
    /// The paddle steered by the built-in opponent.
    AiPaddle,
    /// The object that bounces between the paddles.
    Ball,
}

/// Which viewport edges an entity keeps its distance to when the viewport
/// is resized. An entity without an anchor stays relative to the top-left
/// corner.
#[derive(Clone, Copy, Debug, PartialEq, Eq, Structural)]
pub struct Anchor {
    pub right: bool,
    pub bottom: bool,
}

/// The component types that the store knows.
#[derive(Clone, Copy, Debug, PartialEq, Eq, Structural)]
pub enum ComponentKind {
    Position,
    Velocity,
    Size,
    Bounds,
    Renderable,
    Role,
    Anchor,
}

/// One component value, tagged with its type.
#[derive(Clone, Copy, Debug, PartialEq, Eq, Structural)]
pub enum Component {
    Position(Position),
    Velocity(Velocity),
    Size(Size),
    Bounds(Bounds),
    Renderable(Renderable),
    Role(Role),
    Anchor(Anchor),
}

/// The components of one entity: at most one of each type.
#[derive(Clone, Copy, Debug, PartialEq, Eq)]
pub struct Bundle {
    pub position: Option<Position>,
    pub velocity: Option<Velocity>,
    pub size: Option<Size>,
    pub bounds: Option<Bounds>,
    pub renderable: Option<Renderable>,
    pub role: Option<Role>,
    pub anchor: Option<Anchor>,
}

/// A set of component types.
#[derive(Clone, Copy, Debug, PartialEq, Eq, Structural)]
pub struct ComponentSet {
    pub position: bool,
    pub velocity: bool,
    pub size: bool,
    pub bounds: bool,
    pub renderable: bool,
    pub role: bool,
    pub anchor: bool,
}

/// Opaque handle of an entity in a [`World`].
#[derive(Clone, Copy, Debug, PartialEq, Eq, Structural)]
pub struct Entity {
    index: usize,
}

/// The store itself. Its view is the sequence of its slots in spawn order:
/// `Some` with the components of a live entity, `None` where an entity was
/// despawned.
pub struct World {
    live: Vec<bool>,
    positions: Column<Position>,
    velocities: Column<Velocity>,
    sizes: Column<Size>,
    bounds: Column<Bounds>,
    renderables: Column<Renderable>,
    roles: Column<Role>,
    anchors: Column<Anchor>,
}

impl Component {
    /// The type of this component.
    pub open spec fn spec_kind(self) -> ComponentKind {
        match self {
            Component::Position(_) => ComponentKind::Position,
            Component::Velocity(_) => ComponentKind::Velocity,
            Component::Size(_) => ComponentKind::Size,
            Component::Bounds(_) => ComponentKind::Bounds,
            Component::Renderable(_) => ComponentKind::Renderable,
            Component::Role(_) => ComponentKind::Role,
            Component::Anchor(_) => ComponentKind::Anchor,
        }
    }

    #[verifier::when_used_as_spec(spec_kind)]
    pub fn kind(self) -> (kind: ComponentKind)
        ensures
            kind == self.spec_kind(),
    {
        match self {
            Component::Position(_) => ComponentKind::Position,
            Component::Velocity(_) => ComponentKind::Velocity,
            Component::Size(_) => ComponentKind::Size,
            Component::Bounds(_) => ComponentKind::Bounds,
            Component::Renderable(_) => ComponentKind::Renderable,
            Component::Role(_) => ComponentKind::Role,
            Component::Anchor(_) => ComponentKind::Anchor,
        }
    }
}

impl ComponentSet {
    /// Whether the set holds `kind`.
    pub open spec fn spec_contains(self, kind: ComponentKind) -> bool {
        match kind {
            ComponentKind::Position => self.position,
            ComponentKind::Velocity => self.velocity,
            ComponentKind::Size => self.size,
            ComponentKind::Bounds => self.bounds,
            ComponentKind::Renderable => self.renderable,
            ComponentKind::Role => self.role,
            ComponentKind::Anchor => self.anchor,
        }
    }

    /// The set with `kind` added.
    pub open spec fn spec_with(self, kind: ComponentKind) -> ComponentSet {
        match kind {
            ComponentKind::Position => ComponentSet { position: true, ..self },
            ComponentKind::Velocity => ComponentSet { velocity: true, ..self },
            ComponentKind::Size => ComponentSet { size: true, ..self },
            ComponentKind::Bounds => ComponentSet { bounds: true, ..self },
            ComponentKind::Renderable => ComponentSet { renderable: true, ..self },
            ComponentKind::Role => ComponentSet { role: true, ..self },
            ComponentKind::Anchor => ComponentSet { anchor: true, ..self },
        }
    }

    /// The set that holds a kind when `self` or `other` holds it.
    pub open spec fn spec_union(self, other: ComponentSet) -> ComponentSet {
        ComponentSet {
            position: self.position || other.position,
            velocity: self.velocity || other.velocity,
            size: self.size || other.size,
            bounds: self.bounds || other.bounds,
            renderable: self.renderable || other.renderable,
            role: self.role || other.role,
            anchor: self.anchor || other.anchor,
        }
    }

    /// The set without any kind.
    pub open spec fn spec_empty() -> ComponentSet {
        ComponentSet {
            position: false,
            velocity: false,
            size: false,
            bounds: false,
            renderable: false,
            role: false,
            anchor: false,
        }
    }

    /// The set without any kind.
    pub fn empty() -> (set: Self)
        ensures
            set == ComponentSet::spec_empty(),
            forall|kind: ComponentKind| !set.contains(kind),
    {
        ComponentSet {
            position: false,
            velocity: false,
            size: false,
            bounds: false,
            renderable: false,
            role: false,
            anchor: false,
        }
    }

    #[verifier::when_used_as_spec(spec_contains)]
    pub fn contains(self, kind: ComponentKind) -> (found: bool)
        ensures
            found == self.spec_contains(kind),
    {
        match kind {
            ComponentKind::Position => self.position,
            ComponentKind::Velocity => self.velocity,
            ComponentKind::Size => self.size,
            ComponentKind::Bounds => self.bounds,
            ComponentKind::Renderable => self.renderable,
            ComponentKind::Role => self.role,
            ComponentKind::Anchor => self.anchor,
        }
    }

    /// Adds `kind`; every other kind stays as it was.
    #[verifier::when_used_as_spec(spec_with)]
    pub fn with(self, kind: ComponentKind) -> (set: Self)
        ensures
            set == self.spec_with(kind),
            forall|other: ComponentKind|
                set.contains(other) == (other == kind || self.contains(other)),
    {
        let mut set = self;
        match kind {
            ComponentKind::Position => { set.position = true; },
            ComponentKind::Velocity => { set.velocity = true; },
            ComponentKind::Size => { set.size = true; },
            ComponentKind::Bounds => { set.bounds = true; },
            ComponentKind::Renderable => { set.renderable = true; },
            ComponentKind::Role => { set.role = true; },
            ComponentKind::Anchor => { set.anchor = true; },
        }
        set
    }

    #[verifier::when_used_as_spec(spec_union)]
    pub fn union(self, other: ComponentSet) -> (set: Self)
        ensures
            set == self.spec_union(other),
            forall|kind: ComponentKind|
                set.contains(kind) == (self.contains(kind) || other.contains(kind)),
    {
        ComponentSet {
            position: self.position || other.position,
            velocity: self.velocity || other.velocity,
            size: self.size || other.size,
            bounds: self.bounds || other.bounds,
            renderable: self.renderable || other.renderable,
            role: self.role || other.role,
            anchor: self.anchor || other.anchor,
        }
    }
}

impl Bundle {
    /// Whether the bundle holds a component of type `kind`.
    pub open spec fn spec_has(self, kind: ComponentKind) -> bool {
        match kind {
            ComponentKind::Position => self.position is Some,
            ComponentKind::Velocity => self.velocity is Some,
            ComponentKind::Size => self.size is Some,
            ComponentKind::Bounds => self.bounds is Some,
            ComponentKind::Renderable => self.renderable is Some,
            ComponentKind::Role => self.role is Some,
            ComponentKind::Anchor => self.anchor is Some,
        }
    }

    /// Whether the bundle holds every component type in `set`.
    pub open spec fn spec_has_all(self, set: ComponentSet) -> bool {
        forall|kind: ComponentKind| set.contains(kind) ==> self.spec_has(kind)
    }

    /// The bundle with `component` put in place of any component of the
    /// same type.
    pub open spec fn spec_with(self, component: Component) -> Bundle {
        match component {
            Component::Position(p) => Bundle { position: Some(p), ..self },
            Component::Velocity(v) => Bundle { velocity: Some(v), ..self },
            Component::Size(s) => Bundle { size: Some(s), ..self },
            Component::Bounds(b) => Bundle { bounds: Some(b), ..self },
            Component::Renderable(r) => Bundle { renderable: Some(r), ..self },
            Component::Role(r) => Bundle { role: Some(r), ..self },
            Component::Anchor(a) => Bundle { anchor: Some(a), ..self },
        }
    }

    /// The bundle with any component of type `kind` taken out.
    pub open spec fn spec_without(self, kind: ComponentKind) -> Bundle {
        match kind {
            ComponentKind::Position => Bundle { position: None, ..self },
            ComponentKind::Velocity => Bundle { velocity: None, ..self },
            ComponentKind::Size => Bundle { size: None, ..self },
            ComponentKind::Bounds => Bundle { bounds: None, ..self },
            ComponentKind::Renderable => Bundle { renderable: None, ..self },
            ComponentKind::Role => Bundle { role: None, ..self },
            ComponentKind::Anchor => Bundle { anchor: None, ..self },
        }
    }

    /// The component of type `kind` that the bundle holds, if any.
    pub open spec fn spec_get(self, kind: ComponentKind) -> Option<Component> {
        match kind {
            ComponentKind::Position => match self.position {
                Some(p) => Some(Component::Position(p)),
                None => None,
            },
            ComponentKind::Velocity => match self.velocity {
                Some(v) => Some(Component::Velocity(v)),
                None => None,
            },
            ComponentKind::Size => match self.size {
                Some(s) => Some(Component::Size(s)),
                None => None,
            },
            ComponentKind::Bounds => match self.bounds {
                Some(b) => Some(Component::Bounds(b)),
                None => None,
            },
            ComponentKind::Renderable => match self.renderable {
                Some(r) => Some(Component::Renderable(r)),
                None => None,
            },
            ComponentKind::Role => match self.role {
                Some(r) => Some(Component::Role(r)),
                None => None,
            },
            ComponentKind::Anchor => match self.anchor {
                Some(a) => Some(Component::Anchor(a)),
                None => None,
            },
        }
    }

    /// The bundle without any component.
    pub open spec fn spec_empty() -> Bundle {
        Bundle {
            position: None,
            velocity: None,
            size: None,
            bounds: None,
            renderable: None,
            role: None,
            anchor: None,
        }
    }

    /// A bundle without any component.
    pub fn new() -> (bundle: Self)
        ensures
            bundle == Bundle::spec_empty(),
    {
        Bundle {
            position: None,
            velocity: None,
            size: None,
            bounds: None,
            renderable: None,
            role: None,
            anchor: None,
        }
    }

    #[verifier::when_used_as_spec(spec_has)]
    pub fn has(self, kind: ComponentKind) -> (found: bool)
        ensures
            found == self.spec_has(kind),
    {
        match kind {
            ComponentKind::Position => self.position.is_some(),
            ComponentKind::Velocity => self.velocity.is_some(),
            ComponentKind::Size => self.size.is_some(),
            ComponentKind::Bounds => self.bounds.is_some(),
            ComponentKind::Renderable => self.renderable.is_some(),
            ComponentKind::Role => self.role.is_some(),
            ComponentKind::Anchor => self.anchor.is_some(),
        }
    }

    #[verifier::when_used_as_spec(spec_has_all)]
    pub fn has_all(self, set: ComponentSet) -> (found: bool)
        ensures
            found == self.spec_has_all(set),
    {
        let found = (!set.position || self.position.is_some()) && (!set.velocity
            || self.velocity.is_some()) && (!set.size || self.size.is_some()) && (!set.bounds
            || self.bounds.is_some()) && (!set.renderable || self.renderable.is_some()) && (
        !set.role || self.role.is_some()) && (!set.anchor || self.anchor.is_some());
        proof {
            if found {
                assert forall|kind: ComponentKind| set.contains(kind) implies self.spec_has(
                    kind,
                ) by {}
            } else {
                assert(!(set.contains(ComponentKind::Position) ==> self.spec_has(
                    ComponentKind::Position,
                )) || !(set.contains(ComponentKind::Velocity) ==> self.spec_has(
                    ComponentKind::Velocity,
                )) || !(set.contains(ComponentKind::Size) ==> self.spec_has(ComponentKind::Size))
                    || !(set.contains(ComponentKind::Bounds) ==> self.spec_has(
                    ComponentKind::Bounds,
                )) || !(set.contains(ComponentKind::Renderable) ==> self.spec_has(
                    ComponentKind::Renderable,
                )) || !(set.contains(ComponentKind::Role) ==> self.spec_has(ComponentKind::Role))
                    || !(set.contains(ComponentKind::Anchor) ==> self.spec_has(
                    ComponentKind::Anchor,
                )));
            }
        }
        found
    }

    /// The component of type `kind`, if the bundle holds one.
    #[verifier::when_used_as_spec(spec_get)]
    pub fn get(self, kind: ComponentKind) -> (found: Option<Component>)
        ensures
            found == self.spec_get(kind),
            found is Some == self.spec_has(kind),
            found is Some ==> found->Some_0.spec_kind() == kind,
    {
        match kind {
            ComponentKind::Position => match self.position {
                Some(p) => Some(Component::Position(p)),
                None => None,
            },
            ComponentKind::Velocity => match self.velocity {
                Some(v) => Some(Component::Velocity(v)),
                None => None,
            },
            ComponentKind::Size => match self.size {
                Some(s) => Some(Component::Size(s)),
                None => None,
            },
            ComponentKind::Bounds => match self.bounds {
                Some(b) => Some(Component::Bounds(b)),
                None => None,
            },
            ComponentKind::Renderable => match self.renderable {
                Some(r) => Some(Component::Renderable(r)),
                None => None,
            },
            ComponentKind::Role => match self.role {
                Some(r) => Some(Component::Role(r)),
                None => None,
            },
            ComponentKind::Anchor => match self.anchor {
                Some(a) => Some(Component::Anchor(a)),
                None => None,
            },
        }
    }

    /// Puts `component` into the bundle, in place of any of the same type.
    #[verifier::when_used_as_spec(spec_with)]
    pub fn with(self, component: Component) -> (bundle: Self)
        ensures
            bundle == self.spec_with(component),
    {
        let mut bundle = self;
        match component {
            Component::Position(p) => { bundle.position = Some(p); },
            Component::Velocity(v) => { bundle.velocity = Some(v); },
            Component::Size(s) => { bundle.size = Some(s); },
            Component::Bounds(b) => { bundle.bounds = Some(b); },
            Component::Renderable(r) => { bundle.renderable = Some(r); },
            Component::Role(r) => { bundle.role = Some(r); },
            Component::Anchor(a) => { bundle.anchor = Some(a); },
        }
        bundle
    }

    /// Takes any component of type `kind` out of the bundle.
    #[verifier::when_used_as_spec(spec_without)]
    pub fn without(self, kind: ComponentKind) -> (bundle: Self)
        ensures
            bundle == self.spec_without(kind),
    {
        let mut bundle = self;
        match kind {
            ComponentKind::Position => { bundle.position = None; },
            ComponentKind::Velocity => { bundle.velocity = None; },
            ComponentKind::Size => { bundle.size = None; },
            ComponentKind::Bounds => { bundle.bounds = None; },
            ComponentKind::Renderable => { bundle.renderable = None; },
            ComponentKind::Role => { bundle.role = None; },
            ComponentKind::Anchor => { bundle.anchor = None; },
        }
        bundle
    }
}

impl Entity {
    /// The number of the slot that the entity occupies.
    pub closed spec fn spec_index(self) -> usize {
        self.index
    }

    #[verifier::when_used_as_spec(spec_index)]
    pub fn index(self) -> (index: usize)
        ensures
            index == self.spec_index(),
    {
        self.index
    }
}

/// Whether slot `index` of `slots` holds a live entity with every component
/// type in `set`.
pub open spec fn slot_matches(slots: Seq<Option<Bundle>>, index: int, set: ComponentSet) -> bool {
    0 <= index < slots.len() && slots[index] is Some && slots[index]->Some_0.spec_has_all(set)
}

/// The entities found are those that `wanted` yields among `slots`, each
/// once, in spawn order.
pub open spec fn yields(slots: Seq<Option<Bundle>>, wanted: ComponentSet, found: Seq<Entity>) -> bool {
    &&& forall|j: int|
        0 <= j < found.len() ==> slot_matches(slots, (#[trigger] found[j]).index() as int, wanted)
    &&& forall|i: int, j: int| 0 <= i < j < found.len() ==> found[i].index() < found[j].index()
    &&& forall|at: int|
        slot_matches(slots, at, wanted) ==> exists|j: int|
            0 <= j < found.len() && (#[trigger] found[j]).index() == at
}

/// The slot number from which on a walk over `found` has not come by yet,
/// after `done` of the entities found: the slot of the next entity, or the
/// end of the store.
pub open spec fn frontier(found: Seq<Entity>, done: int, slots: int) -> int {
    if done < found.len() {
        found[done].index() as int
    } else {
        slots
    }
}

/// Between one entity found and the next, no slot holds an entity that the
/// query yields.
pub proof fn lemma_no_match_between(
    slots: Seq<Option<Bundle>>,
    found: Seq<Entity>,
    wanted: ComponentSet,
    next: int,
    idx: int,
)
    requires
        0 <= next <= found.len(),
        yields(slots, wanted, found),
        0 <= idx < frontier(found, next, slots.len() as int),
        next > 0 ==> found[next - 1].index() < idx,
    ensures
        !slot_matches(slots, idx, wanted),
{
    if slot_matches(slots, idx, wanted) {
        let j = choose|j: int| 0 <= j < found.len() && (#[trigger] found[j]).index() == idx;
        if j < next {
            if j < next - 1 {
                assert(found[j].index() < found[next - 1].index());
            }
        } else if j > next {
            assert(found[next].index() < found[j].index());
        }
    }
}

/// An entity that lacks a component type of a set lacks one in particular.
pub proof fn lemma_lacks_one(b: Bundle, wanted: ComponentSet) -> (kind: ComponentKind)
    requires
        !b.spec_has_all(wanted),
    ensures
        wanted.contains(kind),
        !b.spec_has(kind),
{
    choose|kind: ComponentKind| wanted.contains(kind) && !b.spec_has(kind)
}

impl View for World {
    type V = Seq<Option<Bundle>>;

    closed spec fn view(&self) -> Seq<Option<Bundle>> {
        Seq::new(
            self.live@.len(),
            |i: int|
                if self.live@[i] {
                    Some(self.gathered(i))
                } else {
                    None
                },
        )
    }
}

impl World {
    /// The components that the columns hold for slot `index`.
    closed spec fn gathered(&self, index: int) -> Bundle {
        Bundle {
            position: self.positions.at(index),
            velocity: self.velocities.at(index),
            size: self.sizes.at(index),
            bounds: self.bounds.at(index),
            renderable: self.renderables.at(index),
            role: self.roles.at(index),
            anchor: self.anchors.at(index),
        }
    }

    /// Whether `entity` names a live entity of this world.
    pub open spec fn spec_is_alive(&self, entity: Entity) -> bool {
        entity.index() < self@.len() && self@[entity.index() as int] is Some
    }

    /// A world without entities.
    pub fn new() -> (world: Self)
        ensures
            world@ == Seq::<Option<Bundle>>::empty(),
    {
        let world = World {
            live: Vec::new(),
            positions: Column::new(),
            velocities: Column::new(),
            sizes: Column::new(),
            bounds: Column::new(),
            renderables: Column::new(),
            roles: Column::new(),
            anchors: Column::new(),
        };
        assert(world@ =~= Seq::<Option<Bundle>>::empty());
        world
    }

    /// The number of slots: every entity ever spawned has one.
    pub fn len(&self) -> (n: usize)
        ensures
            n == self@.len(),
    {
        self.live.len()
    }

    /// The handle of the entity in slot `index`, live or not.
    pub fn entity_at(&self, index: usize) -> (entity: Entity)
        ensures
            entity.index() == index,
    {
        Entity { index }
    }

    /// Writes the components of `bundle` into slot `index` of the columns.
    fn scatter(&mut self, index: usize, bundle: Bundle)
        ensures
            final(self).live == old(self).live,
            final(self).gathered(index as int) == bundle,
            forall|other: int|
                other != index ==> (#[trigger] final(self).gathered(other)) == old(self).gathered(
                    other,
                ),
    {
        self.positions.put(index, bundle.position);
        self.velocities.put(index, bundle.velocity);
        self.sizes.put(index, bundle.size);
        self.bounds.put(index, bundle.bounds);
        self.renderables.put(index, bundle.renderable);
        self.roles.put(index, bundle.role);
        self.anchors.put(index, bundle.anchor);
    }

    /// Adds an entity with the given components in a new last slot.
    pub fn spawn(&mut self, bundle: Bundle) -> (entity: Entity)
        ensures
            final(self)@ == old(self)@.push(Some(bundle)),
            entity.index() == old(self)@.len(),
    {
        let index = self.live.len();
        self.live.push(true);
        self.scatter(index, bundle);
        assert(self@ =~= old(self)@.push(Some(bundle)));
        Entity { index }
    }

    /// Removes a live entity and its components. Returns whether there was
    /// one; otherwise nothing changes.
    pub fn despawn(&mut self, entity: Entity) -> (removed: bool)
        ensures
            removed == old(self).spec_is_alive(entity),
            removed ==> final(self)@ == old(self)@.update(entity.index() as int, None),
            !removed ==> final(self)@ == old(self)@,
    {
        if entity.index < self.live.len() && self.live[entity.index] {
            self.live[entity.index] = false;
            self.scatter(entity.index, Bundle::new());
            assert(self@ =~= old(self)@.update(entity.index() as int, None));
            true
        } else {
            false
        }
    }

    #[verifier::when_used_as_spec(spec_is_alive)]
    pub fn is_alive(&self, entity: Entity) -> (alive: bool)
        ensures
            alive == self.spec_is_alive(entity),
    {
        entity.index < self.live.len() && self.live[entity.index]
    }

    /// The components of `entity`, or `None` when it is not alive.
    pub fn get(&self, entity: Entity) -> (found: Option<Bundle>)
        ensures
            found == if self.spec_is_alive(entity) {
                self@[entity.index() as int]
            } else {
                None
            },
    {
        let index = entity.index;
        if index < self.live.len() && self.live[index] {
            Some(
                Bundle {
                    position: self.positions.get(index),
                    velocity: self.velocities.get(index),
                    size: self.sizes.get(index),
                    bounds: self.bounds.get(index),
                    renderable: self.renderables.get(index),
                    role: self.roles.get(index),
                    anchor: self.anchors.get(index),
                },
            )
        } else {
            None
        }
    }

    /// Gives a live entity the components in `bundle` in place of those it
    /// had. Returns whether the entity was alive; otherwise nothing changes.
    pub fn set(&mut self, entity: Entity, bundle: Bundle) -> (done: bool)
        ensures
            done == old(self).spec_is_alive(entity),
            done ==> final(self)@ == old(self)@.update(entity.index() as int, Some(bundle)),
            !done ==> final(self)@ == old(self)@,
    {
        if entity.index < self.live.len() && self.live[entity.index] {
            self.scatter(entity.index, bundle);
            assert(self@ =~= old(self)@.update(entity.index() as int, Some(bundle)));
            true
        } else {
            false
        }
    }

    /// Attaches `component` to a live entity, in place of any component of
    /// the same type. Returns whether the entity was alive; otherwise
    /// nothing changes.
    pub fn insert(&mut self, entity: Entity, component: Component) -> (done: bool)
        ensures
            done == old(self).spec_is_alive(entity),
            done ==> final(self)@ == old(self)@.update(
                entity.index() as int,
                Some(old(self)@[entity.index() as int]->Some_0.spec_with(component)),
            ),
            !done ==> final(self)@ == old(self)@,
    {
        let index = entity.index;
        if index < self.live.len() && self.live[index] {
            match component {
                Component::Position(p) => self.positions.put(index, Some(p)),
                Component::Velocity(v) => self.velocities.put(index, Some(v)),
                Component::Size(s) => self.sizes.put(index, Some(s)),
                Component::Bounds(b) => self.bounds.put(index, Some(b)),
                Component::Renderable(r) => self.renderables.put(index, Some(r)),
                Component::Role(r) => self.roles.put(index, Some(r)),
                Component::Anchor(a) => self.anchors.put(index, Some(a)),
            }
            assert(self@ =~= old(self)@.update(
                index as int,
                Some(old(self)@[index as int]->Some_0.spec_with(component)),
            ));
            true
        } else {
            false
        }
    }

    /// Detaches the component of type `kind` from a live entity. Returns
    /// whether the entity was alive; otherwise nothing changes.
    pub fn remove(&mut self, entity: Entity, kind: ComponentKind) -> (done: bool)
        ensures
            done == old(self).spec_is_alive(entity),
            done ==> final(self)@ == old(self)@.update(
                entity.index() as int,
                Some(old(self)@[entity.index() as int]->Some_0.spec_without(kind)),
            ),
            !done ==> final(self)@ == old(self)@,
    {
        let index = entity.index;
        if index < self.live.len() && self.live[index] {
            match kind {
                ComponentKind::Position => self.positions.put(index, None),
                ComponentKind::Velocity => self.velocities.put(index, None),
                ComponentKind::Size => self.sizes.put(index, None),
                ComponentKind::Bounds => self.bounds.put(index, None),
                ComponentKind::Renderable => self.renderables.put(index, None),
                ComponentKind::Role => self.roles.put(index, None),
                ComponentKind::Anchor => self.anchors.put(index, None),
            }
            assert(self@ =~= old(self)@.update(
                index as int,
                Some(old(self)@[index as int]->Some_0.spec_without(kind)),
            ));
            true
        } else {
            false
        }
    }

    /// The live entities that hold every component type in `set`, in spawn
    /// order.
    pub fn entities_with(&self, set: ComponentSet) -> (found: Vec<Entity>)
        ensures
            yields(self@, set, found@),
    {
        let mut found: Vec<Entity> = Vec::new();
        let n = self.len();
        let mut i: usize = 0;
        while i < n
            invariant
                n == self@.len(),
                i <= n,
                forall|k: int|
                    0 <= k < found.len() ==> slot_matches(
                        self@,
                        (#[trigger] found[k]).index() as int,
                        set,
                    ) && found[k].index() < i,
                forall|j: int, k: int|
                    0 <= j < k < found.len() ==> found[j].index() < found[k].index(),
                forall|index: int|
                    0 <= index < i && slot_matches(self@, index, set) ==> exists|k: int|
                        0 <= k < found.len() && (#[trigger] found[k]).index() == index,
            decreases n - i,
        {
            let hit = match self.get(Entity { index: i }) {
                Some(bundle) => bundle.has_all(set),
                None => false,
            };
            if hit {
                let ghost before = found@;
                found.push(Entity { index: i });
                proof {
                    assert forall|index: int|
                        0 <= index < i + 1 && slot_matches(self@, index, set) implies exists|
                        k: int,
                    |
                        0 <= k < found.len() && (#[trigger] found[k]).index() == index by {
                        if index < i {
                            let k = choose|k: int|
                                0 <= k < before.len() && (#[trigger] before[k]).index() == index;
                            assert(found[k] == before[k]);
                        } else {
                            assert(found[before.len() as int].index() == index);
                        }
                    }
                }
            }
            i += 1;
        }
        found
    }
}

} // verus!
