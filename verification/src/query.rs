//! Queries over the store: which component types a pass wants to see, and
//! whether it wants to read them or to write them exclusively.
//!
//! A query that asks to write a component type may not ask for the same type
//! again, for reading or for writing: such a request is refused when the
//! query is built, before any data is touched.

use crate::world::{
    Bundle,
    Component,
    ComponentKind,
    ComponentSet,
    Entity,
    World,
    slot_matches,
    yields,
};
use vstd::prelude::*;

verus! {

/// How a query wants to see a component type.
#[derive(Clone, Copy, Debug, PartialEq, Eq, Structural)]
pub enum Access {
    /// Shared, read-only.
    Read,
    /// Exclusive, for writing.
    Write,
}

/// One entry of a query: a component type and the access wanted.
#[derive(Clone, Copy, Debug, PartialEq, Eq, Structural)]
pub struct Request {
    pub kind: ComponentKind,
    pub access: Access,
}

/// Why a list of requests was refused.
#[derive(Clone, Copy, Debug, PartialEq, Eq, Structural)]
pub enum QueryError {
    /// The request at `position` asks for `kind`, which an earlier request
    /// already asks for, and at least one of the two wants to write.
    ExclusiveAccessConflict { kind: ComponentKind, position: usize },
}

/// Why a component could not be read or written through a query.
#[derive(Clone, Copy, Debug, PartialEq, Eq, Structural)]
pub enum AccessError {
    /// The query does not ask for `kind` at all.
    NotRequested { kind: ComponentKind },
    /// The query asks for `kind` for reading only.
    ReadOnly { kind: ComponentKind },
    /// Slot `index` holds no live entity with every component type that the
    /// query asks for.
    NoMatch { index: usize },
}

/// A checked query: the component types it reads and those it writes.
#[derive(Clone, Copy, Debug, PartialEq, Eq, Structural)]
pub struct Query {
    reads: ComponentSet,
    writes: ComponentSet,
}

/// Two requests cannot be served together: same type, and one writes.
pub open spec fn requests_conflict(a: Request, b: Request) -> bool {
    a.kind == b.kind && (a.access == Access::Write || b.access == Access::Write)
}

/// Request `position` conflicts with some request before it.
pub open spec fn conflicts_with_earlier(requests: Seq<Request>, position: int) -> bool {
    exists|earlier: int|
        0 <= earlier < position && requests_conflict(requests[earlier], requests[position])
}

/// Some request among the first `count` asks for `kind` with `access`.
pub open spec fn is_requested(
    requests: Seq<Request>,
    count: int,
    kind: ComponentKind,
    access: Access,
) -> bool {
    exists|i: int|
        0 <= i < count && #[trigger] requests[i] == (Request { kind, access })
}

impl Query {
    /// The component types that the query reads.
    pub closed spec fn spec_reads(self) -> ComponentSet {
        self.reads
    }

    /// The component types that the query writes.
    pub closed spec fn spec_writes(self) -> ComponentSet {
        self.writes
    }

    /// Every component type that a matching entity must hold.
    pub open spec fn spec_required(self) -> ComponentSet {
        self.spec_reads().spec_union(self.spec_writes())
    }

    /// Checks a list of requests and builds the query for it.
    ///
    /// Fails exactly when some request conflicts with an earlier one, and
    /// then reports the first such request. Otherwise the query reads the
    /// types requested for reading and writes those requested for writing.
    pub fn new(requests: &Vec<Request>) -> (result: Result<Query, QueryError>)
        ensures
            match result {
                Ok(query) => {
                    &&& forall|position: int|
                        0 <= position < requests.len() ==> !conflicts_with_earlier(
                            requests@,
                            position,
                        )
                    &&& forall|kind: ComponentKind|
                        query.spec_reads().contains(kind) == is_requested(
                            requests@,
                            requests.len() as int,
                            kind,
                            Access::Read,
                        )
                    &&& forall|kind: ComponentKind|
                        query.spec_writes().contains(kind) == is_requested(
                            requests@,
                            requests.len() as int,
                            kind,
                            Access::Write,
                        )
                },
                Err(QueryError::ExclusiveAccessConflict { kind, position }) => {
                    &&& position < requests.len()
                    &&& kind == requests[position as int].kind
                    &&& conflicts_with_earlier(requests@, position as int)
                    &&& forall|before: int|
                        0 <= before < position ==> !conflicts_with_earlier(requests@, before)
                },
            },
    {
        let mut reads = ComponentSet::empty();
        let mut writes = ComponentSet::empty();
        let n = requests.len();
        let mut i: usize = 0;
        while i < n
            invariant
                n == requests.len(),
                i <= n,
                forall|position: int|
                    0 <= position < i ==> !conflicts_with_earlier(requests@, position),
                forall|kind: ComponentKind|
                    reads.contains(kind) == is_requested(requests@, i as int, kind, Access::Read),
                forall|kind: ComponentKind|
                    writes.contains(kind) == is_requested(
                        requests@,
                        i as int,
                        kind,
                        Access::Write,
                    ),
            decreases n - i,
        {
            let request = requests[i];
            let wants_write = match request.access {
                Access::Write => true,
                Access::Read => false,
            };
            let clash = writes.contains(request.kind) || (wants_write && reads.contains(
                request.kind,
            ));
            if clash {
                proof {
                    let access = if writes.contains(request.kind) {
                        Access::Write
                    } else {
                        Access::Read
                    };
                    assert(is_requested(requests@, i as int, request.kind, access));
                    let earlier = choose|e: int|
                        0 <= e < i && #[trigger] requests@[e] == (Request {
                            kind: request.kind,
                            access,
                        });
                    assert(requests_conflict(requests@[earlier], requests@[i as int]));
                }
                return Err(
                    QueryError::ExclusiveAccessConflict { kind: request.kind, position: i },
                );
            }
            proof {
                assert(!conflicts_with_earlier(requests@, i as int)) by {
                    if conflicts_with_earlier(requests@, i as int) {
                        let earlier = choose|e: int|
                            0 <= e < i && requests_conflict(requests@[e], requests@[i as int]);
                        let other = requests@[earlier];
                        assert(requests@[earlier] == (Request {
                            kind: other.kind,
                            access: other.access,
                        }));
                        assert(is_requested(requests@, i as int, other.kind, other.access));
                    }
                }
            }
            let ghost reads_before = reads;
            let ghost writes_before = writes;
            if wants_write {
                writes = writes.with(request.kind);
            } else {
                reads = reads.with(request.kind);
            }
            proof {
                assert(requests@[i as int] == (Request {
                    kind: request.kind,
                    access: request.access,
                }));
                assert forall|kind: ComponentKind|
                    reads.contains(kind) == is_requested(
                        requests@,
                        i + 1,
                        kind,
                        Access::Read,
                    ) by {
                    if is_requested(requests@, i + 1, kind, Access::Read) {
                        let w = choose|w: int|
                            0 <= w < i + 1 && #[trigger] requests@[w] == (Request {
                                kind,
                                access: Access::Read,
                            });
                        if w < i {
                            assert(is_requested(requests@, i as int, kind, Access::Read));
                        }
                    }
                    if reads.contains(kind) {
                        if reads_before.contains(kind) {
                            let w = choose|w: int|
                                0 <= w < i && #[trigger] requests@[w] == (Request {
                                    kind,
                                    access: Access::Read,
                                });
                            assert(is_requested(requests@, i + 1, kind, Access::Read));
                        } else {
                            assert(is_requested(requests@, i + 1, kind, Access::Read));
                        }
                    }
                }
                assert forall|kind: ComponentKind|
                    writes.contains(kind) == is_requested(
                        requests@,
                        i + 1,
                        kind,
                        Access::Write,
                    ) by {
                    if is_requested(requests@, i + 1, kind, Access::Write) {
                        let w = choose|w: int|
                            0 <= w < i + 1 && #[trigger] requests@[w] == (Request {
                                kind,
                                access: Access::Write,
                            });
                        if w < i {
                            assert(is_requested(requests@, i as int, kind, Access::Write));
                        }
                    }
                    if writes.contains(kind) {
                        if writes_before.contains(kind) {
                            let w = choose|w: int|
                                0 <= w < i && #[trigger] requests@[w] == (Request {
                                    kind,
                                    access: Access::Write,
                                });
                            assert(is_requested(requests@, i + 1, kind, Access::Write));
                        } else {
                            assert(is_requested(requests@, i + 1, kind, Access::Write));
                        }
                    }
                }
            }
            i += 1;
        }
        Ok(Query { reads, writes })
    }

    #[verifier::when_used_as_spec(spec_reads)]
    pub fn reads(self) -> (set: ComponentSet)
        ensures
            set == self.spec_reads(),
    {
        self.reads
    }

    #[verifier::when_used_as_spec(spec_writes)]
    pub fn writes(self) -> (set: ComponentSet)
        ensures
            set == self.spec_writes(),
    {
        self.writes
    }

    #[verifier::when_used_as_spec(spec_required)]
    pub fn required(self) -> (set: ComponentSet)
        ensures
            set == self.spec_required(),
    {
        self.reads.union(self.writes)
    }
}

/// What reading the component of type `kind` of `entity` through `query`
/// gives: the component, where the query asks for the type and the entity
/// matches the query.
pub open spec fn read_through(
    slots: Seq<Option<Bundle>>,
    query: Query,
    entity: Entity,
    kind: ComponentKind,
) -> Result<Component, AccessError> {
    if !query.spec_required().contains(kind) {
        Err(AccessError::NotRequested { kind })
    } else if !slot_matches(slots, entity.index() as int, query.spec_required()) {
        Err(AccessError::NoMatch { index: entity.index() })
    } else {
        Ok(slots[entity.index() as int]->Some_0.spec_get(kind)->Some_0)
    }
}

/// Why `component` cannot be written to `entity` through `query`, if it
/// cannot: the query must ask to write the component's type, and the entity
/// must match the query.
pub open spec fn write_refusal(
    slots: Seq<Option<Bundle>>,
    query: Query,
    entity: Entity,
    component: Component,
) -> Option<AccessError> {
    let kind = component.spec_kind();
    if !query.spec_writes().contains(kind) {
        if query.spec_reads().contains(kind) {
            Some(AccessError::ReadOnly { kind })
        } else {
            Some(AccessError::NotRequested { kind })
        }
    } else if !slot_matches(slots, entity.index() as int, query.spec_required()) {
        Some(AccessError::NoMatch { index: entity.index() })
    } else {
        None
    }
}

impl World {
    /// Reads one component of an entity through a query. The query must ask
    /// for the component's type, for reading or for writing, and the entity
    /// must be one that the query yields.
    pub fn read(&self, query: &Query, entity: Entity, kind: ComponentKind) -> (result: Result<
        Component,
        AccessError,
    >)
        ensures
            result == read_through(self@, *query, entity, kind),
            result is Ok ==> result->Ok_0.spec_kind() == kind,
    {
        let required = query.required();
        if !required.contains(kind) {
            return Err(AccessError::NotRequested { kind });
        }
        match self.get(entity) {
            Some(bundle) => {
                if bundle.has_all(required) {
                    match bundle.get(kind) {
                        Some(component) => Ok(component),
                        None => Err(AccessError::NoMatch { index: entity.index() }),
                    }
                } else {
                    Err(AccessError::NoMatch { index: entity.index() })
                }
            },
            None => Err(AccessError::NoMatch { index: entity.index() }),
        }
    }

    /// Writes one component of an entity through a query, in place of the
    /// one it had. The query must ask to write the component's type, and the
    /// entity must be one that the query yields; otherwise the write is
    /// refused and nothing changes.
    pub fn write(&mut self, query: &Query, entity: Entity, component: Component) -> (result: Result<
        (),
        AccessError,
    >)
        ensures
            match write_refusal(old(self)@, *query, entity, component) {
                Some(error) => result == Err::<(), AccessError>(error) && final(self)@ == old(
                    self,
                )@,
                None => result is Ok && final(self)@ == old(self)@.update(
                    entity.index() as int,
                    Some(old(self)@[entity.index() as int]->Some_0.spec_with(component)),
                ),
            },
    {
        let kind = component.kind();
        if !query.writes().contains(kind) {
            if query.reads().contains(kind) {
                return Err(AccessError::ReadOnly { kind });
            }
            return Err(AccessError::NotRequested { kind });
        }
        let matches = match self.get(entity) {
            Some(bundle) => bundle.has_all(query.required()),
            None => false,
        };
        if matches {
            self.insert(entity, component);
            Ok(())
        } else {
            Err(AccessError::NoMatch { index: entity.index() })
        }
    }

    /// The live entities that hold every component type that `query` reads
    /// or writes, in spawn order.
    pub fn query(&self, query: &Query) -> (found: Vec<Entity>)
        ensures
            yields(self@, query.spec_required(), found@),
    {
        self.entities_with(query.required())
    }
}

/// A list of requests is refused exactly when two of its requests ask for
/// the same component type and at least one of them asks to write.
pub proof fn lemma_refused_iff_some_pair_conflicts(requests: Seq<Request>)
    ensures
        (exists|position: int|
            0 <= position < requests.len() && conflicts_with_earlier(requests, position)) <==> (
        exists|i: int, j: int|
            0 <= i < j < requests.len() && requests_conflict(
                #[trigger] requests[i],
                #[trigger] requests[j],
            )),
{
    if exists|position: int|
        0 <= position < requests.len() && conflicts_with_earlier(requests, position) {
        let position = choose|position: int|
            0 <= position < requests.len() && conflicts_with_earlier(requests, position);
        let earlier = choose|earlier: int|
            0 <= earlier < position && requests_conflict(requests[earlier], requests[position]);
        assert(requests_conflict(requests[earlier], requests[position]));
    }
    if exists|i: int, j: int|
        0 <= i < j < requests.len() && requests_conflict(
            #[trigger] requests[i],
            #[trigger] requests[j],
        ) {
        let (i, j) = choose|i: int, j: int|
            0 <= i < j < requests.len() && requests_conflict(
                #[trigger] requests[i],
                #[trigger] requests[j],
            );
        assert(conflicts_with_earlier(requests, j));
    }
}

} // verus!
