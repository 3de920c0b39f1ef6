//! Entity identifiers and their lifecycle.

use std::collections::HashSet;
use vstd::prelude::*;

verus! {

broadcast use vstd::std_specs::hash::group_hash_axioms;

/// An opaque handle that ties components together.
#[derive(Clone, Copy, PartialEq, Eq, Hash, Debug, Structural)]
pub struct Entity {
    pub id: u32,
}

/// Hands out fresh entities and tracks which of them are alive.
pub struct EntityManager {
    next: Entity,
    entities: HashSet<u32>,
}

impl EntityManager {
    /// The identifier that the next call of `create` hands out.
    pub closed spec fn next_id(&self) -> u32 {
        self.next.id
    }

    /// The identifiers of the entities that are alive.
    pub closed spec fn live(&self) -> Set<u32> {
        self.entities@
    }

    /// Every live entity was handed out before.
    pub closed spec fn wf(&self) -> bool {
        forall|id: u32| #[trigger] self.live().contains(id) ==> id < self.next_id()
    }

    pub fn new() -> (r: EntityManager)
        ensures
            r.wf(),
            r.next_id() == 0,
            r.live() == Set::<u32>::empty(),
    {
        EntityManager { next: Entity { id: 0 }, entities: HashSet::new() }
    }

    /// Creates an entity with the next identifier in sequence.
    pub fn create(&mut self) -> (entity: Entity)
        requires
            old(self).wf(),
            old(self).next_id() < u32::MAX,
        ensures
            final(self).wf(),
            entity.id == old(self).next_id(),
            !old(self).live().contains(entity.id),
            final(self).next_id() == old(self).next_id() + 1,
            final(self).live() == old(self).live().insert(entity.id),
    {
        let entity = self.next;
        self.next = Entity { id: entity.id + 1 };
        self.entities.insert(entity.id);
        assert forall|id: u32| #[trigger] self.live().contains(id) implies id < self.next_id() by {
            if id != entity.id {
                assert(old(self).live().contains(id));
            }
        }
        entity
    }

    pub fn alive(&self, entity: &Entity) -> (r: bool)
        ensures
            r == self.live().contains(entity.id),
    {
        self.entities.contains(&entity.id)
    }

    /// Kills an entity; tells whether it was alive.
    pub fn destroy(&mut self, entity: &Entity) -> (r: bool)
        requires
            old(self).wf(),
        ensures
            final(self).wf(),
            r == old(self).live().contains(entity.id),
            final(self).next_id() == old(self).next_id(),
            final(self).live() == old(self).live().remove(entity.id),
    {
        let r = self.entities.remove(&entity.id);
        assert forall|id: u32| #[trigger] self.live().contains(id) implies id < self.next_id() by {
            assert(old(self).live().contains(id));
        }
        r
    }
}

} // verus!
