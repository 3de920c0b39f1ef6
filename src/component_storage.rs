//! Dense storage of one component per entity.

use crate::entity::Entity;
use std::collections::HashMap;
use vstd::prelude::*;

verus! {

broadcast use vstd::std_specs::hash::group_hash_axioms;

/// Components packed densely in insertion order, each tagged with its entity,
/// plus an index from entity identifier to slot.
pub struct LinearComponentStorage<C> {
    components: Vec<(C, Entity)>,
    entity_map: HashMap<u32, usize>,
}

impl<C> LinearComponentStorage<C> {
    /// The stored components with their entities, in slot order.
    pub closed spec fn entries(&self) -> Seq<(C, Entity)> {
        self.components@
    }

    /// The slot that holds each entity's component, by entity identifier.
    pub closed spec fn slots(&self) -> Map<u32, usize> {
        self.entity_map@
    }

    /// The index and the slots describe each other exactly.
    pub open spec fn wf(&self) -> bool {
        &&& forall|id: u32| #[trigger]
            self.slots().contains_key(id) ==> {
                &&& self.slots()[id] < self.entries().len()
                &&& self.entries()[self.slots()[id] as int].1.id == id
            }
        &&& forall|i: int|
            0 <= i < self.entries().len() ==> {
                &&& self.slots().contains_key(#[trigger] self.entries()[i].1.id)
                &&& self.slots()[self.entries()[i].1.id] == i
            }
    }

    /// Whether the entity has a component here.
    pub open spec fn has(&self, entity: Entity) -> bool {
        self.slots().contains_key(entity.id)
    }

    /// The component of an entity that has one.
    pub open spec fn component_of(&self, entity: Entity) -> C
        recommends
            self.has(entity),
    {
        self.entries()[self.slots()[entity.id] as int].0
    }

    pub fn new() -> (r: Self)
        ensures
            r.wf(),
            r.entries() == Seq::<(C, Entity)>::empty(),
            r.slots() == Map::<u32, usize>::empty(),
    {
        LinearComponentStorage { components: Vec::new(), entity_map: HashMap::new() }
    }

    pub fn num_components(&self) -> (n: usize)
        ensures
            n == self.entries().len(),
    {
        self.components.len()
    }

    /// Replaces the entity's component in its slot, or appends it in a new slot.
    pub fn set_component_for_entity(&mut self, entity: Entity, component: C)
        requires
            old(self).wf(),
        ensures
            final(self).wf(),
            old(self).has(entity) ==> {
                &&& final(self).entries() == old(self).entries().update(
                    old(self).slots()[entity.id] as int,
                    (component, entity),
                )
                &&& final(self).slots() == old(self).slots()
            },
            !old(self).has(entity) ==> {
                &&& final(self).entries() == old(self).entries().push((component, entity))
                &&& final(self).slots() == old(self).slots().insert(
                    entity.id,
                    old(self).entries().len() as usize,
                )
            },
    {
        let next_available_index = self.components.len();
        match self.entity_map.get(&entity.id) {
            Some(index) => {
                let index = *index;
                assert(self.slots().contains_key(entity.id));
                self.components.set(index, (component, entity));
                assert forall|i: int| 0 <= i < self.entries().len() implies {
                    &&& self.slots().contains_key(#[trigger] self.entries()[i].1.id)
                    &&& self.slots()[self.entries()[i].1.id] == i
                } by {
                    if i != index {
                        assert(old(self).entries()[i] == self.entries()[i]);
                    }
                }
                assert forall|id: u32| #[trigger] self.slots().contains_key(id) implies {
                    &&& self.slots()[id] < self.entries().len()
                    &&& self.entries()[self.slots()[id] as int].1.id == id
                } by {
                    assert(old(self).slots().contains_key(id));
                }
            },
            None => {
                self.entity_map.insert(entity.id, next_available_index);
                self.components.push((component, entity));
                assert forall|id: u32| #[trigger] self.slots().contains_key(id) implies {
                    &&& self.slots()[id] < self.entries().len()
                    &&& self.entries()[self.slots()[id] as int].1.id == id
                } by {
                    if id != entity.id {
                        assert(old(self).slots().contains_key(id));
                    }
                }
                assert forall|i: int| 0 <= i < self.entries().len() implies {
                    &&& self.slots().contains_key(#[trigger] self.entries()[i].1.id)
                    &&& self.slots()[self.entries()[i].1.id] == i
                } by {
                    if i < next_available_index {
                        assert(old(self).entries()[i] == self.entries()[i]);
                    }
                }
            },
        }
    }

    pub fn lookup_component_for_entity(&self, entity: Entity) -> (r: Option<&C>)
        requires
            self.wf(),
        ensures
            r.is_some() == self.has(entity),
            r.is_some() ==> *r.unwrap() == self.component_of(entity),
    {
        match self.entity_map.get(&entity.id) {
            Some(index) => {
                assert(self.slots().contains_key(entity.id));
                Some(&self.components[*index].0)
            },
            None => None,
        }
    }

    /// A mutable borrow of the entity's component, if it has one.
    pub fn lookup_component_for_entity_mut(&mut self, entity: Entity) -> (r: Option<&mut C>)
        requires
            old(self).wf(),
        ensures
            r.is_some() == old(self).has(entity),
            match r {
                Some(c) => {
                    &&& *c == old(self).component_of(entity)
                    &&& final(self).entries() == old(self).entries().update(
                        old(self).slots()[entity.id] as int,
                        (*final(c), entity),
                    )
                    &&& final(self).slots() == old(self).slots()
                },
                None => *final(self) == *old(self),
            },
    {
        match self.entity_map.get(&entity.id) {
            Some(index) => {
                let i = *index;
                assert(self.slots().contains_key(entity.id));
                let pair = &mut self.components[i];
                Some(&mut pair.0)
            },
            None => None,
        }
    }

    pub fn components(&self) -> (s: &[(C, Entity)])
        ensures
            s@ == self.entries(),
    {
        self.components.as_slice()
    }

    /// A mutable borrow of the entries in slot order; the slots stay as they are.
    pub fn components_mut(&mut self) -> (s: &mut [(C, Entity)])
        ensures
            s@ == old(self).entries(),
            final(self).entries() == final(s)@,
            final(self).slots() == old(self).slots(),
    {
        self.components.as_mut_slice()
    }

    pub fn clear(&mut self)
        ensures
            final(self).wf(),
            final(self).entries() == Seq::<(C, Entity)>::empty(),
            final(self).slots() == Map::<u32, usize>::empty(),
    {
        self.components.clear();
        self.entity_map.clear();
    }
}

} // verus!
