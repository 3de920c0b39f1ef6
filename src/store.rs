//! A map from entities to components, and identifiers drawn from a counter.

use crate::entity::Entity;
use std::collections::HashMap;
use std::hash::Hash;
use vstd::prelude::*;

verus! {

broadcast use vstd::std_specs::hash::group_hash_axioms;

/// A small copyable handle that is made from, and read back as, a number.
pub trait Identifier: Copy + Hash + Eq + PartialEq + Sized {
    /// The number that the handle stands for.
    spec fn id_value(&self) -> u32;

    fn id(&self) -> (r: u32)
        ensures
            r == self.id_value(),
    ;

    fn new(id: u32) -> (r: Self)
        ensures
            r.id_value() == id,
    ;
}

/// A generic store which contains one-to-one mappings between entities and
/// components, keyed by entity identifier.
pub struct OneToOneStore<Component> {
    pub components: HashMap<u32, Component>,
}

impl<Component> OneToOneStore<Component> {
    pub open spec fn view(&self) -> Map<u32, Component> {
        self.components@
    }

    pub fn new() -> (r: OneToOneStore<Component>)
        ensures
            r.view() == Map::<u32, Component>::empty(),
    {
        OneToOneStore { components: HashMap::new() }
    }

    /// Sets the entity's component, replacing any earlier one.
    pub fn set_component(&mut self, entity: Entity, component: Component)
        ensures
            final(self).view() == old(self).view().insert(entity.id, component),
    {
        self.components.insert(entity.id, component);
    }

    pub fn lookup(&self, entity: &Entity) -> (r: Option<&Component>)
        ensures
            r.is_some() == self.view().contains_key(entity.id),
            r.is_some() ==> *r.unwrap() == self.view()[entity.id],
    {
        self.components.get(&entity.id)
    }
}

/// Identifies one renderable of the scene.
#[derive(Clone, Copy, Hash, PartialEq, Eq, Debug, Structural)]
pub struct SceneRenderableIdentifier {
    id: u32,
}

impl Identifier for SceneRenderableIdentifier {
    closed spec fn id_value(&self) -> u32 {
        self.id
    }

    fn id(&self) -> (r: u32) {
        self.id
    }

    fn new(id: u32) -> (r: Self) {
        SceneRenderableIdentifier { id: id }
    }
}

} // verus!
