//! The world: the entity registry and one component store per kind.
use vstd::prelude::*;
use crate::components::{Base2D, Health};
use crate::ecs::{ComponentStore, EntityID, EntityRegistry};

verus! {

/// Owns every entity identity and every component.
#[derive(Debug)]
pub struct World {
    registry: EntityRegistry,
    base_components: ComponentStore<Base2D>,
    health_components: ComponentStore<Health>,
}

impl World {
    /// Every box in the world has its corners in order.
    pub open spec fn wf(self) -> bool {
        forall|i: int| 0 <= i < self.bases().len() ==> (#[trigger] self.bases()[i]).1.bounds.wf()
    }

    pub closed spec fn entities_issued(self) -> Seq<EntityID> {
        self.registry.issued()
    }

    pub closed spec fn bases(self) -> Seq<(EntityID, Base2D)> {
        self.base_components@
    }

    pub closed spec fn healths(self) -> Seq<(EntityID, Health)> {
        self.health_components@
    }

    /// An empty world that has issued no identity.
    pub fn new() -> (r: World)
        ensures
            r.wf(),
            r.entities_issued() == Seq::<EntityID>::empty(),
            r.bases() == Seq::<(EntityID, Base2D)>::empty(),
            r.healths() == Seq::<(EntityID, Health)>::empty(),
    {
        let r = World {
            registry: EntityRegistry::new(),
            base_components: ComponentStore::new(),
            health_components: ComponentStore::new(),
        };
        proof {
            assert(r.registry.issued() =~= Seq::<EntityID>::empty());
        }
        r
    }

    /// The newest identity issued, 0 before the first.
    pub fn last_entity(&self) -> (r: EntityID)
        ensures
            r == self.entities_issued().len(),
    {
        self.registry.last()
    }

    /// A fresh entity identity, one more than the newest so far.
    pub fn new_entity(&mut self) -> (r: EntityID)
        requires
            old(self).entities_issued().len() < u64::MAX,
        ensures
            r == old(self).entities_issued().len() + 1,
            final(self).entities_issued() == old(self).entities_issued().push(r),
            final(self).bases() == old(self).bases(),
            final(self).healths() == old(self).healths(),
    {
        self.registry.allocate()
    }

    /// Attaches `base` to `entity`; an earlier base of `entity` stays first.
    pub fn attach_base(&mut self, entity: EntityID, base: Base2D)
        requires
            old(self).wf(),
            base.bounds.wf(),
        ensures
            final(self).wf(),
            final(self).bases() == old(self).bases().push((entity, base)),
            final(self).healths() == old(self).healths(),
            final(self).entities_issued() == old(self).entities_issued(),
    {
        self.base_components.attach(entity, base);
        proof {
            assert forall|i: int| 0 <= i < self.bases().len() implies (#[trigger] self.bases()[i]).1.bounds.wf() by {
                if i < old(self).bases().len() {
                    assert(self.bases()[i] == old(self).bases()[i]);
                }
            }
        }
    }

    /// Attaches `health` to `entity`; an earlier health of `entity` stays first.
    pub fn attach_health(&mut self, entity: EntityID, health: Health)
        ensures
            final(self).healths() == old(self).healths().push((entity, health)),
            final(self).bases() == old(self).bases(),
            final(self).entities_issued() == old(self).entities_issued(),
    {
        self.health_components.attach(entity, health);
    }

    pub fn base_components(&self) -> (r: &ComponentStore<Base2D>)
        ensures
            r@ == self.bases(),
    {
        &self.base_components
    }

    pub fn health_components(&self) -> (r: &ComponentStore<Health>)
        ensures
            r@ == self.healths(),
    {
        &self.health_components
    }
}

} // verus!
