//! The builder that accumulates component registrations and spawn
//! mappings, and the immutable registry it produces.

use vstd::prelude::*;
use std::collections::HashMap;
use std::hash::BuildHasherDefault;
use legion::storage::ComponentTypeId;
use fnv::FnvHasher;
use crate::registration::{ComponentRegistration, ComponentTypeUuid};
use crate::tables::{insert_by_type_id, insert_by_uuid, insert_spawn_mapping};

verus! {

/// The mathematical content of a builder or of a built registry: the two
/// registration tables and the table of spawn mappings, as maps.
pub ghost struct RegistryView {
    /// Each registered component type's entry, keyed by its in-process id.
    pub components: Map<ComponentTypeId, ComponentRegistration>,
    /// The same entries, keyed by their stable 16-byte identifier.
    pub components_by_uuid: Map<ComponentTypeUuid, ComponentRegistration>,
    /// For each source component type, the destination type it is
    /// converted into when a prefab is spawned into a live scene.
    pub spawn_mappings: Map<ComponentTypeId, ComponentTypeId>,
}

/// The id-keyed table that results from registering each element of `regs`
/// in order on top of `m`: a later registration with the same `type_id`
/// replaces an earlier one.
pub open spec fn components_after(
    m: Map<ComponentTypeId, ComponentRegistration>,
    regs: Seq<ComponentRegistration>,
) -> Map<ComponentTypeId, ComponentRegistration>
    decreases regs.len(),
{
    if regs.len() == 0 {
        m
    } else {
        components_after(m, regs.drop_last()).insert(regs.last().type_id, regs.last())
    }
}

/// The uuid-keyed table that results from registering each element of
/// `regs` in order on top of `m`: a later registration with the same
/// `uuid` replaces an earlier one.
pub open spec fn components_by_uuid_after(
    m: Map<ComponentTypeUuid, ComponentRegistration>,
    regs: Seq<ComponentRegistration>,
) -> Map<ComponentTypeUuid, ComponentRegistration>
    decreases regs.len(),
{
    if regs.len() == 0 {
        m
    } else {
        components_by_uuid_after(m, regs.drop_last()).insert(regs.last().uuid, regs.last())
    }
}

/// Accumulates component registrations and spawn mappings, then freezes
/// them into a [`ComponentRegistry`].
pub struct ComponentRegistryBuilder {
    components: HashMap<ComponentTypeId, ComponentRegistration, BuildHasherDefault<FnvHasher>>,
    components_by_uuid: HashMap<
        ComponentTypeUuid,
        ComponentRegistration,
        BuildHasherDefault<FnvHasher>,
    >,
    spawn_mappings: HashMap<ComponentTypeId, ComponentTypeId, BuildHasherDefault<FnvHasher>>,
}

impl View for ComponentRegistryBuilder {
    type V = RegistryView;

    closed spec fn view(&self) -> RegistryView {
        RegistryView {
            components: self.components@,
            components_by_uuid: self.components_by_uuid@,
            spawn_mappings: self.spawn_mappings@,
        }
    }
}

impl ComponentRegistryBuilder {
    /// A builder with every table empty.
    pub fn new() -> (r: Self)
        ensures
            r@.components == Map::<ComponentTypeId, ComponentRegistration>::empty(),
            r@.components_by_uuid == Map::<ComponentTypeUuid, ComponentRegistration>::empty(),
            r@.spawn_mappings == Map::<ComponentTypeId, ComponentTypeId>::empty(),
    {
        ComponentRegistryBuilder {
            components: HashMap::default(),
            components_by_uuid: HashMap::default(),
            spawn_mappings: HashMap::default(),
        }
    }

    /// Records one component type under both of its keys. A registration
    /// with an already-registered `type_id` (or `uuid`) replaces the
    /// earlier entry under that key.
    pub fn register_component(self, registration: &ComponentRegistration) -> (r: Self)
        ensures
            r@.components == self@.components.insert(registration.type_id, *registration),
            r@.components_by_uuid == self@.components_by_uuid.insert(
                registration.uuid,
                *registration,
            ),
            r@.spawn_mappings == self@.spawn_mappings,
    {
        let mut b = self;
        insert_by_type_id(&mut b.components, registration.component_type_id(), *registration);
        insert_by_uuid(&mut b.components_by_uuid, registration.uuid(), *registration);
        b
    }

    /// Records every registration of `registrations`, first to last, as
    /// [`Self::register_component`] would.
    pub fn register_components(self, registrations: &Vec<ComponentRegistration>) -> (r: Self)
        ensures
            r@.components == components_after(self@.components, registrations@),
            r@.components_by_uuid == components_by_uuid_after(
                self@.components_by_uuid,
                registrations@,
            ),
            r@.spawn_mappings == self@.spawn_mappings,
    {
        let ghost orig: RegistryView = self@;
        let mut b = self;
        for i in 0..registrations.len()
            invariant
                b@.components == components_after(orig.components, registrations@.take(i as int)),
                b@.components_by_uuid == components_by_uuid_after(
                    orig.components_by_uuid,
                    registrations@.take(i as int),
                ),
                b@.spawn_mappings == orig.spawn_mappings,
        {
            proof {
                assert(registrations@.take(i + 1).drop_last() =~= registrations@.take(i as int));
                assert(registrations@.take(i + 1).last() == registrations@[i as int]);
            }
            b = b.register_component(&registrations[i]);
        }
        proof {
            assert(registrations@.take(registrations@.len() as int) =~= registrations@);
        }
        b
    }

    /// Records that, on spawning a prefab, a source component of type
    /// `from` is converted into a destination component of type `into`. A
    /// mapping already recorded for `from` is replaced.
    pub fn add_spawn_mapping(self, from: ComponentTypeId, into: ComponentTypeId) -> (r: Self)
        ensures
            r@.spawn_mappings == self@.spawn_mappings.insert(from, into),
            r@.components == self@.components,
            r@.components_by_uuid == self@.components_by_uuid,
    {
        let mut b = self;
        insert_spawn_mapping(&mut b.spawn_mappings, from, into);
        b
    }

    /// Freezes the accumulated tables into an immutable registry, exactly
    /// as they stand.
    pub fn build(self) -> (r: ComponentRegistry)
        ensures
            r@ == self@,
    {
        ComponentRegistry {
            components: self.components,
            components_by_uuid: self.components_by_uuid,
            spawn_mappings: self.spawn_mappings,
        }
    }
}

impl Default for ComponentRegistryBuilder {
    /// The same as [`ComponentRegistryBuilder::new`]: every table empty.
    fn default() -> (r: Self)
        ensures
            r@.components == Map::<ComponentTypeId, ComponentRegistration>::empty(),
            r@.components_by_uuid == Map::<ComponentTypeUuid, ComponentRegistration>::empty(),
            r@.spawn_mappings == Map::<ComponentTypeId, ComponentTypeId>::empty(),
    {
        ComponentRegistryBuilder::new()
    }
}

/// Registering `regs` in order leaves, under the `type_id` of `regs[i]`,
/// exactly `regs[i]`, provided no later registration carries that same
/// `type_id`: the last registration under a key wins.
pub proof fn lemma_components_after_last_wins(
    m: Map<ComponentTypeId, ComponentRegistration>,
    regs: Seq<ComponentRegistration>,
    i: int,
)
    requires
        0 <= i < regs.len(),
        forall|j: int| i < j < regs.len() ==> regs[j].type_id != regs[i].type_id,
    ensures
        components_after(m, regs).contains_key(regs[i].type_id),
        components_after(m, regs)[regs[i].type_id] == regs[i],
    decreases regs.len(),
{
    if i < regs.len() - 1 {
        assert(regs.drop_last()[i] == regs[i]);
        lemma_components_after_last_wins(m, regs.drop_last(), i);
        assert(regs.last() == regs[regs.len() - 1]);
    }
}

/// Registering `regs` leaves a key that no registration's `type_id`
/// touches exactly as it stood in `m`.
pub proof fn lemma_components_after_untouched(
    m: Map<ComponentTypeId, ComponentRegistration>,
    regs: Seq<ComponentRegistration>,
    k: ComponentTypeId,
)
    requires
        forall|j: int| 0 <= j < regs.len() ==> regs[j].type_id != k,
    ensures
        components_after(m, regs).contains_key(k) == m.contains_key(k),
        m.contains_key(k) ==> components_after(m, regs)[k] == m[k],
    decreases regs.len(),
{
    if regs.len() > 0 {
        assert(regs.last() == regs[regs.len() - 1]);
        lemma_components_after_untouched(m, regs.drop_last(), k);
    }
}

/// The uuid-keyed counterpart of [`lemma_components_after_last_wins`].
pub proof fn lemma_components_by_uuid_after_last_wins(
    m: Map<ComponentTypeUuid, ComponentRegistration>,
    regs: Seq<ComponentRegistration>,
    i: int,
)
    requires
        0 <= i < regs.len(),
        forall|j: int| i < j < regs.len() ==> regs[j].uuid != regs[i].uuid,
    ensures
        components_by_uuid_after(m, regs).contains_key(regs[i].uuid),
        components_by_uuid_after(m, regs)[regs[i].uuid] == regs[i],
    decreases regs.len(),
{
    if i < regs.len() - 1 {
        assert(regs.drop_last()[i] == regs[i]);
        lemma_components_by_uuid_after_last_wins(m, regs.drop_last(), i);
        assert(regs.last() == regs[regs.len() - 1]);
    }
}

/// The uuid-keyed counterpart of [`lemma_components_after_untouched`].
pub proof fn lemma_components_by_uuid_after_untouched(
    m: Map<ComponentTypeUuid, ComponentRegistration>,
    regs: Seq<ComponentRegistration>,
    u: ComponentTypeUuid,
)
    requires
        forall|j: int| 0 <= j < regs.len() ==> regs[j].uuid != u,
    ensures
        components_by_uuid_after(m, regs).contains_key(u) == m.contains_key(u),
        m.contains_key(u) ==> components_by_uuid_after(m, regs)[u] == m[u],
    decreases regs.len(),
{
    if regs.len() > 0 {
        assert(regs.last() == regs[regs.len() - 1]);
        lemma_components_by_uuid_after_untouched(m, regs.drop_last(), u);
    }
}

/// The immutable registry a prefab-spawning subsystem consults: which
/// component types exist, under which keys, and how components are mapped
/// across on spawn.
pub struct ComponentRegistry {
    components: HashMap<ComponentTypeId, ComponentRegistration, BuildHasherDefault<FnvHasher>>,
    components_by_uuid: HashMap<
        ComponentTypeUuid,
        ComponentRegistration,
        BuildHasherDefault<FnvHasher>,
    >,
    spawn_mappings: HashMap<ComponentTypeId, ComponentTypeId, BuildHasherDefault<FnvHasher>>,
}

impl View for ComponentRegistry {
    type V = RegistryView;

    closed spec fn view(&self) -> RegistryView {
        RegistryView {
            components: self.components@,
            components_by_uuid: self.components_by_uuid@,
            spawn_mappings: self.spawn_mappings@,
        }
    }
}

impl ComponentRegistry {
    /// The registrations, keyed by in-process component type id.
    pub fn components(&self) -> (r: &HashMap<
        ComponentTypeId,
        ComponentRegistration,
        BuildHasherDefault<FnvHasher>,
    >)
        ensures
            r@ == self@.components,
    {
        &self.components
    }

    /// The registrations, keyed by stable 16-byte identifier.
    pub fn components_by_uuid(&self) -> (r: &HashMap<
        ComponentTypeUuid,
        ComponentRegistration,
        BuildHasherDefault<FnvHasher>,
    >)
        ensures
            r@ == self@.components_by_uuid,
    {
        &self.components_by_uuid
    }

    /// The spawn mappings, keyed by source component type id.
    pub fn spawn_mappings(&self) -> (r: &HashMap<
        ComponentTypeId,
        ComponentTypeId,
        BuildHasherDefault<FnvHasher>,
    >)
        ensures
            r@ == self@.spawn_mappings,
    {
        &self.spawn_mappings
    }
}

} // verus!
