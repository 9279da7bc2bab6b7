//! The lookup tables behind the registry: `HashMap`s hashed by fnv, keyed
//! by legion's `ComponentTypeId` or by a stable uuid.
//!
//! vstd's specification of `HashMap` methods is conditional on axioms about
//! the key type and the hasher that cannot be discharged for an outside
//! hasher, so the few operations the registry needs stand here as trusted
//! wrappers with their effect on the map's view stated directly.

use vstd::prelude::*;
use std::collections::HashMap;
use std::hash::BuildHasherDefault;
use legion::storage::ComponentTypeId;
use fnv::FnvHasher;
use crate::registration::{ComponentRegistration, ComponentTypeUuid};

verus! {

/// legion's key for a component type within a running process. Opaque
/// here: the registry only stores it and hands it back.
#[verifier::external_type_specification]
#[verifier::external_body]
pub struct ExComponentTypeId(ComponentTypeId);

/// fnv's hasher state. Opaque here: it only parameterizes the maps.
#[verifier::external_type_specification]
#[verifier::external_body]
pub struct ExFnvHasher(FnvHasher);

/// std's zero-sized builder that yields a fresh default `H` per hash.
#[verifier::external_type_specification]
#[verifier::external_body]
#[verifier::reject_recursive_types(H)]
pub struct ExBuildHasherDefault<H>(BuildHasherDefault<H>);

/// Relies on `std::collections::HashMap::insert`: afterwards the map holds
/// `k` mapped to `v` and is otherwise unchanged. Trusted because
/// `ComponentTypeId`'s derived `Hash` and `Eq` both follow its inner
/// `TypeId`, and fnv's `FnvHasher` is a deterministic hasher, so the map
/// behaves as the mathematical insert.
#[verifier::external_body]
pub(crate) fn insert_by_type_id(
    m: &mut HashMap<ComponentTypeId, ComponentRegistration, BuildHasherDefault<FnvHasher>>,
    k: ComponentTypeId,
    v: ComponentRegistration,
)
    ensures
        final(m)@ == old(m)@.insert(k, v),
{
    m.insert(k, v);
}

/// Relies on `std::collections::HashMap::insert`: afterwards the map holds
/// `k` mapped to `v` and is otherwise unchanged. Trusted because a
/// `[u8; 16]` key's `Hash` and `Eq` are std's, byte for byte, and fnv's
/// `FnvHasher` is a deterministic hasher.
#[verifier::external_body]
pub(crate) fn insert_by_uuid(
    m: &mut HashMap<ComponentTypeUuid, ComponentRegistration, BuildHasherDefault<FnvHasher>>,
    k: ComponentTypeUuid,
    v: ComponentRegistration,
)
    ensures
        final(m)@ == old(m)@.insert(k, v),
{
    m.insert(k, v);
}

/// Relies on `std::collections::HashMap::insert`: afterwards the map holds
/// `k` mapped to `v` and is otherwise unchanged. Trusted for the same
/// reason as `insert_by_type_id`.
#[verifier::external_body]
pub(crate) fn insert_spawn_mapping(
    m: &mut HashMap<ComponentTypeId, ComponentTypeId, BuildHasherDefault<FnvHasher>>,
    k: ComponentTypeId,
    v: ComponentTypeId,
)
    ensures
        final(m)@ == old(m)@.insert(k, v),
{
    m.insert(k, v);
}

} // verus!
