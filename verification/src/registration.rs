//! What the registry records of one component type.

use vstd::prelude::*;
use legion::storage::ComponentTypeId;

verus! {

/// The stable 16-byte identifier under which a component type is named in
/// serialized prefab data, the same in every process.
pub type ComponentTypeUuid = [u8; 16];

/// One component type's entry: how the type is keyed within this process's
/// world (`type_id`) and its stable cross-process name (`uuid`).
#[derive(Clone, Copy)]
pub struct ComponentRegistration {
    pub type_id: ComponentTypeId,
    pub uuid: ComponentTypeUuid,
}

impl ComponentRegistration {
    pub fn new(type_id: ComponentTypeId, uuid: ComponentTypeUuid) -> (r: Self)
        ensures
            r.type_id == type_id,
            r.uuid == uuid,
    {
        ComponentRegistration { type_id, uuid }
    }

    /// The key under which this component type is looked up in a world.
    pub fn component_type_id(&self) -> (r: ComponentTypeId)
        ensures
            r == self.type_id,
    {
        self.type_id
    }

    /// The stable identifier under which this component type is named in
    /// serialized data.
    pub fn uuid(&self) -> (r: ComponentTypeUuid)
        ensures
            r == self.uuid,
    {
        self.uuid
    }
}

} // verus!
