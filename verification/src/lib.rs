//! A registry that tells a prefab-spawning subsystem, for each
//! entity-component type, how it is keyed inside a running world and by
//! which stable 16-byte identifier it is named in serialized data.
//!
//! A [`registry::ComponentRegistryBuilder`] accumulates registrations into
//! two lookup tables (one keyed by legion's `ComponentTypeId`, one by the
//! stable uuid) together with a table of spawn mappings (which source
//! component type is converted into which destination type when a prefab
//! is spawned), and [`registry::ComponentRegistryBuilder::build`] freezes
//! them into an immutable [`registry::ComponentRegistry`] for the spawning
//! machinery to consult.

pub mod registration;
pub mod registry;
mod tables;
