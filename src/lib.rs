//! The verified core of a small rigid-body simulation engine.
//!
//! - `entity`, `component_storage`, `store`: entity identifiers and the
//!   stores that map entities to their components.
//! - `contact_rules`: the discrete side of collision handling: the all-pairs
//!   list, the narrow-phase test for a pair of shape kinds, which bodies a
//!   contact moves, and the dense numbering of dynamic bodies.
//! - `time_keeper`: the fixed-timestep accumulator, in nanoseconds.
//! - `surface_mesh`: indexed triangle meshes and their subdivision.
//! - `message`, `input_manager`, `camera`: key events, the camera commands
//!   they map to, and the camera controller's motion state.
//! - `value_types`: plain vector and quaternion records.
//!
//! The floating-point parts (integration, narrow-phase geometry, impulses)
//! are not part of this library; they live in the program that drives the
//! simulation and call into the modules above.

pub mod camera;
pub mod component_storage;
pub mod contact_rules;
pub mod entity;
pub mod input_manager;
pub mod message;
pub mod store;
pub mod surface_mesh;
pub mod time_keeper;
pub mod value_types;
