//! A minimal entity/component storage kernel.
//!
//! The crate hands out stable, reusable entity identifiers and stores one
//! optional component value per entity in a densely indexed container, one
//! container per component type.

pub mod ecs;
pub mod laws;
