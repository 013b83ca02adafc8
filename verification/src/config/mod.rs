//! Arena and fighter configuration: ingestion records, validated fixed-layout
//! records, and the validation rules between them.
pub mod dto;
pub mod error;
pub mod loader;
pub mod pod;
pub mod vector;

pub use dto::{ArenaDTO, FighterDTO};
pub use error::ConfigError;
pub use loader::{encode_id, validate_arena_dto, validate_f32, validate_fighter_dto};
pub use pod::{ArenaConfigPOD, FighterAttributesPOD};
pub use vector::Vector2D;

use vstd::prelude::*;

verus! {

/// Number of fighter slots of a world.
pub const MAX_SIMULTANEOUS_ENTITIES: usize = 64;

} // verus!
