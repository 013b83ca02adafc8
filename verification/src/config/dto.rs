//! Configuration records as they are read from their textual form.
use super::vector::Vector2D;
use vstd::prelude::*;

verus! {

/// An arena description before validation. Float fields are bit patterns.
#[derive(Debug, Clone)]
pub struct ArenaDTO {
    pub id: String,
    pub width: u32,
    pub height: u32,
    pub spawn_margin: u32,
}

/// A fighter attribute profile before validation. Float fields are bit
/// patterns.
#[derive(Debug, Clone)]
pub struct FighterDTO {
    pub id: String,
    pub max_health: u32,
    pub max_stamina: u32,
    pub move_speed: u32,
    pub weight: u32,
    pub collider_size: Vector2D,
}

} // verus!
