//! Validated, fixed-layout configuration records.
use super::vector::Vector2D;
use vstd::prelude::*;

verus! {

/// A validated arena: zero-padded identifier, dimensions and spawn margin
/// (bit patterns).
#[derive(Clone, Copy, Debug)]
pub struct ArenaConfigPOD {
    pub id: [u8; 32],
    pub width: u32,
    pub height: u32,
    pub spawn_margin: u32,
    pub _pad: [u8; 20],
}

/// A validated fighter attribute profile (bit patterns).
#[derive(Clone, Copy, Debug)]
pub struct FighterAttributesPOD {
    pub id: [u8; 32],
    pub max_health: u32,
    pub max_stamina: u32,
    pub move_speed: u32,
    pub weight: u32,
    pub collider_size: Vector2D,
    pub _pad: [u8; 8],
}

/// `n` zero bytes.
pub open spec fn zeros(n: nat) -> Seq<u8> {
    Seq::new(n, |i: int| 0u8)
}

impl ArenaConfigPOD {
    /// Every byte of the record is zero.
    pub open spec fn is_zeroed(self) -> bool {
        &&& self.id@ == zeros(32)
        &&& self.width == 0
        &&& self.height == 0
        &&& self.spawn_margin == 0
        &&& self._pad@ == zeros(20)
    }
}

impl FighterAttributesPOD {
    /// Every byte of the record is zero.
    pub open spec fn is_zeroed(self) -> bool {
        &&& self.id@ == zeros(32)
        &&& self.max_health == 0
        &&& self.max_stamina == 0
        &&& self.move_speed == 0
        &&& self.weight == 0
        &&& self.collider_size == Vector2D { x: 0, y: 0 }
        &&& self._pad@ == zeros(8)
    }
}

impl Default for ArenaConfigPOD {
    fn default() -> (r: Self)
        ensures
            r.is_zeroed(),
    {
        let r = Self { id: [0u8; 32], width: 0, height: 0, spawn_margin: 0, _pad: [0u8; 20] };
        assert(r.id@ =~= zeros(32));
        assert(r._pad@ =~= zeros(20));
        r
    }
}

impl Default for FighterAttributesPOD {
    fn default() -> (r: Self)
        ensures
            r.is_zeroed(),
    {
        let r = Self {
            id: [0u8; 32],
            max_health: 0,
            max_stamina: 0,
            move_speed: 0,
            weight: 0,
            collider_size: Vector2D { x: 0, y: 0 },
            _pad: [0u8; 8],
        };
        assert(r.id@ =~= zeros(32));
        assert(r._pad@ =~= zeros(8));
        r
    }
}

} // verus!
