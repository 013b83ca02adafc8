//! The fixed-rate tick engine: fighter spawning, per-tick action validation
//! and the bit-level part of the motion pipeline.
//!
//! The floating-point part of a tick (normalizing an intent, scaling it by a
//! fighter's speed, integrating the position and clamping it to the arena) is
//! computed by the caller for every occupied slot and handed to
//! [`TickEngine::step`] as a [`MotionSample`]; the engine validates the
//! actions, applies the samples under its canonicalization, flush-to-zero and
//! wall-contact rules, and advances the tick.
use crate::config::pod::zeros;
use crate::config::{ArenaConfigPOD, FighterAttributesPOD, Vector2D, MAX_SIMULTANEOUS_ENTITIES};
use crate::ieee::{bits_float_eq, exponent, float_eq};
use crate::prng::{DeterministicRng, PrngStatePOD};
use crate::state::{canonical, FighterState, WorldState};
use vstd::prelude::*;

verus! {

/// Why the engine refused a request.
#[derive(Debug, PartialEq, Eq, Structural)]
pub enum EngineError {
    /// The action for an occupied slot names another slot.
    InvalidEntityId(u32),
    /// Every slot is occupied.
    MaxEntitiesReached,
}

/// One fighter's command for a tick. `move_intent` holds bit patterns.
#[derive(Clone, Copy, Debug, Default)]
pub struct EntityActionPOD {
    pub move_intent: Vector2D,
    pub entity_id: u32,
    pub action_flags: u32,
    pub target_entity_id: u32,
    pub _pad: [u8; 12],
}

/// Floating-point outcome of one fighter's motion during a tick, computed by
/// the caller (bit patterns): the target velocity (normalized intent times
/// move speed); the position integrated over one tick with the flushed
/// velocity, before flushing; and that position, flushed and canonical,
/// clamped into the arena.
#[derive(Clone, Copy, Debug, Default)]
pub struct MotionSample {
    pub target_velocity: Vector2D,
    pub integrated_position: Vector2D,
    pub clamped_position: Vector2D,
}

/// Flush-to-zero: a value with a zero exponent field (a subnormal or either
/// zero) becomes `+0.0`; every other pattern is kept.
pub open spec fn flushed(bits: u32) -> u32 {
    if exponent(bits) == 0 {
        0
    } else {
        bits
    }
}

/// Flushes subnormal values and `-0.0` to `+0.0` without branching.
pub fn ftz_zero(v: u32) -> (r: u32)
    ensures
        r == flushed(v),
{
    let bits = v;
    let exp = (bits >> 23u32) & 0xFFu32;
    let flush: u32 = if exp == 0 { 1 } else { 0 };
    let mask = 0u32.wrapping_sub(flush);
    let r = bits & !mask;
    assert(r == flushed(v)) by (bit_vector)
        requires
            bits == v,
            exp == (bits >> 23u32) & 0xFFu32,
            flush == (if exp == 0 { 1u32 } else { 0u32 }),
            mask == (if flush == 0 { 0u32 } else { 0xFFFF_FFFFu32 }),
            r == bits & !mask,
    ;
    r
}

/// `flushed` never yields `-0.0`.
proof fn lemma_flushed_is_canonical(v: u32)
    ensures
        canonical(flushed(v)) == flushed(v),
{
    assert(((0x8000_0000u32 >> 23u32) & 0xFFu32) == 0) by (bit_vector);
}

/// Clearing a word through an all-ones or all-zeros mask.
proof fn lemma_mask(v: u32)
    ensures
        v & !0xFFFF_FFFFu32 == 0,
        v & !0u32 == v,
{
    assert(v & !0xFFFF_FFFFu32 == 0) by (bit_vector);
    assert(v & !0u32 == v) by (bit_vector);
}

/// The fighter `spawn` puts in slot `slot`: canonical position, zero
/// velocity, the template's full health and stamina, facing right exactly
/// for team 0.
pub open spec fn is_spawned(
    f: FighterState,
    slot: u32,
    position: Vector2D,
    team_id: u8,
    template: FighterAttributesPOD,
) -> bool {
    &&& f.position == Vector2D { x: canonical(position.x), y: canonical(position.y) }
    &&& f.velocity == Vector2D { x: 0, y: 0 }
    &&& f.health == canonical(template.max_health)
    &&& f.stamina == canonical(template.max_stamina)
    &&& f.id == slot
    &&& f.team_id == team_id
    &&& f.facing_right == (team_id == 0)
    &&& f._pad@ == zeros(2)
}

/// The action for occupied slot `i` names slot `i`.
pub open spec fn action_valid(a: EntityActionPOD, i: int, active_count: u8) -> bool {
    a.entity_id == i && a.entity_id < active_count
}

/// Slot `i` holds the first action that fails validation.
pub open spec fn first_invalid_action(actions: Seq<EntityActionPOD>, active_count: u8, i: int) -> bool {
    &&& 0 <= i < active_count
    &&& i < 64
    &&& !action_valid(actions[i], i, active_count)
    &&& forall|j: int| 0 <= j < i ==> action_valid(#[trigger] actions[j], j, active_count)
}

/// Every occupied slot's action is valid.
pub open spec fn all_actions_valid(actions: Seq<EntityActionPOD>, active_count: u8) -> bool {
    forall|j: int| 0 <= j < active_count ==> j < 64 && action_valid(#[trigger] actions[j], j, active_count)
}

/// The integrated coordinate as the fighter holds it before clamping:
/// flushed to zero, stored canonically.
pub open spec fn unclamped(integrated: u32) -> u32 {
    canonical(flushed(integrated))
}

/// Clamping changed a coordinate: the clamped value differs, as a number,
/// from the unclamped one.
pub open spec fn crossed(integrated: u32, clamped: u32) -> bool {
    !float_eq(clamped, unclamped(integrated))
}

/// A fighter after a tick's motion: position set to the clamped position;
/// each velocity component the flushed target velocity, or `+0.0` where
/// clamping changed that coordinate; every float stored canonically.
pub open spec fn moved(f: FighterState, m: MotionSample) -> FighterState {
    FighterState {
        position: Vector2D {
            x: canonical(m.clamped_position.x),
            y: canonical(m.clamped_position.y),
        },
        velocity: Vector2D {
            x: if crossed(m.integrated_position.x, m.clamped_position.x) {
                0
            } else {
                flushed(m.target_velocity.x)
            },
            y: if crossed(m.integrated_position.y, m.clamped_position.y) {
                0
            } else {
                flushed(m.target_velocity.y)
            },
        },
        ..f
    }
}

/// The tick engine: arena and fighter configuration, per-slot attributes,
/// the world, the generator, and where a fresh match spawns its two
/// fighters: both at height `spawn_y`, team 0 at the arena's spawn margin,
/// team 1 at `right_x`.
pub struct TickEngine {
    arena: ArenaConfigPOD,
    template: FighterAttributesPOD,
    attributes: [FighterAttributesPOD; MAX_SIMULTANEOUS_ENTITIES],
    state: WorldState,
    rng: DeterministicRng,
    spawn_y: u32,
    right_x: u32,
}

impl TickEngine {
    /// The world.
    pub closed spec fn world(&self) -> WorldState {
        self.state
    }

    /// The arena configuration.
    pub closed spec fn arena_config(&self) -> ArenaConfigPOD {
        self.arena
    }

    /// The attribute profile every spawned fighter receives.
    pub closed spec fn template_config(&self) -> FighterAttributesPOD {
        self.template
    }

    /// The attribute profile of each slot.
    pub closed spec fn slot_attributes(&self) -> Seq<FighterAttributesPOD> {
        self.attributes@
    }

    /// The generator's state.
    pub closed spec fn rng_view(&self) -> PrngStatePOD {
        self.rng@
    }

    /// Height of both spawn points.
    pub closed spec fn spawn_height(&self) -> u32 {
        self.spawn_y
    }

    /// Horizontal coordinate of team 1's spawn point.
    pub closed spec fn right_spawn_x(&self) -> u32 {
        self.right_x
    }

    /// Spawn point of team 0: the arena's spawn margin, at the spawn height.
    pub open spec fn left_spawn_point(&self) -> Vector2D {
        Vector2D { x: self.arena_config().spawn_margin, y: self.spawn_height() }
    }

    /// Spawn point of team 1.
    pub open spec fn right_spawn_point(&self) -> Vector2D {
        Vector2D { x: self.right_spawn_x(), y: self.spawn_height() }
    }

    /// `self` is the engine `new` builds from these inputs: two fighters
    /// spawned (team 0 left, facing right; team 1 right, facing left), every
    /// other slot and attribute record zero, tick 0, generator at the start
    /// of stream 0 of `seed`.
    pub open spec fn is_fresh(
        &self,
        seed: u64,
        arena: ArenaConfigPOD,
        template: FighterAttributesPOD,
        spawn_y: u32,
        right_x: u32,
    ) -> bool {
        let w = self.world();
        let left_spawn = Vector2D { x: arena.spawn_margin, y: spawn_y };
        let right_spawn = Vector2D { x: right_x, y: spawn_y };
        &&& self.arena_config() == arena
        &&& self.template_config() == template
        &&& self.spawn_height() == spawn_y
        &&& self.right_spawn_x() == right_x
        &&& self.rng_view() == (PrngStatePOD { seed, stream_id: 0, word_pos: 0 })
        &&& self.slot_attributes().len() == 64
        &&& forall|i: int|
            0 <= i < 64 ==> if i < 2 {
                #[trigger] self.slot_attributes()[i] == template
            } else {
                self.slot_attributes()[i].is_zeroed()
            }
        &&& w.current_tick == 0
        &&& w.active_count == 2
        &&& w.rng_state == (PrngStatePOD { seed: 0, stream_id: 0, word_pos: 0 })
        &&& w._header_pad@ == zeros(23)
        &&& is_spawned(w.fighters@[0], 0, left_spawn, 0, template)
        &&& is_spawned(w.fighters@[1], 1, right_spawn, 1, template)
        &&& forall|i: int| 2 <= i < 64 ==> (#[trigger] w.fighters@[i]).is_zeroed()
    }

    /// An engine for `seed`: team 0 spawns at the arena's spawn margin,
    /// team 1 at `right_x`, both at height `spawn_y` (the caller computes
    /// the width minus the margin and half the height). Never fails.
    pub fn new(
        seed: u64,
        arena: ArenaConfigPOD,
        template: FighterAttributesPOD,
        spawn_y: u32,
        right_x: u32,
    ) -> (r: Result<Self, EngineError>)
        ensures
            r matches Ok(e) && e.is_fresh(seed, arena, template, spawn_y, right_x),
    {
        let left_spawn = Vector2D { x: arena.spawn_margin, y: spawn_y };
        let right_spawn = Vector2D { x: right_x, y: spawn_y };
        let blank = FighterAttributesPOD::default();
        let mut engine = Self {
            arena,
            template,
            attributes: [blank; 64],
            state: WorldState::new(),
            rng: DeterministicRng::new(seed),
            spawn_y,
            right_x,
        };
        match engine.spawn(left_spawn, 0) {
            Ok(_) => {},
            Err(e) => return Err(e),
        }
        match engine.spawn(right_spawn, 1) {
            Ok(_) => {},
            Err(e) => return Err(e),
        }
        if engine.state.active_count >= 2 {
            engine.state.fighters[0].facing_right = true;
            engine.state.fighters[1].facing_right = false;
        }
        Ok(engine)
    }

    /// Places a fighter of `team_id` at `position` in the next free slot and
    /// gives the slot the template's attributes; returns the slot.
    ///
    /// Refused with `MaxEntitiesReached` exactly when every slot is occupied.
    pub fn spawn(&mut self, position: Vector2D, team_id: u8) -> (r: Result<u32, EngineError>)
        ensures
            match r {
                Err(e) => e == EngineError::MaxEntitiesReached && old(self).world().active_count >= 64
                    && *final(self) == *old(self),
                Ok(slot) => {
                    let n = old(self).world().active_count as int;
                    &&& n < 64
                    &&& slot == n
                    &&& final(self).world().active_count == n + 1
                    &&& final(self).world().fighters@ == old(self).world().fighters@.update(
                        n,
                        final(self).world().fighters@[n],
                    )
                    &&& is_spawned(final(self).world().fighters@[n], slot, position, team_id, old(self).template_config())
                    &&& final(self).slot_attributes() == old(self).slot_attributes().update(n, old(self).template_config())
                    &&& final(self).world().rng_state == old(self).world().rng_state
                    &&& final(self).world().current_tick == old(self).world().current_tick
                    &&& final(self).world()._header_pad == old(self).world()._header_pad
                    &&& final(self).arena_config() == old(self).arena_config()
                    &&& final(self).template_config() == old(self).template_config()
                    &&& final(self).rng_view() == old(self).rng_view()
                    &&& final(self).spawn_height() == old(self).spawn_height()
                    &&& final(self).right_spawn_x() == old(self).right_spawn_x()
                },
            },
    {
        let slot = self.state.active_count as usize;
        if slot >= MAX_SIMULTANEOUS_ENTITIES {
            return Err(EngineError::MaxEntitiesReached);
        }
        let slot_u32 = slot as u32;
        self.attributes[slot] = self.template;
        let mut fighter = FighterState::zeroed();
        fighter.id = slot_u32;
        fighter.team_id = team_id;
        fighter.set_position(position.x, position.y);
        fighter.set_velocity(0, 0);
        fighter.set_health(self.template.max_health);
        fighter.set_stamina(self.template.max_stamina);
        fighter.facing_right = team_id == 0;
        self.state.fighters[slot] = fighter;
        self.state.active_count = self.state.active_count + 1;
        Ok(slot_u32)
    }
    /// Every part of the engine but the world is as in `other`.
    pub open spec fn same_setup(&self, other: &Self) -> bool {
        &&& self.arena_config() == other.arena_config()
        &&& self.template_config() == other.template_config()
        &&& self.slot_attributes() == other.slot_attributes()
        &&& self.rng_view() == other.rng_view()
        &&& self.spawn_height() == other.spawn_height()
        &&& self.right_spawn_x() == other.right_spawn_x()
    }

    /// Advances the world by one tick.
    ///
    /// First every occupied slot's action is checked to name that slot; on
    /// the first that does not, the step is refused with `InvalidEntityId`
    /// and nothing changes. Otherwise each occupied fighter takes the motion
    /// of its sample (see [`moved`]), the tick counter advances by one and
    /// the world records the generator's state.
    pub fn step(
        &mut self,
        actions: &[EntityActionPOD; MAX_SIMULTANEOUS_ENTITIES],
        motions: &[MotionSample; MAX_SIMULTANEOUS_ENTITIES],
    ) -> (r: Result<(), EngineError>)
        requires
            old(self).world().active_count <= 64 || exists|i: int|
                0 <= i < 64 && !action_valid(
                    #[trigger] actions@[i],
                    i,
                    old(self).world().active_count,
                ),
            old(self).world().current_tick < u64::MAX || exists|i: int|
                0 <= i < old(self).world().active_count && i < 64 && !action_valid(
                    #[trigger] actions@[i],
                    i,
                    old(self).world().active_count,
                ),
        ensures
            match r {
                Err(e) => exists|i: int|
                    {
                        &&& #[trigger] first_invalid_action(actions@, old(self).world().active_count, i)
                        &&& e == EngineError::InvalidEntityId(actions@[i].entity_id)
                    } && *final(self) == *old(self),
                Ok(()) => {
                    &&& all_actions_valid(actions@, old(self).world().active_count)
                    &&& steps_to(old(self).world(), old(self).rng_view(), motions@, final(self).world())
                    &&& final(self).same_setup(old(self))
                },
            },
    {
        let active_count = self.state.active_count as usize;
        let mut i: usize = 0;
        while i < active_count
            invariant
                active_count == self.state.active_count,
                i <= active_count,
                *self == *old(self),
                self.state.active_count <= 64 || exists|k: int|
                    0 <= k < 64 && !action_valid(#[trigger] actions@[k], k, self.state.active_count),
                forall|j: int| 0 <= j < i ==> j < 64 && action_valid(#[trigger] actions@[j], j, self.state.active_count),
            decreases active_count - i,
        {
            proof {
                if i >= 64 {
                    let k = choose|k: int|
                        0 <= k < 64 && !action_valid(#[trigger] actions@[k], k, self.state.active_count);
                    assert(action_valid(actions@[k], k, self.state.active_count));
                }
            }
            let act_id = actions[i].entity_id;
            if act_id as usize != i || act_id >= self.state.active_count as u32 {
                assert(first_invalid_action(actions@, self.state.active_count, i as int));
                assert(old(self).world().active_count == self.state.active_count);
                return Err(EngineError::InvalidEntityId(act_id));
            }
            i = i + 1;
        }
        proof {
            if old(self).state.current_tick == u64::MAX {
                let k = choose|k: int|
                    0 <= k < old(self).state.active_count && k < 64 && !action_valid(
                        #[trigger] actions@[k],
                        k,
                        old(self).state.active_count,
                    );
                assert(action_valid(actions@[k], k, self.state.active_count));
            }
        }
        let mut i: usize = 0;
        while i < active_count
            invariant
                active_count == old(self).state.active_count,
                active_count <= 64,
                old(self).state.current_tick < u64::MAX,
                i <= active_count,
                self.same_setup(old(self)),
                self.state.active_count == old(self).state.active_count,
                self.state.current_tick == old(self).state.current_tick,
                self.state.rng_state == old(self).state.rng_state,
                self.state._header_pad == old(self).state._header_pad,
                forall|j: int|
                    0 <= j < 64 ==> #[trigger] self.state.fighters@[j] == if j < i {
                        moved(old(self).state.fighters@[j], motions@[j])
                    } else {
                        old(self).state.fighters@[j]
                    },
            decreases active_count - i,
        {
            let m = motions[i];
            let mut fighter = self.state.fighters[i];
            let vx = ftz_zero(m.target_velocity.x);
            let vy = ftz_zero(m.target_velocity.y);
            fighter.set_velocity(vx, vy);
            let new_x = ftz_zero(m.integrated_position.x);
            let new_y = ftz_zero(m.integrated_position.y);
            fighter.set_position(new_x, new_y);
            let old_x = fighter.position.x;
            let old_y = fighter.position.y;
            let crossed_x = !bits_float_eq(m.clamped_position.x, old_x);
            let crossed_y = !bits_float_eq(m.clamped_position.y, old_y);
            let mask_x: u32 = if crossed_x { 0xFFFF_FFFFu32 } else { 0 };
            let mask_y: u32 = if crossed_y { 0xFFFF_FFFFu32 } else { 0 };
            let final_vx = fighter.velocity.x & !mask_x;
            let final_vy = fighter.velocity.y & !mask_y;
            fighter.set_position(m.clamped_position.x, m.clamped_position.y);
            fighter.set_velocity(final_vx, final_vy);
            proof {
                lemma_flushed_is_canonical(m.target_velocity.x);
                lemma_flushed_is_canonical(m.target_velocity.y);
                lemma_mask(canonical(flushed(m.target_velocity.x)));
                lemma_mask(canonical(flushed(m.target_velocity.y)));
            }
            self.state.fighters[i] = fighter;
            i = i + 1;
        }
        self.state.current_tick = self.state.current_tick + 1;
        self.state.rng_state = self.rng.export_pod();
        Ok(())
    }

    /// The world.
    pub fn state(&self) -> (r: &WorldState)
        ensures
            *r == self.world(),
    {
        &self.state
    }

    /// The world, for modification; the rest of the engine is untouched.
    pub fn state_mut(&mut self) -> (r: &mut WorldState)
        ensures
            *r == old(self).world(),
            final(self).world() == *final(r),
            final(self).same_setup(old(self)),
    {
        &mut self.state
    }

    /// The arena configuration.
    pub fn arena(&self) -> (r: &ArenaConfigPOD)
        ensures
            *r == self.arena_config(),
    {
        &self.arena
    }

    /// The attribute profile of each slot.
    pub fn attributes(&self) -> (r: &[FighterAttributesPOD; MAX_SIMULTANEOUS_ENTITIES])
        ensures
            r@ == self.slot_attributes(),
    {
        &self.attributes
    }

    /// Restarts the match with a new seed: the engine becomes exactly the one
    /// `new` builds from the new seed and this engine's configuration and
    /// spawn points.
    pub fn reset(&mut self, new_seed: u64) -> (r: Result<(), EngineError>)
        ensures
            r is Ok,
            final(self).is_fresh(
                new_seed,
                old(self).arena_config(),
                old(self).template_config(),
                old(self).spawn_height(),
                old(self).right_spawn_x(),
            ),
    {
        let arena = self.arena;
        let template = self.template;
        let spawn_y = self.spawn_y;
        let right_x = self.right_x;
        match Self::new(new_seed, arena, template, spawn_y, right_x) {
            Ok(fresh) => {
                *self = fresh;
                Ok(())
            },
            Err(e) => Err(e),
        }
    }
}

/// `after` is `before` advanced by one tick: every occupied fighter moved by
/// its sample, other slots unchanged, the tick counter one higher, and the
/// generator state `rng` recorded.
pub open spec fn steps_to(
    before: WorldState,
    rng: PrngStatePOD,
    motions: Seq<MotionSample>,
    after: WorldState,
) -> bool {
    &&& forall|i: int|
        0 <= i < 64 ==> #[trigger] after.fighters@[i] == if i < before.active_count {
            moved(before.fighters@[i], motions[i])
        } else {
            before.fighters@[i]
        }
    &&& after.current_tick == before.current_tick + 1
    &&& after.rng_state == rng
    &&& after.active_count == before.active_count
    &&& after._header_pad == before._header_pad
}

/// A tick is deterministic: the same world, generator state and motion
/// samples always lead to the same next world.
pub proof fn law_step_is_deterministic(
    before: WorldState,
    rng: PrngStatePOD,
    motions: Seq<MotionSample>,
    a: WorldState,
    b: WorldState,
)
    requires
        steps_to(before, rng, motions, a),
        steps_to(before, rng, motions, b),
    ensures
        a == b,
{
    assert(a.fighters@ =~= b.fighters@);
    assert(a.fighters == b.fighters);
}

/// A zero magnitude leaves only the two zeros.
proof fn lemma_zero_magnitude(v: u32)
    ensures
        (v & 0x7FFF_FFFFu32) == 0 ==> v == 0 || v == 0x8000_0000u32,
{
    assert((v & 0x7FFF_FFFFu32) == 0 ==> v == 0 || v == 0x8000_0000u32) by (bit_vector);
}

/// After a tick's motion a fighter's position and velocity hold no `-0.0`,
/// its velocity holds no subnormal value, and a coordinate changed by
/// clamping leaves that velocity component at `+0.0`. A coordinate clamping
/// left unchanged holds no subnormal value either; where clamping changed a
/// coordinate, the position is the clamp bound the caller computed.
pub proof fn law_moved_fighter_is_canonical_and_flushed(f: FighterState, m: MotionSample)
    ensures
        canonical(moved(f, m).position.x) == moved(f, m).position.x,
        canonical(moved(f, m).position.y) == moved(f, m).position.y,
        canonical(moved(f, m).velocity.x) == moved(f, m).velocity.x,
        canonical(moved(f, m).velocity.y) == moved(f, m).velocity.y,
        exponent(moved(f, m).velocity.x) != 0 || moved(f, m).velocity.x == 0,
        exponent(moved(f, m).velocity.y) != 0 || moved(f, m).velocity.y == 0,
        crossed(m.integrated_position.x, m.clamped_position.x) ==> moved(f, m).velocity.x == 0,
        crossed(m.integrated_position.y, m.clamped_position.y) ==> moved(f, m).velocity.y == 0,
        !crossed(m.integrated_position.x, m.clamped_position.x) ==> exponent(moved(f, m).position.x)
            != 0 || moved(f, m).position.x == 0,
        !crossed(m.integrated_position.y, m.clamped_position.y) ==> exponent(moved(f, m).position.y)
            != 0 || moved(f, m).position.y == 0,
{
    lemma_flushed_is_canonical(m.target_velocity.x);
    lemma_flushed_is_canonical(m.target_velocity.y);
    lemma_flushed_is_canonical(m.integrated_position.x);
    lemma_flushed_is_canonical(m.integrated_position.y);
    lemma_zero_magnitude(m.clamped_position.x);
    lemma_zero_magnitude(m.clamped_position.y);
    assert(canonical(canonical(m.clamped_position.x)) == canonical(m.clamped_position.x));
}

/// Two engines built fresh from the same inputs are in the same state; in
/// particular `reset` leaves exactly the world a new engine starts with.
pub proof fn law_fresh_engine_is_unique(
    a: &TickEngine,
    b: &TickEngine,
    seed: u64,
    arena: ArenaConfigPOD,
    template: FighterAttributesPOD,
    spawn_y: u32,
    right_x: u32,
)
    requires
        a.is_fresh(seed, arena, template, spawn_y, right_x),
        b.is_fresh(seed, arena, template, spawn_y, right_x),
    ensures
        a.world() == b.world(),
        a.same_setup(b),
{
    let wa = a.world();
    let wb = b.world();
    assert forall|i: int| 0 <= i < 64 implies wa.fighters@[i] == wb.fighters@[i] by {
        let fa = wa.fighters@[i];
        let fb = wb.fighters@[i];
        assert(fa._pad@ =~= fb._pad@);
        assert(fa._pad == fb._pad);
    }
    assert(wa.fighters@ =~= wb.fighters@);
    assert(wa.fighters == wb.fighters);
    assert(wa._header_pad@ =~= wb._header_pad@);
    assert(wa._header_pad == wb._header_pad);
    assert forall|i: int| 0 <= i < 64 implies a.slot_attributes()[i] == b.slot_attributes()[i] by {
        if i >= 2 {
            let pa = a.slot_attributes()[i];
            let pb = b.slot_attributes()[i];
            assert(pa.id@ =~= pb.id@);
            assert(pa.id == pb.id);
            assert(pa._pad@ =~= pb._pad@);
            assert(pa._pad == pb._pad);
        }
    }
    assert(a.slot_attributes() =~= b.slot_attributes());
}

/// A run of ticks is deterministic: two runs from the same world, with the
/// same generator state and the same motion samples at every tick, pass
/// through the same worlds. (A step leaves the generator untouched, so its
/// state is the same at every tick.)
pub proof fn law_runs_are_deterministic(
    a: Seq<WorldState>,
    b: Seq<WorldState>,
    rng: PrngStatePOD,
    motions: Seq<Seq<MotionSample>>,
)
    requires
        a.len() == b.len(),
        a.len() >= 1,
        motions.len() + 1 >= a.len(),
        a[0] == b[0],
        forall|k: int| 0 <= k < a.len() - 1 ==> steps_to(#[trigger] a[k], rng, motions[k], a[k + 1]),
        forall|k: int| 0 <= k < b.len() - 1 ==> steps_to(#[trigger] b[k], rng, motions[k], b[k + 1]),
    ensures
        forall|k: int| 0 <= k < a.len() ==> #[trigger] a[k] == b[k],
    decreases a.len(),
{
    if a.len() > 1 {
        let n = a.len() - 1;
        law_runs_are_deterministic(a.take(n), b.take(n), rng, motions);
        assert(a.take(n)[n - 1] == a[n - 1]);
        assert(b.take(n)[n - 1] == b[n - 1]);
        assert(steps_to(a[n - 1], rng, motions[n - 1], a[n]));
        assert(steps_to(b[n - 1], rng, motions[n - 1], b[n]));
        law_step_is_deterministic(a[n - 1], rng, motions[n - 1], a[n], b[n]);
        assert forall|k: int| 0 <= k < a.len() implies #[trigger] a[k] == b[k] by {
            if k < n {
                assert(a.take(n)[k] == a[k]);
                assert(b.take(n)[k] == b[k]);
            }
        }
    }
}

/// After a successful tick every occupied fighter stands at the caller's
/// clamped position on both axes, stored canonically. Each velocity component
/// is the flushed target velocity where the clamped coordinate equals (as a
/// number) the flushed, canonical integrated coordinate, and `+0.0` where
/// clamping moved it. Health, stamina, identity and orientation are kept,
/// and unoccupied slots are untouched.
pub proof fn law_step_places_fighters_at_clamped_positions(
    before: WorldState,
    rng: PrngStatePOD,
    motions: Seq<MotionSample>,
    after: WorldState,
)
    requires
        steps_to(before, rng, motions, after),
    ensures
        forall|i: int|
            0 <= i < 64 && i < before.active_count ==> {
                let f = #[trigger] before.fighters@[i];
                let g = after.fighters@[i];
                let m = motions[i];
                &&& g.position.x == canonical(m.clamped_position.x)
                &&& g.position.y == canonical(m.clamped_position.y)
                &&& g.velocity.x == if float_eq(
                    m.clamped_position.x,
                    canonical(flushed(m.integrated_position.x)),
                ) {
                    flushed(m.target_velocity.x)
                } else {
                    0
                }
                &&& g.velocity.y == if float_eq(
                    m.clamped_position.y,
                    canonical(flushed(m.integrated_position.y)),
                ) {
                    flushed(m.target_velocity.y)
                } else {
                    0
                }
                &&& g.health == f.health
                &&& g.stamina == f.stamina
                &&& g.id == f.id
                &&& g.team_id == f.team_id
                &&& g.facing_right == f.facing_right
                &&& g._pad == f._pad
            },
        forall|i: int| 0 <= i < 64 && i >= before.active_count ==> #[trigger] after.fighters@[i] == before.fighters@[i],
{
    assert forall|i: int| 0 <= i < 64 && i < before.active_count implies {
        let f = #[trigger] before.fighters@[i];
        let g = after.fighters@[i];
        let m = motions[i];
        &&& g.position.x == canonical(m.clamped_position.x)
        &&& g.position.y == canonical(m.clamped_position.y)
        &&& g.velocity.x == if float_eq(
            m.clamped_position.x,
            canonical(flushed(m.integrated_position.x)),
        ) {
            flushed(m.target_velocity.x)
        } else {
            0
        }
        &&& g.velocity.y == if float_eq(
            m.clamped_position.y,
            canonical(flushed(m.integrated_position.y)),
        ) {
            flushed(m.target_velocity.y)
        } else {
            0
        }
        &&& g.health == f.health
        &&& g.stamina == f.stamina
        &&& g.id == f.id
        &&& g.team_id == f.team_id
        &&& g.facing_right == f.facing_right
        &&& g._pad == f._pad
    } by {
        assert(after.fighters@[i] == moved(before.fighters@[i], motions[i]));
    }
    assert forall|i: int| 0 <= i < 64 && i >= before.active_count implies #[trigger] after.fighters@[i]
        == before.fighters@[i] by {
        assert(after.fighters@[i] == before.fighters@[i]);
    }
}

/// Flush-to-zero on bit patterns: a pattern whose exponent field (bits 23
/// to 30) is zero, that is a subnormal value or either zero, becomes `+0.0`;
/// every other pattern, normal, infinite or NaN, is kept.
pub proof fn law_flush_clears_exactly_zero_exponent(v: u32)
    ensures
        (v >> 23u32) & 0xFFu32 == 0 ==> flushed(v) == 0,
        (v >> 23u32) & 0xFFu32 != 0 ==> flushed(v) == v,
{
}

/// A step is accepted exactly when every occupied slot's action names its
/// own slot (so at most 64 slots are occupied); the action a refusal reports
/// is the first, in slot order, that names another slot.
pub proof fn law_actions_valid_exactly(actions: Seq<EntityActionPOD>, active_count: u8)
    ensures
        all_actions_valid(actions, active_count) <==> (active_count <= 64 && forall|j: int|
            0 <= j < active_count ==> #[trigger] actions[j].entity_id == j),
        forall|i: int|
            #[trigger] first_invalid_action(actions, active_count, i) ==> {
                &&& 0 <= i < active_count
                &&& actions[i].entity_id != i
                &&& forall|j: int| 0 <= j < i ==> #[trigger] actions[j].entity_id == j
            },
{
    if all_actions_valid(actions, active_count) && active_count > 64 {
        assert(action_valid(actions[64], 64, active_count));
    }
    assert forall|i: int| #[trigger] first_invalid_action(actions, active_count, i) implies {
        &&& 0 <= i < active_count
        &&& actions[i].entity_id != i
        &&& forall|j: int| 0 <= j < i ==> #[trigger] actions[j].entity_id == j
    } by {
        assert forall|j: int| 0 <= j < i implies #[trigger] actions[j].entity_id == j by {
            assert(action_valid(actions[j], j, active_count));
        }
    }
}

/// A tick advances the tick counter by exactly one, keeps the occupied count
/// and the header padding, and records the generator state it was given.
pub proof fn law_step_advances_one_tick(
    before: WorldState,
    rng: PrngStatePOD,
    motions: Seq<MotionSample>,
    after: WorldState,
)
    requires
        steps_to(before, rng, motions, after),
    ensures
        after.current_tick == before.current_tick + 1,
        after.active_count == before.active_count,
        after.rng_state == rng,
        after._header_pad == before._header_pad,
{
}

/// A fresh match: tick 0, two occupied slots; slot 0 holds fighter 0 of
/// team 0 at the arena's spawn margin, facing right; slot 1 holds fighter 1
/// of team 1 at `right_x`, facing left; both at height `spawn_y`, at rest,
/// with the template's full health and stamina (floats stored canonically);
/// every other slot is zero, and the generator is at the start of stream 0.
pub proof fn law_fresh_match_layout(
    e: &TickEngine,
    seed: u64,
    arena: ArenaConfigPOD,
    template: FighterAttributesPOD,
    spawn_y: u32,
    right_x: u32,
)
    requires
        e.is_fresh(seed, arena, template, spawn_y, right_x),
    ensures
        e.world().current_tick == 0,
        e.world().active_count == 2,
        e.world().fighters@[0].id == 0,
        e.world().fighters@[0].team_id == 0,
        e.world().fighters@[0].facing_right,
        e.world().fighters@[0].position.x == canonical(arena.spawn_margin),
        e.world().fighters@[0].position.y == canonical(spawn_y),
        e.world().fighters@[1].id == 1,
        e.world().fighters@[1].team_id == 1,
        !e.world().fighters@[1].facing_right,
        e.world().fighters@[1].position.x == canonical(right_x),
        e.world().fighters@[1].position.y == canonical(spawn_y),
        forall|i: int|
            0 <= i < 2 ==> {
                let f = #[trigger] e.world().fighters@[i];
                &&& f.velocity.x == 0
                &&& f.velocity.y == 0
                &&& f.health == canonical(template.max_health)
                &&& f.stamina == canonical(template.max_stamina)
            },
        forall|i: int| 2 <= i < 64 ==> (#[trigger] e.world().fighters@[i]).is_zeroed(),
        e.rng_view() == (PrngStatePOD { seed, stream_id: 0, word_pos: 0 }),
{
}

} // verus!
