//! World state of the simulation, its canonical form and its hash.
use crate::config::{Vector2D, MAX_SIMULTANEOUS_ENTITIES};
use crate::config::pod::zeros;
use crate::ieee::{bits_float_eq, float_eq, NEG_ZERO_BITS};
use vstd::std_specs::cmp::PartialEqSpecImpl;
use crate::prng::PrngStatePOD;
use vstd::prelude::*;

verus! {

/// Errors of looking up a fighter.
#[derive(Debug, PartialEq, Eq, Structural)]
pub enum StateError {
    EntityNotFound(u32),
}

/// The canonical form of a binary32 value: `-0.0` becomes `+0.0`, every other
/// pattern is kept.
pub open spec fn canonical(bits: u32) -> u32 {
    if bits == NEG_ZERO_BITS {
        0
    } else {
        bits
    }
}

/// Replaces `-0.0` by `+0.0` without branching; every other pattern is kept.
pub fn canonicalize_zero(v: u32) -> (r: u32)
    ensures
        r == canonical(v),
{
    let sign = v >> 31u32;
    let zero_mag: u32 = if (v & 0x7FFF_FFFFu32) == 0 { 1 } else { 0 };
    let is_neg_zero = sign & zero_mag;
    assert(is_neg_zero == 0 || is_neg_zero == 1) by (bit_vector)
        requires
            sign == v >> 31u32,
            zero_mag == 0 || zero_mag == 1,
            is_neg_zero == sign & zero_mag,
    ;
    let mask = 0u32.wrapping_sub(is_neg_zero);
    let r = v & !mask;
    assert(r == canonical(v)) by (bit_vector)
        requires
            sign == v >> 31u32,
            zero_mag == (if (v & 0x7FFF_FFFFu32) == 0 { 1u32 } else { 0u32 }),
            is_neg_zero == sign & zero_mag,
            mask == (if is_neg_zero == 0 { 0u32 } else { 0xFFFF_FFFFu32 }),
            r == v & !mask,
    ;
    r
}

/// One fighter slot: kinematics, resources, identity and orientation. Float
/// fields are bit patterns; two slots are equal when their float fields are
/// equal as numbers and every other field is identical.
#[derive(Clone, Copy, Debug, Default)]
pub struct FighterState {
    pub position: Vector2D,
    pub velocity: Vector2D,
    pub health: u32,
    pub stamina: u32,
    pub id: u32,
    pub team_id: u8,
    pub facing_right: bool,
    pub _pad: [u8; 2],
}

impl FighterState {
    /// The slot with every float field in canonical form.
    pub open spec fn canonicalized(self) -> Self {
        FighterState {
            position: Vector2D { x: canonical(self.position.x), y: canonical(self.position.y) },
            velocity: Vector2D { x: canonical(self.velocity.x), y: canonical(self.velocity.y) },
            health: canonical(self.health),
            stamina: canonical(self.stamina),
            ..self
        }
    }

    /// No float field holds `-0.0`.
    pub open spec fn is_canonical(self) -> bool {
        &&& self.position.x != NEG_ZERO_BITS
        &&& self.position.y != NEG_ZERO_BITS
        &&& self.velocity.x != NEG_ZERO_BITS
        &&& self.velocity.y != NEG_ZERO_BITS
        &&& self.health != NEG_ZERO_BITS
        &&& self.stamina != NEG_ZERO_BITS
    }

    /// Every byte of the slot is zero.
    pub open spec fn is_zeroed(self) -> bool {
        &&& self.position == Vector2D { x: 0, y: 0 }
        &&& self.velocity == Vector2D { x: 0, y: 0 }
        &&& self.health == 0
        &&& self.stamina == 0
        &&& self.id == 0
        &&& self.team_id == 0
        &&& !self.facing_right
        &&& self._pad@ == zeros(2)
    }

    /// An all-zero slot.
    pub fn zeroed() -> (r: Self)
        ensures
            r.is_zeroed(),
    {
        let pad = [0u8; 2];
        assert(pad@ =~= zeros(2));
        FighterState {
            position: Vector2D { x: 0, y: 0 },
            velocity: Vector2D { x: 0, y: 0 },
            health: 0,
            stamina: 0,
            id: 0,
            team_id: 0,
            facing_right: false,
            _pad: pad,
        }
    }

    /// Puts every float field in canonical form.
    pub fn canonicalize_mut(&mut self)
        ensures
            *final(self) == old(self).canonicalized(),
    {
        self.position.x = canonicalize_zero(self.position.x);
        self.position.y = canonicalize_zero(self.position.y);
        self.velocity.x = canonicalize_zero(self.velocity.x);
        self.velocity.y = canonicalize_zero(self.velocity.y);
        self.health = canonicalize_zero(self.health);
        self.stamina = canonicalize_zero(self.stamina);
    }

    /// Sets the position, storing each component in canonical form.
    pub fn set_position(&mut self, x: u32, y: u32)
        ensures
            *final(self) == (FighterState {
                position: Vector2D { x: canonical(x), y: canonical(y) },
                ..*old(self)
            }),
    {
        self.position.x = canonicalize_zero(x);
        self.position.y = canonicalize_zero(y);
    }

    /// Sets the velocity, storing each component in canonical form.
    pub fn set_velocity(&mut self, x: u32, y: u32)
        ensures
            *final(self) == (FighterState {
                velocity: Vector2D { x: canonical(x), y: canonical(y) },
                ..*old(self)
            }),
    {
        self.velocity.x = canonicalize_zero(x);
        self.velocity.y = canonicalize_zero(y);
    }

    /// Sets the health, stored in canonical form.
    pub fn set_health(&mut self, health: u32)
        ensures
            *final(self) == (FighterState { health: canonical(health), ..*old(self) }),
    {
        self.health = canonicalize_zero(health);
    }

    /// Sets the stamina, stored in canonical form.
    pub fn set_stamina(&mut self, stamina: u32)
        ensures
            *final(self) == (FighterState { stamina: canonical(stamina), ..*old(self) }),
    {
        self.stamina = canonicalize_zero(stamina);
    }
}

/// The whole simulated world: every fighter slot, the generator descriptor,
/// the tick counter and the number of occupied slots. Slots at and past
/// `active_count` are not part of the simulation. Two worlds are equal when
/// all their slots are equal and every other field is identical.
#[derive(Clone, Copy, Debug)]
pub struct WorldState {
    pub fighters: [FighterState; MAX_SIMULTANEOUS_ENTITIES],
    pub rng_state: PrngStatePOD,
    pub current_tick: u64,
    pub active_count: u8,
    pub _header_pad: [u8; 23],
}

/// Every byte of a world is zero.
pub open spec fn world_is_zeroed(w: WorldState) -> bool {
    &&& forall|i: int| 0 <= i < 64 ==> (#[trigger] w.fighters@[i]).is_zeroed()
    &&& w.rng_state == PrngStatePOD { seed: 0, stream_id: 0, word_pos: 0 }
    &&& w.current_tick == 0
    &&& w.active_count == 0
    &&& w._header_pad@ == zeros(23)
}

impl Default for WorldState {
    fn default() -> (r: Self)
        ensures
            world_is_zeroed(r),
    {
        let pad = [0u8; 23];
        assert(pad@ =~= zeros(23));
        let f = FighterState::zeroed();
        WorldState {
            fighters: [f; 64],
            rng_state: PrngStatePOD { seed: 0, stream_id: 0, word_pos: 0 },
            current_tick: 0,
            active_count: 0,
            _header_pad: pad,
        }
    }
}

impl WorldState {
    /// The empty world: every byte zero.
    pub fn new() -> (r: Self)
        ensures
            world_is_zeroed(r),
    {
        Self::default()
    }

    /// Returns the world to the empty state.
    pub fn reset(&mut self)
        ensures
            world_is_zeroed(*final(self)),
    {
        *self = Self::default();
    }

    /// Slot `i` is the first occupied slot carrying `id`.
    pub open spec fn first_slot_with_id(self, id: u32, i: int) -> bool {
        &&& 0 <= i < self.active_count
        &&& i < 64
        &&& self.fighters@[i].id == id
        &&& forall|j: int| 0 <= j < i ==> (#[trigger] self.fighters@[j]).id != id
    }

    /// No occupied slot carries `id`.
    pub open spec fn has_no_slot_with_id(self, id: u32) -> bool {
        forall|j: int| 0 <= j < self.active_count && j < 64 ==> (#[trigger] self.fighters@[j]).id != id
    }

    /// Looking up `id` stays within the slot array: the occupied count fits
    /// it, or a slot before its end carries `id`.
    pub open spec fn lookup_in_bounds(self, id: u32) -> bool {
        self.active_count <= 64 || exists|i: int| 0 <= i < 64 && (#[trigger] self.fighters@[i]).id == id
    }

    /// The first occupied slot whose fighter has identifier `id`.
    pub fn get_fighter(&self, id: u32) -> (r: Result<&FighterState, StateError>)
        requires
            self.lookup_in_bounds(id),
        ensures
            match r {
                Ok(f) => exists|i: int| self.first_slot_with_id(id, i) && *f == self.fighters@[i],
                Err(e) => e == StateError::EntityNotFound(id) && self.has_no_slot_with_id(id),
            },
    {
        let n = self.active_count as usize;
        let mut i: usize = 0;
        while i < n
            invariant
                n == self.active_count,
                i <= n,
                self.lookup_in_bounds(id),
                forall|j: int| 0 <= j < i ==> j < 64 && (#[trigger] self.fighters@[j]).id != id,
            decreases n - i,
        {
            proof {
                if i >= 64 {
                    let k = choose|k: int| 0 <= k < 64 && (#[trigger] self.fighters@[k]).id == id;
                    assert(self.fighters@[k].id != id);
                }
            }
            if self.fighters[i].id == id {
                assert(self.first_slot_with_id(id, i as int));
                return Ok(&self.fighters[i]);
            }
            i = i + 1;
        }
        Err(StateError::EntityNotFound(id))
    }
    /// The first occupied slot whose fighter has identifier `id`, for
    /// modification; every other part of the world is left as it was.
    pub fn get_fighter_mut(&mut self, id: u32) -> (r: Result<&mut FighterState, StateError>)
        requires
            old(self).lookup_in_bounds(id),
        ensures
            match r {
                Ok(f) => exists|i: int|
                    {
                        &&& old(self).first_slot_with_id(id, i)
                        &&& *f == old(self).fighters@[i]
                        &&& final(self).fighters@ == old(self).fighters@.update(i, *final(f))
                        &&& final(self).rng_state == old(self).rng_state
                        &&& final(self).current_tick == old(self).current_tick
                        &&& final(self).active_count == old(self).active_count
                        &&& final(self)._header_pad == old(self)._header_pad
                    },
                Err(e) => e == StateError::EntityNotFound(id) && old(self).has_no_slot_with_id(id)
                    && *final(self) == *old(self),
            },
    {
        let n = self.active_count as usize;
        let mut i: usize = 0;
        while i < n
            invariant
                n == self.active_count,
                i <= n,
                *self == *old(self),
                self.lookup_in_bounds(id),
                forall|j: int| 0 <= j < i ==> j < 64 && (#[trigger] self.fighters@[j]).id != id,
            decreases n - i,
        {
            proof {
                if i >= 64 {
                    let k = choose|k: int| 0 <= k < 64 && (#[trigger] self.fighters@[k]).id == id;
                    assert(self.fighters@[k].id != id);
                }
            }
            if self.fighters[i].id == id {
                assert(self.first_slot_with_id(id, i as int));
                return Ok(&mut self.fighters[i]);
            }
            i = i + 1;
        }
        Err(StateError::EntityNotFound(id))
    }
    /// Puts every float field of every occupied slot in canonical form.
    pub fn canonicalize_all(&mut self)
        requires
            old(self).active_count <= 64,
        ensures
            final(self).canonicalizes(*old(self)),
    {
        let n = self.active_count as usize;
        let mut i: usize = 0;
        while i < n
            invariant
                n == old(self).active_count,
                n <= 64,
                i <= n,
                forall|j: int|
                    0 <= j < 64 ==> #[trigger] self.fighters@[j] == if j < i {
                        old(self).fighters@[j].canonicalized()
                    } else {
                        old(self).fighters@[j]
                    },
                self.rng_state == old(self).rng_state,
                self.current_tick == old(self).current_tick,
                self.active_count == old(self).active_count,
                self._header_pad == old(self)._header_pad,
            decreases n - i,
        {
            self.fighters[i].canonicalize_mut();
            i = i + 1;
        }
    }
    /// `self` is `before` with every occupied slot canonicalized and
    /// everything else unchanged.
    pub open spec fn canonicalizes(self, before: WorldState) -> bool {
        &&& forall|i: int|
            0 <= i < 64 ==> #[trigger] self.fighters@[i] == if i < before.active_count {
                before.fighters@[i].canonicalized()
            } else {
                before.fighters@[i]
            }
        &&& self.rng_state == before.rng_state
        &&& self.current_tick == before.current_tick
        &&& self.active_count == before.active_count
        &&& self._header_pad == before._header_pad
    }

    /// The little-endian byte image of the world, 2112 bytes, field by field.
    pub fn as_bytes(&self) -> (r: [u8; WORLD_BYTES])
        ensures
            r@ == world_bytes(*self),
    {
        let mut buf = [0u8; WORLD_BYTES];
        let mut pos: usize = 0;
        let mut i: usize = 0;
        while i < MAX_SIMULTANEOUS_ENTITIES
            invariant
                i <= 64,
                pos == 32 * i,
                buf@.len() == 2112,
                buf@.take(pos as int) == fighters_bytes(self.fighters@.take(i as int)),
            decreases 64 - i,
        {
            proof {
                lemma_fighters_bytes_len(self.fighters@.take(i as int));
            }
            pos = put_fighter(&mut buf, pos, &self.fighters[i]);
            assert(self.fighters@.take(i + 1).drop_last() =~= self.fighters@.take(i as int));
            i = i + 1;
        }
        assert(self.fighters@.take(64) =~= self.fighters@);
        pos = put_u64_le(&mut buf, pos, self.rng_state.seed);
        pos = put_u64_le(&mut buf, pos, self.rng_state.stream_id);
        pos = put_u128_le(&mut buf, pos, self.rng_state.word_pos);
        pos = put_u64_le(&mut buf, pos, self.current_tick);
        let count = [self.active_count];
        pos = put_bytes(&mut buf, pos, count.as_slice());
        pos = put_bytes(&mut buf, pos, self._header_pad.as_slice());
        assert(pos == 2112);
        assert(buf@.take(2112) =~= buf@);
        assert(count@ =~= seq![self.active_count]);
        buf
    }

    /// The XXH3-64 digest of the world's byte image.
    pub fn compute_hash(&self) -> (r: u64)
        ensures
            r == xxh3_64_digest(world_bytes(*self)),
    {
        let bytes = self.as_bytes();
        xxh3_64_of(bytes.as_slice())
    }
}

/// Length of a world's byte image.
pub const WORLD_BYTES: usize = 2112;

/// Little-endian bytes of a `u32`.
pub open spec fn le_u32(x: u32) -> Seq<u8> {
    seq![x as u8, (x >> 8u32) as u8, (x >> 16u32) as u8, (x >> 24u32) as u8]
}

/// Little-endian bytes of a `u64`.
pub open spec fn le_u64(x: u64) -> Seq<u8> {
    le_u32(x as u32) + le_u32((x >> 32u64) as u32)
}

/// Little-endian bytes of a `u128`.
pub open spec fn le_u128(x: u128) -> Seq<u8> {
    le_u64(x as u64) + le_u64((x >> 64u128) as u64)
}

/// The 32-byte image of a fighter slot.
pub open spec fn fighter_bytes(f: FighterState) -> Seq<u8> {
    le_u32(f.position.x) + le_u32(f.position.y) + le_u32(f.velocity.x) + le_u32(f.velocity.y)
        + le_u32(f.health) + le_u32(f.stamina) + le_u32(f.id) + seq![
        f.team_id,
        if f.facing_right {
            1u8
        } else {
            0u8
        },
    ] + f._pad@
}

/// The images of a run of fighter slots, one after the other.
pub open spec fn fighters_bytes(fs: Seq<FighterState>) -> Seq<u8>
    decreases fs.len(),
{
    if fs.len() == 0 {
        seq![]
    } else {
        fighters_bytes(fs.drop_last()) + fighter_bytes(fs.last())
    }
}

/// The byte image of a world: its slots, the generator descriptor, the tick
/// counter, the occupied count and the header padding.
pub open spec fn world_bytes(w: WorldState) -> Seq<u8> {
    fighters_bytes(w.fighters@) + le_u64(w.rng_state.seed) + le_u64(w.rng_state.stream_id)
        + le_u128(w.rng_state.word_pos) + le_u64(w.current_tick) + seq![w.active_count]
        + w._header_pad@
}

proof fn lemma_fighters_bytes_len(fs: Seq<FighterState>)
    ensures
        fighters_bytes(fs).len() == 32 * fs.len(),
    decreases fs.len(),
{
    if fs.len() > 0 {
        lemma_fighters_bytes_len(fs.drop_last());
    }
}

/// Writes `bytes` at `pos`; the image up to the returned position is the
/// image up to `pos` followed by `bytes`.
fn put_bytes(buf: &mut [u8; WORLD_BYTES], pos: usize, bytes: &[u8]) -> (next: usize)
    requires
        old(buf)@.len() == 2112,
        pos + bytes@.len() <= 2112,
    ensures
        next == pos + bytes@.len(),
        final(buf)@.len() == 2112,
        final(buf)@.take(next as int) == old(buf)@.take(pos as int) + bytes@,
{
    let mut i: usize = 0;
    while i < bytes.len()
        invariant
            i <= bytes@.len(),
            pos + bytes@.len() <= 2112,
            buf@.len() == 2112,
            buf@.take(pos + i) == old(buf)@.take(pos as int) + bytes@.take(i as int),
        decreases bytes@.len() - i,
    {
        let ghost before = buf@;
        buf[pos + i] = bytes[i];
        assert(buf@.take(pos + i + 1) =~= before.take(pos + i).push(bytes@[i as int]));
        assert(bytes@.take(i + 1) =~= bytes@.take(i as int).push(bytes@[i as int]));
        i = i + 1;
    }
    assert(bytes@.take(bytes@.len() as int) =~= bytes@);
    pos + bytes.len()
}

fn put_u32_le(buf: &mut [u8; WORLD_BYTES], pos: usize, x: u32) -> (next: usize)
    requires
        old(buf)@.len() == 2112,
        pos + 4 <= 2112,
    ensures
        next == pos + 4,
        final(buf)@.len() == 2112,
        final(buf)@.take(next as int) == old(buf)@.take(pos as int) + le_u32(x),
{
    let b = [x as u8, (x >> 8u32) as u8, (x >> 16u32) as u8, (x >> 24u32) as u8];
    assert(b@ =~= le_u32(x));
    put_bytes(buf, pos, b.as_slice())
}

fn put_u64_le(buf: &mut [u8; WORLD_BYTES], pos: usize, x: u64) -> (next: usize)
    requires
        old(buf)@.len() == 2112,
        pos + 8 <= 2112,
    ensures
        next == pos + 8,
        final(buf)@.len() == 2112,
        final(buf)@.take(next as int) == old(buf)@.take(pos as int) + le_u64(x),
{
    let mid = put_u32_le(buf, pos, x as u32);
    let next = put_u32_le(buf, mid, (x >> 32u64) as u32);
    assert(buf@.take(next as int) =~= old(buf)@.take(pos as int) + le_u64(x));
    next
}

fn put_u128_le(buf: &mut [u8; WORLD_BYTES], pos: usize, x: u128) -> (next: usize)
    requires
        old(buf)@.len() == 2112,
        pos + 16 <= 2112,
    ensures
        next == pos + 16,
        final(buf)@.len() == 2112,
        final(buf)@.take(next as int) == old(buf)@.take(pos as int) + le_u128(x),
{
    let mid = put_u64_le(buf, pos, x as u64);
    let next = put_u64_le(buf, mid, (x >> 64u128) as u64);
    assert(buf@.take(next as int) =~= old(buf)@.take(pos as int) + le_u128(x));
    next
}

fn put_fighter(buf: &mut [u8; WORLD_BYTES], pos: usize, f: &FighterState) -> (next: usize)
    requires
        old(buf)@.len() == 2112,
        pos + 32 <= 2112,
    ensures
        next == pos + 32,
        final(buf)@.len() == 2112,
        final(buf)@.take(next as int) == old(buf)@.take(pos as int) + fighter_bytes(*f),
{
    let mut p = put_u32_le(buf, pos, f.position.x);
    p = put_u32_le(buf, p, f.position.y);
    p = put_u32_le(buf, p, f.velocity.x);
    p = put_u32_le(buf, p, f.velocity.y);
    p = put_u32_le(buf, p, f.health);
    p = put_u32_le(buf, p, f.stamina);
    p = put_u32_le(buf, p, f.id);
    let flags = [f.team_id, if f.facing_right { 1u8 } else { 0u8 }];
    p = put_bytes(buf, p, flags.as_slice());
    p = put_bytes(buf, p, f._pad.as_slice());
    assert(flags@ =~= seq![f.team_id, if f.facing_right { 1u8 } else { 0u8 }]);
    assert(buf@.take(p as int) =~= old(buf)@.take(pos as int) + fighter_bytes(*f));
    p
}

/// Name for the XXH3-64 digest (seed 0) of a byte sequence.
pub uninterp spec fn xxh3_64_digest(data: Seq<u8>) -> u64;

/// Calls `xxhash_rust::xxh3::xxh3_64`; its result is the XXH3-64 digest of
/// `data`, a function of the bytes alone.
#[verifier::external_body]
fn xxh3_64_of(data: &[u8]) -> (r: u64)
    ensures
        r == xxh3_64_digest(data@),
{
    xxhash_rust::xxh3::xxh3_64(data)
}

/// After canonicalization no occupied slot holds `-0.0` in a float field.
pub proof fn law_canonicalized_slots_hold_no_negative_zero(before: WorldState, after: WorldState)
    requires
        after.canonicalizes(before),
    ensures
        forall|i: int|
            0 <= i < after.active_count && i < 64 ==> (#[trigger] after.fighters@[i]).is_canonical(),
{
}

/// Two worlds that agree everywhere except in the sign of zero-valued floats
/// of their occupied slots have the same byte image, and so the same hash,
/// once both are canonicalized.
pub proof fn law_canonical_hash_ignores_zero_sign(
    a: WorldState,
    b: WorldState,
    ca: WorldState,
    cb: WorldState,
)
    requires
        a.active_count == b.active_count,
        a.rng_state == b.rng_state,
        a.current_tick == b.current_tick,
        a._header_pad == b._header_pad,
        forall|i: int|
            0 <= i < 64 ==> if i < a.active_count {
                (#[trigger] a.fighters@[i]).canonicalized() == b.fighters@[i].canonicalized()
            } else {
                a.fighters@[i] == b.fighters@[i]
            },
        ca.canonicalizes(a),
        cb.canonicalizes(b),
    ensures
        world_bytes(ca) == world_bytes(cb),
        xxh3_64_digest(world_bytes(ca)) == xxh3_64_digest(world_bytes(cb)),
{
    assert forall|i: int| 0 <= i < 64 implies ca.fighters@[i] == cb.fighters@[i] by {
        assert(a.fighters@[i] == a.fighters@[i]);
    }
    assert(ca.fighters@ =~= cb.fighters@);
}

/// Slot equality: float fields equal as numbers, the rest identical.
pub open spec fn fighters_equal(a: FighterState, b: FighterState) -> bool {
    &&& float_eq(a.position.x, b.position.x)
    &&& float_eq(a.position.y, b.position.y)
    &&& float_eq(a.velocity.x, b.velocity.x)
    &&& float_eq(a.velocity.y, b.velocity.y)
    &&& float_eq(a.health, b.health)
    &&& float_eq(a.stamina, b.stamina)
    &&& a.id == b.id
    &&& a.team_id == b.team_id
    &&& a.facing_right == b.facing_right
    &&& a._pad@ == b._pad@
}

/// World equality: every slot equal, every other field identical.
pub open spec fn worlds_equal(a: WorldState, b: WorldState) -> bool {
    &&& forall|i: int| 0 <= i < 64 ==> fighters_equal(#[trigger] a.fighters@[i], b.fighters@[i])
    &&& a.rng_state == b.rng_state
    &&& a.current_tick == b.current_tick
    &&& a.active_count == b.active_count
    &&& a._header_pad@ == b._header_pad@
}

fn bytes_equal(a: &[u8], b: &[u8]) -> (r: bool)
    requires
        a@.len() == b@.len(),
    ensures
        r == (a@ == b@),
{
    let mut i: usize = 0;
    while i < a.len()
        invariant
            i <= a@.len(),
            a@.len() == b@.len(),
            a@.take(i as int) == b@.take(i as int),
        decreases a@.len() - i,
    {
        if a[i] != b[i] {
            return false;
        }
        assert(a@.take(i + 1) =~= a@.take(i as int).push(a@[i as int]));
        assert(b@.take(i + 1) =~= b@.take(i as int).push(b@[i as int]));
        i = i + 1;
    }
    assert(a@.take(a@.len() as int) =~= a@);
    assert(b@.take(b@.len() as int) =~= b@);
    true
}

impl PartialEq for FighterState {
    fn eq(&self, other: &Self) -> (r: bool) {
        bits_float_eq(self.position.x, other.position.x) && bits_float_eq(
            self.position.y,
            other.position.y,
        ) && bits_float_eq(self.velocity.x, other.velocity.x) && bits_float_eq(
            self.velocity.y,
            other.velocity.y,
        ) && bits_float_eq(self.health, other.health) && bits_float_eq(self.stamina, other.stamina)
            && self.id == other.id && self.team_id == other.team_id && self.facing_right
            == other.facing_right && bytes_equal(self._pad.as_slice(), other._pad.as_slice())
    }
}

impl PartialEqSpecImpl for FighterState {
    open spec fn obeys_eq_spec() -> bool {
        true
    }

    open spec fn eq_spec(&self, other: &Self) -> bool {
        fighters_equal(*self, *other)
    }
}

impl PartialEq for WorldState {
    fn eq(&self, other: &Self) -> (r: bool) {
        let mut i: usize = 0;
        while i < MAX_SIMULTANEOUS_ENTITIES
            invariant
                i <= 64,
                forall|j: int| 0 <= j < i ==> fighters_equal(#[trigger] self.fighters@[j], other.fighters@[j]),
            decreases 64 - i,
        {
            if !self.fighters[i].eq(&other.fighters[i]) {
                return false;
            }
            i = i + 1;
        }
        self.rng_state == other.rng_state && self.current_tick == other.current_tick
            && self.active_count == other.active_count && bytes_equal(
            self._header_pad.as_slice(),
            other._header_pad.as_slice(),
        )
    }
}

impl PartialEqSpecImpl for WorldState {
    open spec fn obeys_eq_spec() -> bool {
        true
    }

    open spec fn eq_spec(&self, other: &Self) -> bool {
        worlds_equal(*self, *other)
    }
}

/// The value a float field holds after canonicalization: `+0.0` where the
/// field held `-0.0`, the field itself otherwise.
pub open spec fn zero_sign_cleared(before: u32, after: u32) -> bool {
    if before == 0x8000_0000u32 {
        after == 0
    } else {
        after == before
    }
}

/// Canonicalizing a slot changes nothing but the sign of zero: each float
/// field keeps its own value unless it held `-0.0`, which becomes `+0.0`,
/// and every other field is kept.
pub proof fn law_canonicalized_slot_only_clears_zero_sign(f: FighterState)
    ensures
        zero_sign_cleared(f.position.x, f.canonicalized().position.x),
        zero_sign_cleared(f.position.y, f.canonicalized().position.y),
        zero_sign_cleared(f.velocity.x, f.canonicalized().velocity.x),
        zero_sign_cleared(f.velocity.y, f.canonicalized().velocity.y),
        zero_sign_cleared(f.health, f.canonicalized().health),
        zero_sign_cleared(f.stamina, f.canonicalized().stamina),
        f.canonicalized().id == f.id,
        f.canonicalized().team_id == f.team_id,
        f.canonicalized().facing_right == f.facing_right,
        f.canonicalized()._pad == f._pad,
{
}

/// Canonicalizing a world changes nothing but the sign of zero in the float
/// fields of its occupied slots: those fields keep their values unless they
/// held `-0.0`, which becomes `+0.0`; all other slots and fields are kept.
pub proof fn law_canonicalize_all_only_clears_zero_sign(before: WorldState, after: WorldState)
    requires
        after.canonicalizes(before),
    ensures
        forall|i: int|
            0 <= i < 64 && i < before.active_count ==> {
                let f = #[trigger] before.fighters@[i];
                let g = after.fighters@[i];
                &&& zero_sign_cleared(f.position.x, g.position.x)
                &&& zero_sign_cleared(f.position.y, g.position.y)
                &&& zero_sign_cleared(f.velocity.x, g.velocity.x)
                &&& zero_sign_cleared(f.velocity.y, g.velocity.y)
                &&& zero_sign_cleared(f.health, g.health)
                &&& zero_sign_cleared(f.stamina, g.stamina)
                &&& g.id == f.id
                &&& g.team_id == f.team_id
                &&& g.facing_right == f.facing_right
                &&& g._pad == f._pad
            },
        forall|i: int| 0 <= i < 64 && i >= before.active_count ==> #[trigger] after.fighters@[i] == before.fighters@[i],
        after.rng_state == before.rng_state,
        after.current_tick == before.current_tick,
        after.active_count == before.active_count,
        after._header_pad == before._header_pad,
{
    assert forall|i: int| 0 <= i < 64 && i < before.active_count implies {
        let f = #[trigger] before.fighters@[i];
        let g = after.fighters@[i];
        &&& zero_sign_cleared(f.position.x, g.position.x)
        &&& zero_sign_cleared(f.position.y, g.position.y)
        &&& zero_sign_cleared(f.velocity.x, g.velocity.x)
        &&& zero_sign_cleared(f.velocity.y, g.velocity.y)
        &&& zero_sign_cleared(f.health, g.health)
        &&& zero_sign_cleared(f.stamina, g.stamina)
        &&& g.id == f.id
        &&& g.team_id == f.team_id
        &&& g.facing_right == f.facing_right
        &&& g._pad == f._pad
    } by {
        law_canonicalized_slot_only_clears_zero_sign(before.fighters@[i]);
        assert(after.fighters@[i] == before.fighters@[i].canonicalized());
    }
}

/// `canonicalize_zero` rewrites `-0.0` to `+0.0` and keeps every other
/// pattern.
pub proof fn law_canonical_clears_only_zero_sign(v: u32)
    ensures
        zero_sign_cleared(v, canonical(v)),
{
}

/// The four little-endian bytes of a word put it back together, lowest
/// byte first.
pub proof fn law_le_u32_recomposes(x: u32)
    ensures
        le_u32(x).len() == 4,
        le_u32(x)[0] as int + 0x100 * le_u32(x)[1] + 0x1_0000 * le_u32(x)[2] + 0x100_0000
            * le_u32(x)[3] == x as int,
{
    assert((x as u8) as int + 0x100 * ((x >> 8u32) as u8) as int + 0x1_0000 * ((x >> 16u32) as u8) as int
        + 0x100_0000 * ((x >> 24u32) as u8) as int == x as int) by (bit_vector);
}

proof fn lemma_fighters_bytes_slot(fs: Seq<FighterState>, i: int)
    requires
        0 <= i < fs.len(),
    ensures
        fighters_bytes(fs).subrange(32 * i, 32 * i + 32) == fighter_bytes(fs[i]),
    decreases fs.len(),
{
    lemma_fighters_bytes_len(fs.drop_last());
    let pre = fighters_bytes(fs.drop_last());
    let last = fighter_bytes(fs.last());
    if i == fs.len() - 1 {
        assert(fighters_bytes(fs).subrange(32 * i, 32 * i + 32) =~= last);
    } else {
        lemma_fighters_bytes_slot(fs.drop_last(), i);
        assert(fighters_bytes(fs).subrange(32 * i, 32 * i + 32) =~= pre.subrange(32 * i, 32 * i + 32));
    }
}

/// Layout of a slot's 32-byte image: position, velocity, health, stamina and
/// identifier as little-endian words, then team, orientation and padding.
pub proof fn law_fighter_image_layout(f: FighterState)
    ensures
        fighter_bytes(f).len() == 32,
        fighter_bytes(f).subrange(0, 4) == le_u32(f.position.x),
        fighter_bytes(f).subrange(4, 8) == le_u32(f.position.y),
        fighter_bytes(f).subrange(8, 12) == le_u32(f.velocity.x),
        fighter_bytes(f).subrange(12, 16) == le_u32(f.velocity.y),
        fighter_bytes(f).subrange(16, 20) == le_u32(f.health),
        fighter_bytes(f).subrange(20, 24) == le_u32(f.stamina),
        fighter_bytes(f).subrange(24, 28) == le_u32(f.id),
        fighter_bytes(f)[28] == f.team_id,
        fighter_bytes(f)[29] == (if f.facing_right { 1u8 } else { 0u8 }),
        fighter_bytes(f).subrange(30, 32) == f._pad@,
{
    let b = fighter_bytes(f);
    assert(b.subrange(0, 4) =~= le_u32(f.position.x));
    assert(b.subrange(4, 8) =~= le_u32(f.position.y));
    assert(b.subrange(8, 12) =~= le_u32(f.velocity.x));
    assert(b.subrange(12, 16) =~= le_u32(f.velocity.y));
    assert(b.subrange(16, 20) =~= le_u32(f.health));
    assert(b.subrange(20, 24) =~= le_u32(f.stamina));
    assert(b.subrange(24, 28) =~= le_u32(f.id));
    assert(b.subrange(30, 32) =~= f._pad@);
}

/// Layout of the byte image of a world: slot `i` occupies bytes
/// `32 i .. 32 i + 32`; the generator seed, stream and position follow at
/// 2048, 2056 and 2064, the tick counter at 2080, the occupied count at 2088
/// and the header padding from 2089 to the end.
#[verifier::rlimit(40)]
pub proof fn law_world_image_layout(w: WorldState)
    ensures
        world_bytes(w).len() == 2112,
        forall|i: int|
            0 <= i < 64 ==> #[trigger] world_bytes(w).subrange(32 * i, 32 * i + 32) == fighter_bytes(
                w.fighters@[i],
            ),
        world_bytes(w).subrange(2048, 2056) == le_u64(w.rng_state.seed),
        world_bytes(w).subrange(2056, 2064) == le_u64(w.rng_state.stream_id),
        world_bytes(w).subrange(2064, 2080) == le_u128(w.rng_state.word_pos),
        world_bytes(w).subrange(2080, 2088) == le_u64(w.current_tick),
        world_bytes(w)[2088] == w.active_count,
        world_bytes(w).subrange(2089, 2112) == w._header_pad@,
{
    let fs = w.fighters@;
    lemma_fighters_bytes_len(fs);
    let img = world_bytes(w);
    let fb = fighters_bytes(fs);
    assert(fb.len() == 2048);
    assert(img.len() == 2112);
    assert forall|i: int| 0 <= i < 64 implies #[trigger] img.subrange(32 * i, 32 * i + 32)
        == fighter_bytes(fs[i]) by {
        lemma_fighters_bytes_slot(fs, i);
        assert(img.subrange(32 * i, 32 * i + 32) =~= fb.subrange(32 * i, 32 * i + 32));
    }
    assert(img.subrange(2048, 2056) =~= le_u64(w.rng_state.seed));
    assert(img.subrange(2056, 2064) =~= le_u64(w.rng_state.stream_id));
    assert(img.subrange(2064, 2080) =~= le_u128(w.rng_state.word_pos));
    assert(img.subrange(2080, 2088) =~= le_u64(w.current_tick));
    assert(img.subrange(2089, 2112) =~= w._header_pad@);
}

/// A lookup by identifier succeeds exactly when some occupied slot carries
/// the identifier, and then it is the lowest such slot: every occupied slot
/// before it carries another identifier.
pub proof fn law_lookup_finds_lowest_matching_slot(w: WorldState, id: u32)
    requires
        w.active_count <= 64,
    ensures
        w.has_no_slot_with_id(id) <==> !exists|i: int|
            0 <= i < w.active_count && (#[trigger] w.fighters@[i]).id == id,
        forall|i: int|
            #[trigger] w.first_slot_with_id(id, i) <==> {
                &&& 0 <= i < w.active_count
                &&& w.fighters@[i].id == id
                &&& forall|j: int| 0 <= j < i ==> (#[trigger] w.fighters@[j]).id != id
            },
        forall|i: int, k: int|
            #[trigger] w.first_slot_with_id(id, i) && #[trigger] w.first_slot_with_id(id, k) ==> i == k,
{
    assert forall|i: int, k: int|
        #[trigger] w.first_slot_with_id(id, i) && #[trigger] w.first_slot_with_id(id, k) implies i == k by {
        if i < k {
            assert(w.fighters@[i].id != id);
        } else if k < i {
            assert(w.fighters@[k].id != id);
        }
    }
}

} // verus!
