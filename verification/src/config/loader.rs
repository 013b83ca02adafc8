//! Validation of configuration records into their fixed-layout form.
//!
//! Reading a record from a file is done by the application; this module holds
//! the rules a record must satisfy.
use super::dto::{ArenaDTO, FighterDTO};
use super::error::ConfigError;
use super::pod::{zeros, ArenaConfigPOD, FighterAttributesPOD};
use crate::ieee::{
    bits_is_finite, bits_is_normal, bits_is_zero, bits_lt, is_finite, lemma_reference_constants_finite, is_normal, is_zero, lt,
    ONE_BITS, POINT_ONE_BITS, TEN_BITS, ZERO_BITS,
};
use vstd::prelude::*;
use vstd::utf8::encode_utf8;

verus! {

/// Longest identifier, in UTF-8 bytes, that fits a configuration record.
pub const ID_CAPACITY: usize = 32;

/// The 32-byte identifier field holding `bytes`: the bytes, then zeros.
pub open spec fn encoded_id(bytes: Seq<u8>) -> Seq<u8> {
    bytes + zeros((32 - bytes.len()) as nat)
}

/// The UTF-8 bytes of a string's characters.
pub open spec fn utf8_bytes(chars: Seq<char>) -> Seq<u8> {
    encode_utf8(chars)
}

/// Encodes an identifier into a zero-padded 32-byte field.
///
/// Refused with `InvalidSchema` exactly when its UTF-8 form is longer than 32
/// bytes.
pub fn encode_id(s: &str) -> (r: Result<[u8; 32], ConfigError>)
    ensures
        match r {
            Ok(buf) => utf8_bytes(s@).len() <= 32 && buf@ == encoded_id(utf8_bytes(s@)),
            Err(e) => utf8_bytes(s@).len() > 32 && e is InvalidSchema,
        },
{
    let bytes = s.as_bytes();
    if bytes.len() > ID_CAPACITY {
        return Err(ConfigError::InvalidSchema);
    }
    let mut buf = [0u8; 32];
    let n = bytes.len();
    let mut i: usize = 0;
    while i < n
        invariant
            n == bytes@.len(),
            n <= 32,
            i <= n,
            buf@.len() == 32,
            forall|j: int| 0 <= j < i ==> buf@[j] == bytes@[j],
            forall|j: int| i <= j < 32 ==> buf@[j] == 0u8,
        decreases n - i,
    {
        buf[i] = bytes[i];
        i = i + 1;
    }
    assert(buf@ =~= encoded_id(bytes@));
    Ok(buf)
}

/// A value a configuration may hold: finite, and normal or zero.
pub open spec fn acceptable_float(v: u32) -> bool {
    is_finite(v) && (is_normal(v) || is_zero(v))
}

/// Refuses NaN, infinities and subnormal values, naming the parameter.
pub fn validate_f32(v: u32, name: &'static str) -> (r: Result<(), ConfigError>)
    ensures
        r is Ok <==> acceptable_float(v),
        r matches Err(e) ==> e == (ConfigError::SubnormalFloatDetected { parameter: name }),
{
    if !bits_is_finite(v) {
        return Err(ConfigError::SubnormalFloatDetected { parameter: name });
    }
    if !bits_is_normal(v) && !bits_is_zero(v) {
        return Err(ConfigError::SubnormalFloatDetected { parameter: name });
    }
    Ok(())
}

/// The first rule an arena record breaks, in the order the rules are checked;
/// `None` when it satisfies them all.
pub open spec fn arena_violation(dto: ArenaDTO) -> Option<ConfigError> {
    if utf8_bytes(dto.id@).len() > 32 {
        Some(ConfigError::InvalidSchema)
    } else if !acceptable_float(dto.width) {
        Some(ConfigError::SubnormalFloatDetected { parameter: "width" })
    } else if !acceptable_float(dto.height) {
        Some(ConfigError::SubnormalFloatDetected { parameter: "height" })
    } else if !acceptable_float(dto.spawn_margin) {
        Some(ConfigError::SubnormalFloatDetected { parameter: "spawn_margin" })
    } else if lt(dto.width, TEN_BITS) {
        Some(ConfigError::InvalidBounds { parameter: "width", value: dto.width })
    } else if lt(dto.height, TEN_BITS) {
        Some(ConfigError::InvalidBounds { parameter: "height", value: dto.height })
    } else if lt(dto.spawn_margin, ZERO_BITS) {
        Some(ConfigError::InvalidBounds { parameter: "spawn_margin", value: dto.spawn_margin })
    } else if !lt(ZERO_BITS, dto.spawn_margin) || !lt(dto.spawn_margin, dto.width) {
        Some(ConfigError::InvalidBounds { parameter: "spawn_margin", value: dto.spawn_margin })
    } else {
        None
    }
}

/// The first rule a fighter record breaks, in the order the rules are
/// checked; `None` when it satisfies them all.
pub open spec fn fighter_violation(dto: FighterDTO) -> Option<ConfigError> {
    if utf8_bytes(dto.id@).len() > 32 {
        Some(ConfigError::InvalidSchema)
    } else if !acceptable_float(dto.max_health) {
        Some(ConfigError::SubnormalFloatDetected { parameter: "max_health" })
    } else if !acceptable_float(dto.max_stamina) {
        Some(ConfigError::SubnormalFloatDetected { parameter: "max_stamina" })
    } else if !acceptable_float(dto.move_speed) {
        Some(ConfigError::SubnormalFloatDetected { parameter: "move_speed" })
    } else if !acceptable_float(dto.weight) {
        Some(ConfigError::SubnormalFloatDetected { parameter: "weight" })
    } else if !acceptable_float(dto.collider_size.x) {
        Some(ConfigError::SubnormalFloatDetected { parameter: "collider_size.x" })
    } else if !acceptable_float(dto.collider_size.y) {
        Some(ConfigError::SubnormalFloatDetected { parameter: "collider_size.y" })
    } else if lt(dto.max_health, ONE_BITS) {
        Some(ConfigError::InvalidBounds { parameter: "max_health", value: dto.max_health })
    } else if lt(dto.max_stamina, ONE_BITS) {
        Some(ConfigError::InvalidBounds { parameter: "max_stamina", value: dto.max_stamina })
    } else if lt(dto.move_speed, ZERO_BITS) {
        Some(ConfigError::InvalidBounds { parameter: "move_speed", value: dto.move_speed })
    } else if lt(dto.weight, POINT_ONE_BITS) {
        Some(ConfigError::InvalidBounds { parameter: "weight", value: dto.weight })
    } else if lt(dto.collider_size.x, POINT_ONE_BITS) {
        Some(
            ConfigError::InvalidBounds {
                parameter: "collider_size.x",
                value: dto.collider_size.x,
            },
        )
    } else if lt(dto.collider_size.y, POINT_ONE_BITS) {
        Some(
            ConfigError::InvalidBounds {
                parameter: "collider_size.y",
                value: dto.collider_size.y,
            },
        )
    } else {
        None
    }
}

/// Validates an arena record and compiles it into its fixed-layout form.
///
/// Identifier length, then float classes (width, height, spawn margin), then
/// bounds: width and height at least 10, spawn margin not negative, then
/// spawn containment: the spawn margin lies strictly between 0 and the width,
/// so that both spawn points (at the margin and at the width minus the
/// margin) lie strictly inside the arena.
pub fn validate_arena_dto(dto: &ArenaDTO) -> (r: Result<ArenaConfigPOD, ConfigError>)
    ensures
        match arena_violation(*dto) {
            Some(e) => r == Err::<ArenaConfigPOD, ConfigError>(e),
            None => r matches Ok(pod) && {
                &&& pod.id@ == encoded_id(utf8_bytes(dto.id@))
                &&& pod.width == dto.width
                &&& pod.height == dto.height
                &&& pod.spawn_margin == dto.spawn_margin
                &&& pod._pad@ == zeros(20)
            },
        },
{
    proof {
        lemma_reference_constants_finite();
    }
    let id_bytes = match encode_id(dto.id.as_str()) {
        Ok(b) => b,
        Err(e) => return Err(e),
    };
    if let Err(e) = validate_f32(dto.width, "width") {
        return Err(e);
    }
    if let Err(e) = validate_f32(dto.height, "height") {
        return Err(e);
    }
    if let Err(e) = validate_f32(dto.spawn_margin, "spawn_margin") {
        return Err(e);
    }
    if bits_lt(dto.width, TEN_BITS) {
        return Err(ConfigError::InvalidBounds { parameter: "width", value: dto.width });
    }
    if bits_lt(dto.height, TEN_BITS) {
        return Err(ConfigError::InvalidBounds { parameter: "height", value: dto.height });
    }
    if bits_lt(dto.spawn_margin, ZERO_BITS) {
        return Err(
            ConfigError::InvalidBounds { parameter: "spawn_margin", value: dto.spawn_margin },
        );
    }
    if !bits_lt(ZERO_BITS, dto.spawn_margin) || !bits_lt(dto.spawn_margin, dto.width) {
        return Err(
            ConfigError::InvalidBounds { parameter: "spawn_margin", value: dto.spawn_margin },
        );
    }
    let pad = [0u8; 20];
    assert(pad@ =~= zeros(20));
    Ok(
        ArenaConfigPOD {
            id: id_bytes,
            width: dto.width,
            height: dto.height,
            spawn_margin: dto.spawn_margin,
            _pad: pad,
        },
    )
}

/// Validates a fighter record and compiles it into its fixed-layout form.
///
/// Identifier length, then float classes of every attribute in field order,
/// then bounds: health and stamina at least 1, speed not negative, weight and
/// both collider extents at least 0.1.
pub fn validate_fighter_dto(dto: &FighterDTO) -> (r: Result<FighterAttributesPOD, ConfigError>)
    ensures
        match fighter_violation(*dto) {
            Some(e) => r == Err::<FighterAttributesPOD, ConfigError>(e),
            None => r matches Ok(pod) && {
                &&& pod.id@ == encoded_id(utf8_bytes(dto.id@))
                &&& pod.max_health == dto.max_health
                &&& pod.max_stamina == dto.max_stamina
                &&& pod.move_speed == dto.move_speed
                &&& pod.weight == dto.weight
                &&& pod.collider_size == dto.collider_size
                &&& pod._pad@ == zeros(8)
            },
        },
{
    proof {
        lemma_reference_constants_finite();
    }
    let id_bytes = match encode_id(dto.id.as_str()) {
        Ok(b) => b,
        Err(e) => return Err(e),
    };
    if let Err(e) = validate_f32(dto.max_health, "max_health") {
        return Err(e);
    }
    if let Err(e) = validate_f32(dto.max_stamina, "max_stamina") {
        return Err(e);
    }
    if let Err(e) = validate_f32(dto.move_speed, "move_speed") {
        return Err(e);
    }
    if let Err(e) = validate_f32(dto.weight, "weight") {
        return Err(e);
    }
    if let Err(e) = validate_f32(dto.collider_size.x, "collider_size.x") {
        return Err(e);
    }
    if let Err(e) = validate_f32(dto.collider_size.y, "collider_size.y") {
        return Err(e);
    }
    if bits_lt(dto.max_health, ONE_BITS) {
        return Err(ConfigError::InvalidBounds { parameter: "max_health", value: dto.max_health });
    }
    if bits_lt(dto.max_stamina, ONE_BITS) {
        return Err(
            ConfigError::InvalidBounds { parameter: "max_stamina", value: dto.max_stamina },
        );
    }
    if bits_lt(dto.move_speed, ZERO_BITS) {
        return Err(ConfigError::InvalidBounds { parameter: "move_speed", value: dto.move_speed });
    }
    if bits_lt(dto.weight, POINT_ONE_BITS) {
        return Err(ConfigError::InvalidBounds { parameter: "weight", value: dto.weight });
    }
    if bits_lt(dto.collider_size.x, POINT_ONE_BITS) {
        return Err(
            ConfigError::InvalidBounds {
                parameter: "collider_size.x",
                value: dto.collider_size.x,
            },
        );
    }
    if bits_lt(dto.collider_size.y, POINT_ONE_BITS) {
        return Err(
            ConfigError::InvalidBounds {
                parameter: "collider_size.y",
                value: dto.collider_size.y,
            },
        );
    }
    let pad = [0u8; 8];
    assert(pad@ =~= zeros(8));
    Ok(
        FighterAttributesPOD {
            id: id_bytes,
            max_health: dto.max_health,
            max_stamina: dto.max_stamina,
            move_speed: dto.move_speed,
            weight: dto.weight,
            collider_size: dto.collider_size,
            _pad: pad,
        },
    )
}

/// An accepted arena holds finite values, normal or zero, with width and
/// height at least 10 and a spawn margin strictly between 0 and the width.
pub proof fn law_accepted_arena_within_bounds(dto: ArenaDTO)
    requires
        arena_violation(dto) is None,
    ensures
        utf8_bytes(dto.id@).len() <= 32,
        acceptable_float(dto.width) && !lt(dto.width, TEN_BITS),
        acceptable_float(dto.height) && !lt(dto.height, TEN_BITS),
        acceptable_float(dto.spawn_margin) && lt(ZERO_BITS, dto.spawn_margin),
        lt(dto.spawn_margin, dto.width),
{
}

/// An accepted fighter profile holds finite values, normal or zero, with
/// health and stamina at least 1, a speed that is not negative, and weight
/// and collider extents at least 0.1.
pub proof fn law_accepted_fighter_within_bounds(dto: FighterDTO)
    requires
        fighter_violation(dto) is None,
    ensures
        utf8_bytes(dto.id@).len() <= 32,
        acceptable_float(dto.max_health) && !lt(dto.max_health, ONE_BITS),
        acceptable_float(dto.max_stamina) && !lt(dto.max_stamina, ONE_BITS),
        acceptable_float(dto.move_speed) && !lt(dto.move_speed, ZERO_BITS),
        acceptable_float(dto.weight) && !lt(dto.weight, POINT_ONE_BITS),
        acceptable_float(dto.collider_size.x) && !lt(dto.collider_size.x, POINT_ONE_BITS),
        acceptable_float(dto.collider_size.y) && !lt(dto.collider_size.y, POINT_ONE_BITS),
{
}

/// An arena record is accepted exactly when its identifier fits 32 UTF-8
/// bytes, its three values are finite and normal or zero, width and height
/// are at least 10, and the spawn margin lies strictly between 0 and the
/// width: no other rule refuses a record.
pub proof fn law_arena_accepted_exactly_within_bounds(dto: ArenaDTO)
    ensures
        arena_violation(dto) is None <==> {
            &&& utf8_bytes(dto.id@).len() <= 32
            &&& acceptable_float(dto.width)
            &&& acceptable_float(dto.height)
            &&& acceptable_float(dto.spawn_margin)
            &&& !lt(dto.width, TEN_BITS)
            &&& !lt(dto.height, TEN_BITS)
            &&& lt(ZERO_BITS, dto.spawn_margin)
            &&& lt(dto.spawn_margin, dto.width)
        },
{
}

/// A fighter record is accepted exactly when its identifier fits 32 UTF-8
/// bytes, its six values are finite and normal or zero, health and stamina
/// are at least 1, speed is not negative, and weight and both collider
/// extents are at least 0.1: no other rule refuses a record.
pub proof fn law_fighter_accepted_exactly_within_bounds(dto: FighterDTO)
    ensures
        fighter_violation(dto) is None <==> {
            &&& utf8_bytes(dto.id@).len() <= 32
            &&& acceptable_float(dto.max_health)
            &&& acceptable_float(dto.max_stamina)
            &&& acceptable_float(dto.move_speed)
            &&& acceptable_float(dto.weight)
            &&& acceptable_float(dto.collider_size.x)
            &&& acceptable_float(dto.collider_size.y)
            &&& !lt(dto.max_health, ONE_BITS)
            &&& !lt(dto.max_stamina, ONE_BITS)
            &&& !lt(dto.move_speed, ZERO_BITS)
            &&& !lt(dto.weight, POINT_ONE_BITS)
            &&& !lt(dto.collider_size.x, POINT_ONE_BITS)
            &&& !lt(dto.collider_size.y, POINT_ONE_BITS)
        },
{
}

/// The values a configuration may hold, on bit patterns: the exponent field
/// (bits 23 to 30) is not all ones, so neither an infinity nor a NaN, and
/// where it is zero the pattern is one of the two zeros, never a subnormal.
pub proof fn law_acceptable_float_in_bits(v: u32)
    ensures
        acceptable_float(v) <==> ((v >> 23u32) & 0xFFu32 != 0xFFu32 && ((v >> 23u32) & 0xFFu32
            != 0 || v & 0x7FFF_FFFFu32 == 0)),
{
}

} // verus!
