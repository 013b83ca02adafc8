use marl_engine_native::config::{
    encode_id, validate_arena_dto, validate_f32, validate_fighter_dto, ArenaConfigPOD, ArenaDTO,
    ConfigError, FighterAttributesPOD, FighterDTO, Vector2D,
};

fn b(v: f32) -> u32 {
    v.to_bits()
}

fn arena_dto(id: &str, width: f32, height: f32, spawn_margin: f32) -> ArenaDTO {
    ArenaDTO { id: id.to_string(), width: b(width), height: b(height), spawn_margin: b(spawn_margin) }
}

fn fighter_dto(
    id: &str,
    max_health: f32,
    max_stamina: f32,
    move_speed: f32,
    weight: f32,
    cx: f32,
    cy: f32,
) -> FighterDTO {
    FighterDTO {
        id: id.to_string(),
        max_health: b(max_health),
        max_stamina: b(max_stamina),
        move_speed: b(move_speed),
        weight: b(weight),
        collider_size: Vector2D::new(b(cx), b(cy)),
    }
}

#[test]
fn test_invalid_bounds_rejection() {
    let res = validate_arena_dto(&arena_dto("small", 8.0, 20.0, 1.0));
    assert!(matches!(
        res,
        Err(ConfigError::InvalidBounds { parameter: "width", value }) if value == b(8.0)
    ));

    let res = validate_arena_dto(&arena_dto("short", 30.0, 9.0, 1.0));
    assert!(matches!(
        res,
        Err(ConfigError::InvalidBounds { parameter: "height", value }) if value == b(9.0)
    ));

    let res = validate_arena_dto(&arena_dto("margin", 30.0, 20.0, -1.0));
    assert!(matches!(
        res,
        Err(ConfigError::InvalidBounds { parameter: "spawn_margin", value }) if value == b(-1.0)
    ));

    let res = validate_arena_dto(&arena_dto("sub", 1e-40, 20.0, 1.0));
    assert!(matches!(res, Err(ConfigError::SubnormalFloatDetected { parameter: "width" })));

    let res = validate_arena_dto(&arena_dto("nan", f32::NAN, 20.0, 1.0));
    assert!(matches!(res, Err(ConfigError::SubnormalFloatDetected { parameter: "width" })));

    let res = validate_arena_dto(&arena_dto("inf", f32::INFINITY, 20.0, 1.0));
    assert!(matches!(res, Err(ConfigError::SubnormalFloatDetected { parameter: "width" })));

    let res = validate_fighter_dto(&fighter_dto("weak", 0.0, 50.0, 4.0, 1.0, 1.0, 1.0));
    assert!(matches!(
        res,
        Err(ConfigError::InvalidBounds { parameter: "max_health", value }) if value == b(0.0)
    ));

    let res = validate_fighter_dto(&fighter_dto("tired", 100.0, 0.5, 4.0, 1.0, 1.0, 1.0));
    assert!(matches!(
        res,
        Err(ConfigError::InvalidBounds { parameter: "max_stamina", value }) if value == b(0.5)
    ));

    let res = validate_fighter_dto(&fighter_dto("slow", 100.0, 50.0, -0.1, 1.0, 1.0, 1.0));
    assert!(matches!(
        res,
        Err(ConfigError::InvalidBounds { parameter: "move_speed", value }) if value == b(-0.1)
    ));

    let res = validate_fighter_dto(&fighter_dto("feather", 100.0, 50.0, 4.0, 0.05, 1.0, 1.0));
    assert!(matches!(
        res,
        Err(ConfigError::InvalidBounds { parameter: "weight", value }) if value == b(0.05)
    ));

    let res = validate_fighter_dto(&fighter_dto("tiny", 100.0, 50.0, 4.0, 1.0, 0.05, 1.0));
    assert!(matches!(
        res,
        Err(ConfigError::InvalidBounds { parameter: "collider_size.x", value }) if value == b(0.05)
    ));

    let res = validate_fighter_dto(&fighter_dto("tinyy", 100.0, 50.0, 4.0, 1.0, 1.0, 0.04));
    assert!(matches!(
        res,
        Err(ConfigError::InvalidBounds { parameter: "collider_size.y", value }) if value == b(0.04)
    ));

    let long_arena = ArenaDTO { id: "a".repeat(33), width: b(30.0), height: b(20.0), spawn_margin: b(1.0) };
    let res = validate_arena_dto(&long_arena);
    assert!(matches!(res, Err(ConfigError::InvalidSchema)));
}

#[test]
fn valid_records_compile_into_fixed_layout() {
    let arena = validate_arena_dto(&arena_dto("test_arena", 30.0, 20.0, 2.0)).expect("valid arena DTO");
    assert_eq!(f32::from_bits(arena.width), 30.0);
    assert_eq!(f32::from_bits(arena.height), 20.0);
    assert_eq!(f32::from_bits(arena.spawn_margin), 2.0);
    assert_eq!(&arena.id[..10], b"test_arena");
    assert!(arena.id[10..].iter().all(|&x| x == 0));
    assert!(arena._pad.iter().all(|&x| x == 0));

    let fighter = validate_fighter_dto(&fighter_dto("test_fighter", 100.0, 50.0, 4.0, 1.0, 0.8, 1.8))
        .expect("valid fighter DTO");
    assert_eq!(f32::from_bits(fighter.max_health), 100.0);
    assert_eq!(f32::from_bits(fighter.max_stamina), 50.0);
    assert_eq!(f32::from_bits(fighter.move_speed), 4.0);
    assert_eq!(f32::from_bits(fighter.weight), 1.0);
    assert_eq!(fighter.collider_size, Vector2D::new(b(0.8), b(1.8)));
    assert_eq!(&fighter.id[..12], b"test_fighter");
    assert!(fighter._pad.iter().all(|&x| x == 0));
}

#[test]
fn bounds_are_inclusive_and_negative_zero_is_accepted() {
    assert!(validate_arena_dto(&arena_dto("edge", 10.0, 10.0, 1e-3)).is_ok());
    assert!(validate_f32(b(-0.0), "spawn_margin").is_ok());
    assert!(validate_fighter_dto(&fighter_dto("edge", 1.0, 1.0, 0.0, 0.1, 0.1, 0.1)).is_ok());
    assert!(matches!(
        validate_arena_dto(&arena_dto("neg", -30.0, 20.0, 1.0)),
        Err(ConfigError::InvalidBounds { parameter: "width", .. })
    ));
}

#[test]
fn float_class_is_checked_before_bounds() {
    let res = validate_arena_dto(&arena_dto("order", 5.0, f32::NEG_INFINITY, 1.0));
    assert!(matches!(res, Err(ConfigError::SubnormalFloatDetected { parameter: "height" })));
    let res = validate_fighter_dto(&fighter_dto("order", 0.0, 50.0, 4.0, 1.0, 1.0, 1e-39));
    assert!(matches!(res, Err(ConfigError::SubnormalFloatDetected { parameter: "collider_size.y" })));
    let long = "b".repeat(40);
    let res = validate_fighter_dto(&fighter_dto(&long, f32::NAN, 50.0, 4.0, 1.0, 1.0, 1.0));
    assert!(matches!(res, Err(ConfigError::InvalidSchema)));
}

#[test]
fn validate_f32_classes() {
    assert!(validate_f32(b(1.5), "p").is_ok());
    assert!(validate_f32(b(0.0), "p").is_ok());
    assert!(validate_f32(b(-0.0), "p").is_ok());
    assert!(validate_f32(b(-3.0e38), "p").is_ok());
    assert!(validate_f32(b(f32::MIN_POSITIVE), "p").is_ok());
    assert!(matches!(
        validate_f32(f32::from_bits(1).to_bits(), "p"),
        Err(ConfigError::SubnormalFloatDetected { parameter: "p" })
    ));
    assert!(validate_f32(b(f32::NAN), "q").is_err());
    assert!(validate_f32(b(f32::NEG_INFINITY), "q").is_err());
}

#[test]
fn encode_id_pads_and_limits() {
    let buf = encode_id("abc").unwrap();
    assert_eq!(&buf[..3], b"abc");
    assert!(buf[3..].iter().all(|&x| x == 0));
    let full = "x".repeat(32);
    assert_eq!(encode_id(&full).unwrap(), [b'x'; 32]);
    assert!(matches!(encode_id(&"x".repeat(33)), Err(ConfigError::InvalidSchema)));
    let utf = "\u{e9}".repeat(16);
    assert_eq!(&encode_id(&utf).unwrap()[..], utf.as_bytes());
    assert!(matches!(encode_id(&"\u{e9}".repeat(17)), Err(ConfigError::InvalidSchema)));
    assert_eq!(encode_id("").unwrap(), [0u8; 32]);
}

#[test]
fn default_records_are_zero() {
    let a = ArenaConfigPOD::default();
    assert_eq!(a.id, [0u8; 32]);
    assert_eq!((a.width, a.height, a.spawn_margin), (0, 0, 0));
    let f = FighterAttributesPOD::default();
    assert_eq!(f.id, [0u8; 32]);
    assert_eq!(f.collider_size, Vector2D::new(0, 0));
    assert_eq!((f.max_health, f.max_stamina, f.move_speed, f.weight), (0, 0, 0, 0));
}

#[test]
fn json_errors_map_to_invalid_schema() {
    let err = serde_json::from_str::<serde_json::Value>("{").unwrap_err();
    assert!(matches!(ConfigError::from(err), ConfigError::InvalidSchema));
}

#[test]
fn spawn_points_must_lie_strictly_inside_the_arena() {
    let res = validate_arena_dto(&arena_dto("wide", 30.0, 20.0, 40.0));
    assert!(matches!(
        res,
        Err(ConfigError::InvalidBounds { parameter: "spawn_margin", value }) if value == b(40.0)
    ));
    let res = validate_arena_dto(&arena_dto("flush", 30.0, 20.0, 30.0));
    assert!(matches!(res, Err(ConfigError::InvalidBounds { parameter: "spawn_margin", .. })));
    let res = validate_arena_dto(&arena_dto("wall", 30.0, 20.0, 0.0));
    assert!(matches!(
        res,
        Err(ConfigError::InvalidBounds { parameter: "spawn_margin", value }) if value == b(0.0)
    ));
    let res = validate_arena_dto(&arena_dto("negwall", 30.0, 20.0, -0.0));
    assert!(matches!(res, Err(ConfigError::InvalidBounds { parameter: "spawn_margin", .. })));
    assert!(validate_arena_dto(&arena_dto("inside", 30.0, 20.0, 29.9)).is_ok());
}

#[test]
fn io_errors_map_to_config_errors() {
    let missing = std::io::Error::new(std::io::ErrorKind::NotFound, "gone");
    assert!(matches!(ConfigError::from(missing), ConfigError::FileNotFound));
    let denied = std::io::Error::new(std::io::ErrorKind::PermissionDenied, "no");
    assert!(matches!(
        ConfigError::from(denied),
        ConfigError::IoError(std::io::ErrorKind::PermissionDenied)
    ));
}
