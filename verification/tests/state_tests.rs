use marl_engine_native::config::{Vector2D, MAX_SIMULTANEOUS_ENTITIES};
use marl_engine_native::state::{canonicalize_zero, FighterState, StateError, WorldState};

fn b(v: f32) -> u32 {
    v.to_bits()
}

fn two_fighter_world(tick: u64) -> WorldState {
    let mut state = WorldState::new();
    state.active_count = 2;
    state.fighters[0].set_position(b(10.0), b(5.0));
    state.fighters[0].set_velocity(b(1.0), b(0.0));
    state.fighters[0].set_health(b(100.0));
    state.fighters[0].set_stamina(b(50.0));
    state.fighters[0].id = 1;
    state.fighters[0].team_id = 0;
    state.fighters[0].facing_right = true;

    state.fighters[1].set_position(b(20.0), b(5.0));
    state.fighters[1].set_velocity(b(-1.0), b(0.0));
    state.fighters[1].set_health(b(80.0));
    state.fighters[1].set_stamina(b(40.0));
    state.fighters[1].id = 2;
    state.fighters[1].team_id = 1;
    state.fighters[1].facing_right = false;
    state.current_tick = tick;
    state
}

#[test]
fn test_setters_canonicalize_zero() {
    let mut fighter = FighterState::default();
    fighter.set_velocity(b(-0.0), b(-0.0));
    fighter.set_position(b(-0.0), b(0.0));
    fighter.set_health(b(-0.0));
    fighter.set_stamina(b(-0.0));

    assert_eq!(fighter.velocity.x, 0x0000_0000);
    assert_eq!(fighter.velocity.y, 0x0000_0000);
    assert_eq!(fighter.position.x, 0x0000_0000);
    assert_eq!(fighter.position.y, 0x0000_0000);
    assert_eq!(fighter.health, 0x0000_0000);
    assert_eq!(fighter.stamina, 0x0000_0000);
}

#[test]
fn test_state_hash_consistency() {
    let state_a = two_fighter_world(42);
    let state_b = two_fighter_world(42);
    assert_eq!(state_a.compute_hash(), state_b.compute_hash());
}

#[test]
fn hash_depends_on_the_tick() {
    assert_ne!(two_fighter_world(42).compute_hash(), two_fighter_world(43).compute_hash());
}

#[test]
fn test_negative_zero_hash_invariance() {
    let mut state_pos = WorldState::new();
    state_pos.active_count = 1;
    state_pos.fighters[0].set_position(b(0.0), b(0.0));
    state_pos.fighters[0].set_velocity(b(0.0), b(0.0));
    state_pos.fighters[0].set_health(b(100.0));
    state_pos.fighters[0].set_stamina(b(50.0));
    state_pos.fighters[0].id = 1;
    state_pos.fighters[0].team_id = 0;
    state_pos.fighters[0].facing_right = true;

    let mut state_neg = WorldState::new();
    state_neg.active_count = 1;
    state_neg.fighters[0] = FighterState {
        position: Vector2D::new(0x8000_0000, 0x8000_0000),
        velocity: Vector2D::new(0x8000_0000, 0x8000_0000),
        health: b(100.0),
        stamina: b(50.0),
        id: 1,
        team_id: 0,
        facing_right: true,
        _pad: [0; 2],
    };

    assert_ne!(state_pos.compute_hash(), state_neg.compute_hash());

    state_neg.canonicalize_all();
    assert_eq!(state_pos.compute_hash(), state_neg.compute_hash());
}

#[test]
fn canonicalize_all_leaves_inactive_slots() {
    let mut state = WorldState::new();
    state.active_count = 1;
    state.fighters[0].position = Vector2D::new(0x8000_0000, b(3.0));
    state.fighters[1].position = Vector2D::new(0x8000_0000, 0x8000_0000);
    state.canonicalize_all();
    assert_eq!((state.fighters[0].position.x, state.fighters[0].position.y), (0, b(3.0)));
    assert_eq!((state.fighters[1].position.x, state.fighters[1].position.y), (0x8000_0000, 0x8000_0000));
}

#[test]
fn test_entity_not_found() {
    let mut state = WorldState::new();
    state.active_count = 1;
    state.fighters[0].id = 5;

    assert!(state.get_fighter(5).is_ok());
    assert!(matches!(state.get_fighter(99), Err(StateError::EntityNotFound(99))));
}

#[test]
fn lookup_only_searches_occupied_slots() {
    let mut state = WorldState::new();
    state.active_count = 2;
    state.fighters[0].id = 7;
    state.fighters[1].id = 7;
    state.fighters[1].team_id = 1;
    state.fighters[2].id = 9;
    assert_eq!(state.get_fighter(7).unwrap().team_id, 0);
    assert!(matches!(state.get_fighter(9), Err(StateError::EntityNotFound(9))));

    state.get_fighter_mut(7).unwrap().set_health(b(12.0));
    assert_eq!(state.fighters[0].health, b(12.0));
    assert_eq!(state.fighters[1].health, 0);
    assert!(matches!(state.get_fighter_mut(9), Err(StateError::EntityNotFound(9))));
}

#[test]
fn test_reset_zeroes_inactive_slots() {
    let mut state = WorldState::new();
    state.active_count = 5;
    state.fighters[4].id = 999;
    state.rng_state.seed = 12345;
    state.current_tick = 100;

    state.reset();

    assert_eq!(state.active_count, 0);
    assert_eq!(state.current_tick, 0);
    assert_eq!(state.rng_state.seed, 0);
    let bytes = state.as_bytes();
    for i in 0..MAX_SIMULTANEOUS_ENTITIES {
        let fighter_bytes = &bytes[i * 32..(i + 1) * 32];
        assert!(fighter_bytes.iter().all(|&x| x == 0));
    }
}

#[test]
fn byte_image_layout() {
    let mut state = WorldState::new();
    state.fighters[1].position = Vector2D::new(0x0403_0201, 0);
    state.fighters[1].team_id = 7;
    state.fighters[1].facing_right = true;
    state.rng_state.seed = 0x1122_3344_5566_7788;
    state.rng_state.word_pos = 0x0102_0304_0506_0708_090A_0B0C_0D0E_0F10;
    state.current_tick = 3;
    state.active_count = 9;
    let bytes = state.as_bytes();
    assert_eq!(bytes.len(), 2112);
    assert_eq!(&bytes[32..36], &[1, 2, 3, 4]);
    assert_eq!(bytes[32 + 28], 7);
    assert_eq!(bytes[32 + 29], 1);
    assert_eq!(&bytes[2048..2056], &0x1122_3344_5566_7788u64.to_le_bytes());
    assert_eq!(&bytes[2064..2080], &0x0102_0304_0506_0708_090A_0B0C_0D0E_0F10u128.to_le_bytes());
    assert_eq!(&bytes[2080..2088], &3u64.to_le_bytes());
    assert_eq!(bytes[2088], 9);
    assert!(bytes[2089..].iter().all(|&x| x == 0));
}

#[test]
fn canonicalize_zero_only_changes_negative_zero() {
    assert_eq!(canonicalize_zero(0x8000_0000), 0);
    assert_eq!(canonicalize_zero(0), 0);
    assert_eq!(canonicalize_zero(b(-1.0)), b(-1.0));
    assert_eq!(canonicalize_zero(0x8000_0001), 0x8000_0001);
    assert_eq!(canonicalize_zero(b(f32::NAN)), b(f32::NAN));
}

#[test]
fn equality_compares_floats_as_numbers() {
    assert_eq!(Vector2D::new(0x8000_0000, b(1.0)), Vector2D::new(0, b(1.0)));
    assert_ne!(Vector2D::new(b(f32::NAN), 0), Vector2D::new(b(f32::NAN), 0));
    let mut a = FighterState::default();
    let mut c = FighterState::default();
    a.health = 0x8000_0000;
    assert_eq!(a, c);
    c.id = 3;
    assert_ne!(a, c);
    let w1 = two_fighter_world(1);
    let mut w2 = two_fighter_world(1);
    assert_eq!(w1, w2);
    w2.fighters[1].velocity.y = 0x8000_0000;
    assert_eq!(w1, w2);
    w2._header_pad[3] = 1;
    assert_ne!(w1, w2);
}
