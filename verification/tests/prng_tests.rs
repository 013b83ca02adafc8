use marl_engine_native::prng::{DeterministicRng, PRNGError, PrngStatePOD};

fn sample_sequence(rng: &mut DeterministicRng, n: usize) -> Vec<u32> {
    (0..n).map(|_| rng.next_u32()).collect()
}

fn draw_in(rng: &mut DeterministicRng, low: f32, high: f32) -> f32 {
    let unit = f32::from_bits(rng.gen_unit_bits()) - 1.0;
    low + unit * (high - low)
}

#[test]
fn test_identical_sequence() {
    let mut a = DeterministicRng::new(0x5EED_CAFE_BABE_1234);
    let mut b = DeterministicRng::new(0x5EED_CAFE_BABE_1234);
    assert_eq!(sample_sequence(&mut a, 16), sample_sequence(&mut b, 16));

    let mut af = DeterministicRng::new(0xDEAD_BEEF_0001);
    let mut bf = DeterministicRng::new(0xDEAD_BEEF_0001);
    for _ in 0..100 {
        let (va, vb) = (draw_in(&mut af, -10.0, 10.0), draw_in(&mut bf, -10.0, 10.0));
        assert_eq!(va.to_bits(), vb.to_bits());
        assert!(va >= -10.0 && va < 10.0);
    }
}

#[test]
fn test_fork_stream_hierarchy() {
    let mut parent = DeterministicRng::new(0xABCDEF_1234567);
    let parent_stream = parent.export_pod().stream_id;
    let child = parent.fork();
    assert_eq!(child.export_pod().stream_id, parent_stream.wrapping_add(1));
    assert_ne!(child.export_pod().word_pos, parent.export_pod().word_pos);
}

#[test]
fn pod_new_keeps_fields() {
    let pod = PrngStatePOD::new(1, 2, 3);
    assert_eq!(pod.seed, 1);
    assert_eq!(pod.stream_id, 2);
    assert_eq!(pod.word_pos, 3);
}

#[test]
fn new_generator_starts_at_stream_zero() {
    let rng = DeterministicRng::new(7);
    assert_eq!(rng.export_pod(), PrngStatePOD::new(7, 0, 0));
}

#[test]
fn draws_advance_the_word_position() {
    let mut rng = DeterministicRng::new(11);
    let _ = rng.next_u32();
    assert_eq!(rng.export_pod().word_pos, 1);
    let _ = rng.next_u64();
    assert_eq!(rng.export_pod().word_pos, 3);
    let _ = rng.gen_unit_bits();
    assert_eq!(rng.export_pod().word_pos, 4);
}

#[test]
fn next_u64_joins_two_words_low_first() {
    let mut a = DeterministicRng::new(99);
    let mut b = DeterministicRng::new(99);
    let lo = a.next_u32() as u64;
    let hi = a.next_u32() as u64;
    assert_eq!(b.next_u64(), lo | (hi << 32));
}

#[test]
fn unit_bits_lie_in_one_to_two() {
    let mut rng = DeterministicRng::new(5);
    for _ in 0..1000 {
        let v = f32::from_bits(rng.gen_unit_bits());
        assert!((1.0..2.0).contains(&v));
    }
}

#[test]
fn restore_from_export_continues_identically() {
    let mut original = DeterministicRng::new(0xFEED_F00D_CAFE_1);
    let mut expected = original.fork();
    for _ in 0..10 {
        let _ = draw_in(&mut expected, 0.0, 1.0);
    }
    let pod = original.export_pod();
    let mut restored = DeterministicRng::from_pod(pod).unwrap();
    assert_eq!(restored.export_pod(), pod);
    for _ in 0..100 {
        assert_eq!(original.next_u32(), restored.next_u32());
    }
    assert_eq!(pod.stream_id, expected.export_pod().stream_id - 1);
}

#[test]
fn restore_at_other_stream_and_position() {
    let pod = PrngStatePOD::new(3, 9, 1234);
    let mut a = DeterministicRng::from_pod(pod).unwrap();
    assert_eq!(a.export_pod(), pod);
    let _ = a.next_u32();
    assert_eq!(a.export_pod().word_pos, 1235);
    let last = DeterministicRng::from_pod(PrngStatePOD::new(3, 9, (1u128 << 68) - 1)).unwrap();
    assert_eq!(last.export_pod().word_pos, (1u128 << 68) - 1);
    let mut other_stream = DeterministicRng::from_pod(PrngStatePOD::new(3, 8, 1234)).unwrap();
    let mut same = DeterministicRng::from_pod(pod).unwrap();
    assert_ne!(same.next_u64(), other_stream.next_u64());
}

#[test]
fn out_of_stream_descriptor_is_refused() {
    let pod = PrngStatePOD::new(3, 9, 1u128 << 68);
    assert!(matches!(DeterministicRng::from_pod(pod), Err(PRNGError::InvalidState)));
    let pod = PrngStatePOD::new(0, 0, u128::MAX);
    assert!(matches!(DeterministicRng::from_pod(pod), Err(PRNGError::InvalidState)));
}

#[test]
fn restored_and_fresh_generators_replay_mixed_calls_alike() {
    let mut a = DeterministicRng::new(0xCAFEBABE_1);
    let _ = a.next_u64();
    let mut b = DeterministicRng::from_pod(a.export_pod()).unwrap();
    for k in 0..50u32 {
        match k % 4 {
            0 => assert_eq!(a.next_u32(), b.next_u32()),
            1 => assert_eq!(a.next_u64(), b.next_u64()),
            2 => assert_eq!(a.gen_unit_bits(), b.gen_unit_bits()),
            _ => assert_eq!(a.fork().export_pod(), b.fork().export_pod()),
        }
        assert_eq!(a.export_pod(), b.export_pod());
    }
}
