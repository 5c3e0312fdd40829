use banuid::IdGenerator;
use banuid::codec::encode;

#[test]
fn test_round_trip_concrete() {
    let t = banuid::CUSTOM_EPOCH + 1000;
    let id = encode(t, 42, 7);
    assert_eq!(id, 8388651015, "exact packed value");
    assert_eq!(IdGenerator::extract_timestamp(id), t);
    assert_eq!(IdGenerator::extract_shard_id(id), 42);
    assert_eq!(IdGenerator::extract_sequence(id), 7);
}

#[test]
fn test_round_trip_extremes() {
    let t = banuid::CUSTOM_EPOCH + banuid::MAX_REL_TIMESTAMP;
    let id = encode(t, 8191, 1023);
    assert_eq!(IdGenerator::extract_timestamp(id), t);
    assert_eq!(IdGenerator::extract_shard_id(id), 8191);
    assert_eq!(IdGenerator::extract_sequence(id), 1023);

    let id0 = encode(banuid::CUSTOM_EPOCH, 0, 0);
    assert_eq!(id0, 0);
    assert_eq!(IdGenerator::extract_timestamp(id0), banuid::CUSTOM_EPOCH);
    assert_eq!(IdGenerator::extract_shard_id(id0), 0);
    assert_eq!(IdGenerator::extract_sequence(id0), 0);
}

#[test]
fn test_shard_masking_exact() {
    assert_eq!(IdGenerator::with_shard_id(10000).shard_id(), 1808);
    assert_eq!(10000u16 & 8191, 1808);
}

#[test]
fn test_sequence_exhaustion_scenario() {
    // 1025 issuing attempts forced into one millisecond: the first 1024
    // use sequences 0 through 1023, the 1025th must wait, and the next
    // millisecond starts again at sequence 0.
    let now = banuid::CUSTOM_EPOCH + 100;
    let mut generator = IdGenerator::with_shard_id(1);
    for expected_seq in 0..1024u16 {
        let issued = generator.next_id_at(now);
        let id = issued.expect("the millisecond is not exhausted yet");
        assert_eq!(IdGenerator::extract_sequence(id), expected_seq);
        assert_eq!(IdGenerator::extract_timestamp(id), now);
    }
    let blocked = generator.next_id_at(now);
    assert!(blocked.is_none(), "the 1025th attempt must observe a wait cycle");

    let id = generator.next_id_at(now + 1).expect("a fresh millisecond issues again");
    assert_eq!(IdGenerator::extract_timestamp(id), now + 1);
    assert_eq!(IdGenerator::extract_sequence(id), 0);
}

#[test]
fn test_reused_millisecond_scenario() {
    // Within a millisecond the generator has already entered, successive
    // ids count the sequence up from 1.
    let now = banuid::CUSTOM_EPOCH + 500;
    let mut generator = IdGenerator::with_shard_id(42);
    let entered = generator.next_id_at(now).expect("first id of the millisecond");
    assert_eq!(IdGenerator::extract_sequence(entered), 0);

    let first = generator.next_id_at(now).expect("same millisecond, second id");
    let second = generator.next_id_at(now).expect("same millisecond, third id");
    assert_eq!(IdGenerator::extract_shard_id(first), 42);
    assert_eq!(IdGenerator::extract_sequence(first), 1);
    assert_eq!(IdGenerator::extract_shard_id(second), 42);
    assert_eq!(IdGenerator::extract_sequence(second), 2);
    assert!(first < second);
}

#[test]
fn test_normalize_timestamp() {
    let in_range = banuid::CUSTOM_EPOCH + 12345;
    assert_eq!(banuid::clock::normalize_timestamp(in_range), in_range);

    let saturated = banuid::clock::normalize_timestamp(u64::MAX);
    assert_eq!(saturated, banuid::CUSTOM_EPOCH + banuid::MAX_REL_TIMESTAMP);

    let degraded = banuid::clock::normalize_timestamp(0);
    assert!(degraded >= banuid::CUSTOM_EPOCH);
    assert!(degraded <= banuid::CUSTOM_EPOCH + (u32::MAX as u64));
}
