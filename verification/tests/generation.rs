use banuid::IdGenerator;

#[test]
fn test_id_generation() {
    let mut generator = IdGenerator::with_shard_id(42);
    let id1 = generator.next_id();
    let id2 = generator.next_id();

    assert_ne!(id1, id2, "IDs should be unique");
    assert!(id1 < id2 || id1 > id2, "IDs should be orderable");
}

#[test]
fn test_extract_timestamp() {
    let mut generator = IdGenerator::with_shard_id(1);
    let id = generator.next_id();
    let extracted = IdGenerator::extract_timestamp(id);
    let now = match std::time::SystemTime::now().duration_since(std::time::UNIX_EPOCH) {
        Ok(d) => d.as_millis() as u64,
        Err(_) => 0,
    };

    assert!(
        extracted <= now && extracted >= now - 1000,
        "Extracted timestamp should be recent"
    );
}

#[test]
fn test_extract_shard_id() {
    let shard_id: u16 = 42;
    let mut generator = IdGenerator::with_shard_id(shard_id);
    let id = generator.next_id();
    let extracted = IdGenerator::extract_shard_id(id);

    assert_eq!(extracted, shard_id, "Shard ID should match");
}

#[test]
fn test_shard_id_bounds() {
    let generator = IdGenerator::with_shard_id(8191); // Max 13-bit value
    assert_eq!(generator.shard_id(), 8191);

    let generator2 = IdGenerator::with_shard_id(10000); // Overflow
    assert_eq!(generator2.shard_id(), 10000 & (banuid::MAX_SHARD_ID as u16));
}

#[test]
fn test_auto_derived_shard() {
    let mut generator = IdGenerator::new();
    let id = generator.next_id();
    let extracted_shard = IdGenerator::extract_shard_id(id);

    assert_eq!(extracted_shard, generator.shard_id());
    assert!(extracted_shard <= 8191);
}

#[test]
fn test_fallback_random() {
    let random1 = banuid::get_fallback_random();
    let random2 = banuid::get_fallback_random();

    // Should produce some variation (not guaranteed, but highly likely)
    assert!(
        random1 != 0 || random2 != 0,
        "At least one value should be non-zero"
    );
}

#[test]
fn test_ergonomic_api() {
    // Test free functions, against an explicitly owned default generator
    let mut default_generator = IdGenerator::new();
    let id1 = banuid::generate(&mut default_generator);
    let id2 = banuid::generate(&mut default_generator);
    assert_ne!(id1, id2, "Generated IDs should be unique");

    // Test parsing functions
    let timestamp = banuid::parse_timestamp(id1);
    let shard_id = banuid::parse_shard_id(id1);
    let sequence = banuid::parse_sequence(id1);

    // Test instance methods
    let mut generator = IdGenerator::with_shard_id(123);
    let id3 = generator.generate();
    assert_ne!(id3, 0, "Generated ID should be non-zero");

    // Test associated functions (static methods)
    let timestamp2 = IdGenerator::parse_timestamp(id3);
    let shard_id2 = IdGenerator::parse_shard_id(id3);
    let sequence2 = IdGenerator::parse_sequence(id3);

    // Verify consistency between old and new methods
    assert_eq!(timestamp, IdGenerator::extract_timestamp(id1));
    assert_eq!(shard_id, IdGenerator::extract_shard_id(id1));
    assert_eq!(sequence, IdGenerator::extract_sequence(id1));

    assert_eq!(timestamp2, IdGenerator::extract_timestamp(id3));
    assert_eq!(shard_id2, IdGenerator::extract_shard_id(id3));
    assert_eq!(sequence2, IdGenerator::extract_sequence(id3));
}

#[test]
fn test_sequential_ids_strictly_increase() {
    let mut generator = IdGenerator::with_shard_id(7);
    let mut previous = generator.next_id();
    for _ in 0..100 {
        let id = generator.next_id();
        assert!(id > previous, "consecutive IDs must strictly increase");
        previous = id;
    }
}

#[test]
fn test_many_ids_unique() {
    let mut generator = IdGenerator::with_shard_id(3);
    let mut seen = std::collections::HashSet::new();
    for _ in 0..1000 {
        let id = generator.next_id();
        assert!(seen.insert(id), "no ID may repeat");
    }
    assert_eq!(seen.len(), 1000);
}
