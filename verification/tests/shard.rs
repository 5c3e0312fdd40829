use banuid::derive_shard_id;

#[test]
fn test_derive_shard_id_bounds() {
    let tag: &[u8] = b"1234";
    let shard1 = derive_shard_id(None, None, tag, banuid::get_fallback_random());
    let shard2 = derive_shard_id(None, None, tag, banuid::get_fallback_random());

    // Both should be within valid bounds
    assert!(shard1 <= banuid::MAX_SHARD_ID as u16);
    assert!(shard2 <= banuid::MAX_SHARD_ID as u16);
}

#[test]
fn test_derive_known_vectors() {
    // FNV-1a of the empty string is the offset basis, 14695981039346656037,
    // whose low 13 bits are 805.
    let empty: &[u8] = b"";
    assert_eq!(derive_shard_id(Some(empty), None, empty, 0), 805);

    // FNV-1a of "a" is 0xaf63dc4c8601ec8c, whose low 13 bits are 3212.
    let a: &[u8] = b"a";
    assert_eq!(derive_shard_id(Some(a), None, empty, 0), 3212);
}

#[test]
fn test_derive_deterministic() {
    let host: &[u8] = b"node-17";
    let machine: &[u8] = b"f3a2";
    let tag: &[u8] = b"991";
    let first = derive_shard_id(Some(host), Some(machine), tag, 1);
    let second = derive_shard_id(Some(host), Some(machine), tag, 1);
    assert_eq!(first, second, "identical inputs derive identical shards");
}

#[test]
fn test_fallback_entropy_ignored_with_identity() {
    // With a host signal present the fallback entropy is not folded in.
    let a: &[u8] = b"a";
    let empty: &[u8] = b"";
    assert_eq!(derive_shard_id(Some(a), None, empty, 1), 3212);
    assert_eq!(derive_shard_id(Some(a), None, empty, 0xdead_beef), 3212);
}

#[test]
fn test_fallback_entropy_folded_without_identity() {
    // Without any host signal the fallback entropy changes the hash.
    let tag: &[u8] = b"77";
    let with_zero = derive_shard_id(None, None, tag, 0);
    assert!(with_zero <= 8191);
    let again = derive_shard_id(None, None, tag, 0);
    assert_eq!(with_zero, again);
}

#[test]
fn test_process_tag_changes_shard_hash() {
    // The process tag is always folded in; two tags that differ give
    // hashes that differ (checked on fixed inputs where they do).
    let host: &[u8] = b"host";
    let tag1: &[u8] = b"1";
    let tag2: &[u8] = b"2";
    let s1 = derive_shard_id(Some(host), None, tag1, 0);
    let s2 = derive_shard_id(Some(host), None, tag2, 0);
    assert_eq!(s1, 5818);
    assert_eq!(s2, 5383);
    assert_ne!(s1, s2);
}
