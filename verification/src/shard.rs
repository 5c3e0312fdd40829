//! Best-effort shard-id derivation: a non-cryptographic FNV-1a hash folded
//! over whatever identity signals the caller could gather — a hostname, a
//! machine-id, a process tag — reduced to the 13-bit shard range. The
//! derivation itself is pure; gathering the signals is the caller's work.

use vstd::prelude::*;
use crate::codec::MAX_SHARD_ID;

verus! {

/// The FNV-1a 64-bit offset basis.
pub const FNV_OFFSET_BASIS: u64 = 14695981039346656037;

/// The FNV-1a 64-bit prime.
pub const FNV_PRIME: u64 = 1099511628211;

/// One FNV-1a step: fold a byte in by xor, then multiply by the prime,
/// wrapping on overflow.
pub open spec fn fnv_step(h: u64, b: u8) -> u64 {
    vstd::wrapping::u64_specs::wrapping_mul(h ^ (b as u64), FNV_PRIME)
}

/// FNV-1a folded over a byte sequence, starting from `h`.
pub open spec fn fnv_fold(h: u64, bytes: Seq<u8>) -> u64
    decreases bytes.len(),
{
    if bytes.len() == 0 {
        h
    } else {
        fnv_fold(fnv_step(h, bytes.first()), bytes.drop_first())
    }
}

/// The four little-endian bytes of a 32-bit word.
pub open spec fn le_bytes_of(x: u32) -> Seq<u8> {
    seq![
        ((x & 0xff) as u8),
        (((x >> 8) & 0xff) as u8),
        (((x >> 16) & 0xff) as u8),
        (((x >> 24) & 0xff) as u8),
    ]
}

/// The byte sequences behind optional borrowed byte strings.
pub open spec fn opt_bytes_view(o: Option<&[u8]>) -> Option<Seq<u8>> {
    match o {
        Some(b) => Some(b@),
        None => None,
    }
}

/// The hash the shard deriver builds: FNV-1a over the identity signals in
/// order — the hostname if present, the machine id if present, the process
/// tag always — and, where neither host signal is present, additionally
/// over the four little-endian bytes of the fallback entropy word.
pub open spec fn derived_hash(
    hostname: Option<Seq<u8>>,
    machine_id: Option<Seq<u8>>,
    process_tag: Seq<u8>,
    fallback: u32,
) -> u64 {
    let h1 = match hostname {
        Some(b) => fnv_fold(FNV_OFFSET_BASIS, b),
        None => FNV_OFFSET_BASIS,
    };
    let h2 = match machine_id {
        Some(b) => fnv_fold(h1, b),
        None => h1,
    };
    let h3 = fnv_fold(h2, process_tag);
    if hostname is None && machine_id is None {
        fnv_fold(h3, le_bytes_of(fallback))
    } else {
        h3
    }
}

/// The derived shard id: the hash reduced to the 13-bit shard range.
pub open spec fn derived_shard(
    hostname: Option<Seq<u8>>,
    machine_id: Option<Seq<u8>>,
    process_tag: Seq<u8>,
    fallback: u32,
) -> u64 {
    derived_hash(hostname, machine_id, process_tag, fallback) % 8192
}

/// FNV-1a over a byte string, starting from `start`.
pub fn fnv_fold_bytes(start: u64, bytes: &[u8]) -> (h: u64)
    ensures
        h == fnv_fold(start, bytes@),
{
    let mut h = start;
    let n = bytes.len();
    let mut i: usize = 0;
    proof {
        assert(bytes@.skip(0) =~= bytes@);
    }
    while i < n
        invariant
            i <= n,
            n == bytes@.len(),
            fnv_fold(start, bytes@) == fnv_fold(h, bytes@.skip(i as int)),
        decreases n - i,
    {
        let b = bytes[i];
        proof {
            assert(bytes@.skip(i as int).first() == bytes@[i as int]);
            assert(bytes@.skip(i as int).drop_first() =~= bytes@.skip(i as int + 1));
        }
        h = (h ^ (b as u64)).wrapping_mul(FNV_PRIME);
        i = i + 1;
    }
    proof {
        assert(bytes@.skip(n as int) =~= Seq::<u8>::empty());
    }
    h
}

/// Derives a shard id from whatever identity signals are at hand. The
/// result is deterministic in its inputs and always within the 13-bit
/// shard range; uniqueness across hosts is best effort only. The fallback
/// entropy word is folded in only where neither host signal is present.
pub fn derive_shard_id(
    hostname: Option<&[u8]>,
    machine_id: Option<&[u8]>,
    process_tag: &[u8],
    fallback_entropy: u32,
) -> (shard: u16)
    ensures
        shard as u64 == derived_shard(
            opt_bytes_view(hostname),
            opt_bytes_view(machine_id),
            process_tag@,
            fallback_entropy,
        ),
        shard as u64 <= MAX_SHARD_ID,
{
    let mut hash: u64 = FNV_OFFSET_BASIS;
    let mut has_identifier = false;
    match hostname {
        Some(b) => {
            hash = fnv_fold_bytes(hash, b);
            has_identifier = true;
        },
        None => {},
    }
    match machine_id {
        Some(b) => {
            hash = fnv_fold_bytes(hash, b);
            has_identifier = true;
        },
        None => {},
    }
    hash = fnv_fold_bytes(hash, process_tag);
    if !has_identifier {
        proof {
            assert(fallback_entropy & 0xff < 256 && (fallback_entropy >> 8) & 0xff < 256
                && (fallback_entropy >> 16) & 0xff < 256 && (fallback_entropy >> 24) & 0xff < 256)
                by (bit_vector);
        }
        let mut entropy_bytes: Vec<u8> = Vec::new();
        entropy_bytes.push((fallback_entropy & 0xff) as u8);
        entropy_bytes.push(((fallback_entropy >> 8) & 0xff) as u8);
        entropy_bytes.push(((fallback_entropy >> 16) & 0xff) as u8);
        entropy_bytes.push(((fallback_entropy >> 24) & 0xff) as u8);
        proof {
            assert(entropy_bytes@ =~= le_bytes_of(fallback_entropy));
        }
        hash = fnv_fold_bytes(hash, entropy_bytes.as_slice());
    }
    (hash % 8192) as u16
}

} // verus!
