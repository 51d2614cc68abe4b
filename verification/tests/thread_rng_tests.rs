use thread_rng::ThreadRng;
use thread_rng::cache::THREAD_RNG_RESEED_THRESHOLD;
use thread_rng::cache::ThreadCache;
use thread_rng::core_gen::Core;
use thread_rng::core_gen::u64_from_le_bytes;
use thread_rng::entropy::CountingEntropy;
use thread_rng::entropy::EntropySource;
use thread_rng::thread_rng;

#[test]
fn test_thread_rng() {
    let mut cache = ThreadCache::new(CountingEntropy { next: 0 });
    let mut r = thread_rng();
    r.next_u32(&mut cache);
    assert_eq!(r.next_u64(&mut cache) % 1, 0);
}

#[test]
fn first_call_seeds_later_calls_reuse() {
    let mut cache = ThreadCache::new(CountingEntropy { next: 0 });
    assert!(!cache.is_initialized());
    let mut h = thread_rng();
    let a = h.next_u32(&mut cache);
    assert!(cache.is_initialized());
    let b = h.next_u32(&mut cache);
    // The first call seeded from the counting source's first eight bytes;
    // the second continued the very same stream.
    let mut reference = Core::from_seed(u64::from_le_bytes([0, 1, 2, 3, 4, 5, 6, 7]));
    assert_eq!(a, reference.next_u32());
    assert_eq!(b, reference.next_u32());
    assert_eq!(cache.bytes_since_reseed(), 8);
}

#[test]
fn default_handle_behaves_like_thread_rng() {
    let mut cache = ThreadCache::new(CountingEntropy { next: 0 });
    let mut twin = ThreadCache::new(CountingEntropy { next: 0 });
    let mut d = ThreadRng::default();
    let mut h = thread_rng();
    assert_eq!(d.next_u32(&mut cache), h.next_u32(&mut twin));
}

#[test]
fn two_handles_one_consistent_stream() {
    let mut cache = ThreadCache::new(CountingEntropy { next: 0 });
    let mut twin = ThreadCache::new(CountingEntropy { next: 0 });
    let mut h1 = thread_rng();
    let mut h2 = thread_rng();
    let a = h1.next_u32(&mut cache);
    let b = h2.next_u32(&mut cache);
    // Interleaving two handles yields the same bytes as one request stream.
    let mut buf = vec![0u8; 8];
    let mut ht = thread_rng();
    ht.fill_bytes(&mut twin, &mut buf);
    assert_eq!(a, u32::from_le_bytes([buf[0], buf[1], buf[2], buf[3]]));
    assert_eq!(b, u32::from_le_bytes([buf[4], buf[5], buf[6], buf[7]]));
}

#[test]
fn word_word_fill_well_under_threshold() {
    let mut cache = ThreadCache::new(CountingEntropy { next: 0 });
    let mut h = thread_rng();
    let w32 = h.next_u32(&mut cache);
    let w64 = h.next_u64(&mut cache);
    let mut buf = vec![0u8; 16];
    h.fill_bytes(&mut cache, &mut buf);
    // All three calls served, 28 bytes in total, well under the budget:
    // the counter shows no reseed happened.
    assert!(28 < THREAD_RNG_RESEED_THRESHOLD);
    assert_eq!(cache.bytes_since_reseed(), 28);
    // The three answers are one contiguous 28-byte stream.
    let mut twin = ThreadCache::new(CountingEntropy { next: 0 });
    let mut all = vec![0u8; 28];
    h.fill_bytes(&mut twin, &mut all);
    assert_eq!(w32, u32::from_le_bytes([all[0], all[1], all[2], all[3]]));
    let mut mid = [0u8; 8];
    mid.copy_from_slice(&all[4..12]);
    assert_eq!(w64, u64::from_le_bytes(mid));
    assert_eq!(&all[12..28], &buf[..]);
}

#[test]
fn core_exact_values() {
    // With seed 5 and small counters the mixing shifts contribute nothing,
    // so the bytes are 5 ^ 0, 5 ^ 1, 5 ^ 2, ...
    let mut c = Core::from_seed(5);
    assert_eq!(c.next_byte(), 5);
    assert_eq!(c.next_byte(), 4);
    let mut c2 = Core::from_seed(5);
    assert_eq!(c2.next_u32(), 0x0607_0405);
    assert_eq!(c2.next_u32(), 0x0203_0001);
    let mut c3 = Core::from_seed(5);
    assert_eq!(c3.next_u64(), 0x0203_0001_0607_0405);
}

#[test]
fn le_u64_exact_values() {
    assert_eq!(u64_from_le_bytes(&vec![1, 0, 0, 0, 0, 0, 0, 0]), 1);
    assert_eq!(
        u64_from_le_bytes(&vec![0, 1, 2, 3, 4, 5, 6, 7]),
        0x0706_0504_0302_0100
    );
}

#[test]
fn counting_entropy_wraps_per_byte() {
    let mut src = CountingEntropy { next: 250 };
    let mut buf = vec![0u8; 10];
    src.try_fill_bytes(&mut buf).unwrap();
    assert_eq!(buf, vec![250, 251, 252, 253, 254, 255, 0, 1, 2, 3]);
    assert_eq!(src.next, 260);
}
