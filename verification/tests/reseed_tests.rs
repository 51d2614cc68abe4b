use thread_rng::cache::THREAD_RNG_RESEED_THRESHOLD;
use thread_rng::cache::ThreadCache;
use thread_rng::entropy::CountingEntropy;
use thread_rng::thread_rng;

#[test]
fn one_byte_short_of_threshold_no_reseed() {
    let mut cache = ThreadCache::new(CountingEntropy { next: 0 });
    let mut h = thread_rng();
    let mut buf = vec![0u8; (THREAD_RNG_RESEED_THRESHOLD - 1) as usize];
    h.fill_bytes(&mut cache, &mut buf);
    assert_eq!(cache.bytes_since_reseed(), THREAD_RNG_RESEED_THRESHOLD - 1);
    // Budget not yet spent: the next call continues the same seeding.
    let _ = h.next_u32(&mut cache);
    assert_eq!(cache.bytes_since_reseed(), THREAD_RNG_RESEED_THRESHOLD + 3);
}

#[test]
fn exactly_threshold_reseeds_once() {
    let mut cache = ThreadCache::new(CountingEntropy { next: 0 });
    let mut h = thread_rng();
    let mut buf = vec![0u8; THREAD_RNG_RESEED_THRESHOLD as usize];
    h.fill_bytes(&mut cache, &mut buf);
    assert_eq!(cache.bytes_since_reseed(), THREAD_RNG_RESEED_THRESHOLD);
    // Budget exactly spent: the very next call reseeds, once, before its
    // output; the counter then holds only that call's four bytes.
    let _ = h.next_u32(&mut cache);
    assert_eq!(cache.bytes_since_reseed(), 4);
}

#[test]
fn past_threshold_reseeds_once() {
    let mut cache = ThreadCache::new(CountingEntropy { next: 0 });
    let mut h = thread_rng();
    let mut buf = vec![0u8; (THREAD_RNG_RESEED_THRESHOLD + 1) as usize];
    h.fill_bytes(&mut cache, &mut buf);
    assert_eq!(cache.bytes_since_reseed(), THREAD_RNG_RESEED_THRESHOLD + 1);
    let _ = h.next_u64(&mut cache);
    assert_eq!(cache.bytes_since_reseed(), 8);
}

#[test]
fn reseed_draws_the_next_seed_from_the_source() {
    // Cache a: seeded from counter bytes 0..8, then driven past the budget
    // so that its reseed draws counter bytes 8..16.
    let mut a = ThreadCache::new(CountingEntropy { next: 0 });
    let mut h = thread_rng();
    let mut buf = vec![0u8; THREAD_RNG_RESEED_THRESHOLD as usize];
    h.fill_bytes(&mut a, &mut buf);
    let after_reseed = h.next_u32(&mut a);
    // Cache b: seeded directly from counter bytes 8..16.
    let mut b = ThreadCache::new(CountingEntropy { next: 8 });
    let fresh = h.next_u32(&mut b);
    assert_eq!(after_reseed, fresh);
}
