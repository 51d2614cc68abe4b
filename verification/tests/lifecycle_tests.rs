use thread_rng::cache::THREAD_RNG_RESEED_THRESHOLD;
use thread_rng::cache::ThreadCache;
use thread_rng::core_gen::Core;
use thread_rng::entropy::CountingEntropy;
use thread_rng::entropy::Error;
use thread_rng::entropy::FailingEntropy;
use thread_rng::entropy::LimitedEntropy;
use thread_rng::thread_rng;

#[test]
fn torn_down_slot_answers_teardown_error() {
    let mut cache = ThreadCache::new(CountingEntropy { next: 0 });
    let mut h = thread_rng();
    let mut buf = vec![7u8; 4];
    assert!(h.try_fill_bytes(&mut cache, &mut buf).is_ok());
    cache.teardown();
    // A late request — say from another thread-local value's destructor —
    // gets the distinguishable teardown error and an untouched buffer.
    let mut late = vec![9u8; 4];
    let e = h.try_fill_bytes(&mut cache, &mut late).unwrap_err();
    assert_eq!(e, Error::ThreadTornDown);
    assert_ne!(e, Error::EntropyUnavailable);
    assert_eq!(late, vec![9u8; 4]);
}

#[test]
fn teardown_before_first_use_also_answers_teardown_error() {
    let mut cache = ThreadCache::new(CountingEntropy { next: 0 });
    cache.teardown();
    let mut h = thread_rng();
    let mut buf = vec![0u8; 4];
    assert_eq!(
        h.try_fill_bytes(&mut cache, &mut buf).unwrap_err(),
        Error::ThreadTornDown
    );
    assert!(!cache.is_initialized());
}

#[test]
fn failed_first_seeding_installs_no_generator() {
    let mut cache = ThreadCache::new(FailingEntropy {});
    assert_eq!(cache.initialize().unwrap_err(), Error::EntropyUnavailable);
    // Setup failed outright: no generator — in particular no zero-seeded
    // one — was installed, and trying again fails the same way.
    assert!(!cache.is_initialized());
    assert_eq!(cache.bytes_since_reseed(), 0);
    assert_eq!(cache.initialize().unwrap_err(), Error::EntropyUnavailable);
    assert!(!cache.is_initialized());
}

#[test]
fn failed_reseed_is_a_generation_error_and_changes_nothing() {
    // Eight bytes of stock: enough for the first seeding, nothing more.
    let mut cache = ThreadCache::new(LimitedEntropy {
        inner: CountingEntropy { next: 0 },
        remaining: 8,
    });
    cache.initialize().unwrap();
    let mut h = thread_rng();
    let mut buf = vec![0u8; THREAD_RNG_RESEED_THRESHOLD as usize];
    h.try_fill_bytes(&mut cache, &mut buf).unwrap();
    assert_eq!(cache.bytes_since_reseed(), THREAD_RNG_RESEED_THRESHOLD);
    // The budget is spent and the source is dry: the next request fails
    // as a generation error, produces nothing, and keeps the state.
    let mut small = vec![0u8; 4];
    let e = h.try_fill_bytes(&mut cache, &mut small).unwrap_err();
    assert_eq!(e, Error::EntropyUnavailable);
    assert_ne!(e, Error::ThreadTornDown);
    assert_eq!(small, vec![0u8; 4]);
    assert_eq!(cache.bytes_since_reseed(), THREAD_RNG_RESEED_THRESHOLD);
    assert!(cache.is_initialized());
}

#[test]
fn initialize_is_idempotent() {
    let mut cache = ThreadCache::new(CountingEntropy { next: 0 });
    cache.initialize().unwrap();
    assert!(cache.is_initialized());
    cache.initialize().unwrap();
    assert_eq!(cache.bytes_since_reseed(), 0);
    // The second initialize did not reseed: output still starts the
    // stream of the first seeding.
    let mut h = thread_rng();
    let v = h.next_u32(&mut cache);
    let mut reference = Core::from_seed(u64::from_le_bytes([0, 1, 2, 3, 4, 5, 6, 7]));
    assert_eq!(v, reference.next_u32());
}

#[test]
fn caches_never_observe_each_other() {
    // Two equally configured caches, driven interleaved, each produce
    // exactly what an isolated cache produces: state is fully disjoint.
    let mut c1 = ThreadCache::new(CountingEntropy { next: 0 });
    let mut c2 = ThreadCache::new(CountingEntropy { next: 0 });
    let mut iso = ThreadCache::new(CountingEntropy { next: 0 });
    let mut h = thread_rng();
    let a1 = h.next_u32(&mut c1);
    let b1 = h.next_u32(&mut c2);
    let a2 = h.next_u64(&mut c1);
    let b2 = h.next_u64(&mut c2);
    let x1 = h.next_u32(&mut iso);
    let x2 = h.next_u64(&mut iso);
    assert_eq!((a1, a2), (x1, x2));
    assert_eq!((b1, b2), (x1, x2));
}

#[test]
fn fallible_and_infallible_fills_agree() {
    let mut cache = ThreadCache::new(CountingEntropy { next: 0 });
    let mut twin = ThreadCache::new(CountingEntropy { next: 0 });
    let mut h = thread_rng();
    let mut a = vec![0u8; 32];
    let mut b = vec![0u8; 32];
    h.fill_bytes(&mut cache, &mut a);
    h.try_fill_bytes(&mut twin, &mut b).unwrap();
    assert_eq!(a, b);
}

#[test]
fn error_descriptions_are_distinct() {
    assert_eq!(
        Error::EntropyUnavailable.describe(),
        "the entropy source could not supply fresh bytes"
    );
    assert_eq!(
        Error::ThreadTornDown.describe(),
        "the thread-local generator slot is being torn down"
    );
    assert_ne!(
        Error::EntropyUnavailable.describe(),
        Error::ThreadTornDown.describe()
    );
}
