//! The per-thread cache slot and its lifecycle.
//!
//! A [`ThreadCache`] is the one piece of state behind a [`crate::ThreadRng`]
//! handle.  The surrounding program keeps exactly one cache per thread (in
//! thread-local storage); the cache itself knows nothing of threads — it is
//! an owned value, so two caches can never observe each other's state, and
//! Rust's borrow rules make every request on a cache exclusive and
//! non-reentrant.
//!
//! The slot walks a one-way lifecycle:
//!
//! * *vacant* — the thread has not asked for output yet; the slot holds
//!   only the entropy source it will seed from;
//! * *active* — first use seeded a [`Core`] from the source and wrapped it
//!   with the reseed budget; the wrapper now lives for the rest of the
//!   thread;
//! * *torn down* — the thread is exiting and the slot's destructor has run.
//!   A late request (say, from another thread-local value's destructor)
//!   is answered with [`Error::ThreadTornDown`] on the fallible path,
//!   never with stale or unsafe state.
//!
//! Seeding failure on first use is not recoverable: `initialize` reports
//! it, installs nothing — in particular no zero-seeded generator — and the
//! host is expected to abort the thread's setup, since a thread without a
//! working entropy source cannot serve the infallible paths safely.

use vstd::prelude::*;
use crate::core_gen::Core;
use crate::core_gen::u32_of;
use crate::core_gen::u64_of;
use crate::core_gen::u64_from_le_bytes;
use crate::entropy::EntropySource;
use crate::entropy::Error;
use crate::reseeding::ReseedingRng;
use crate::reseeding::RngState;
use crate::reseeding::needs_reseed;
use crate::reseeding::output_of;
use crate::reseeding::serving_core;
use crate::reseeding::state_after;

verus! {

/// Number of generated bytes after which the cached generator reseeds.
///
/// The budget is a fixed property of every thread cache, shared by value;
/// it is not configurable per instance.
pub const THREAD_RNG_RESEED_THRESHOLD: u64 = 1024 * 64;

/// The state a freshly seeded thread cache's wrapper starts in.
pub open spec fn fresh_state(seed: u64) -> RngState {
    RngState {
        core: Core { key: seed, ctr: 0 },
        threshold: THREAD_RNG_RESEED_THRESHOLD,
        bytes_since_reseed: 0,
    }
}

enum Slot<E: EntropySource> {
    Vacant { source: E },
    Active { rng: ReseedingRng<E> },
    TornDown,
}

/// The per-thread slot: one lazily created reseeding generator.
pub struct ThreadCache<E: EntropySource> {
    slot: Slot<E>,
}

/// Where in its lifecycle a thread cache's slot stands.  A slot is always
/// in exactly one phase.
#[derive(Clone, Copy, PartialEq, Eq, Structural, Debug)]
pub enum SlotPhase {
    /// Not yet used: the first request will seed a generator.
    Vacant,
    /// A live generator serves requests.
    Active,
    /// Thread teardown has destroyed the slot.
    TornDown,
}

impl<E: EntropySource> ThreadCache<E> {
    /// The lifecycle phase the slot is in.
    pub closed spec fn phase(&self) -> SlotPhase {
        match self.slot {
            Slot::Vacant { .. } => SlotPhase::Vacant,
            Slot::Active { .. } => SlotPhase::Active,
            Slot::TornDown => SlotPhase::TornDown,
        }
    }

    /// The slot has not been used yet.
    pub open spec fn is_vacant(&self) -> bool {
        self.phase() is Vacant
    }

    /// The slot holds a live generator.
    pub open spec fn is_active(&self) -> bool {
        self.phase() is Active
    }

    /// The slot has been destroyed by thread teardown.
    pub open spec fn is_torn_down(&self) -> bool {
        self.phase() is TornDown
    }

    /// The policy state of the live generator (meaningful when active).
    pub closed spec fn rng_state(&self) -> RngState {
        match self.slot {
            Slot::Active { rng } => rng@,
            _ => RngState {
                core: Core { key: 0, ctr: 0 },
                threshold: 0,
                bytes_since_reseed: 0,
            },
        }
    }

    /// Whether the entropy the slot would draw on next is promised to be
    /// available: the held source's promise while vacant, the wrapper's
    /// reseeder's promise while active, and nothing once torn down.
    pub closed spec fn entropy_reliable(&self) -> bool {
        match self.slot {
            Slot::Vacant { source } => source.reliable(),
            Slot::Active { rng } => rng.reseeder().reliable(),
            Slot::TornDown => false,
        }
    }

    /// When the infallible generation paths may be used: the thread is not
    /// tearing the slot down, and whatever seeding or reseeding the request
    /// will trigger is promised to succeed.
    pub open spec fn infallible_pre(&self) -> bool {
        &&& !self.is_torn_down()
        &&& self.is_vacant() ==> self.entropy_reliable()
        &&& self.is_active() ==> !needs_reseed(self.rng_state()) || self.entropy_reliable()
    }

    /// A new, still-empty slot holding the source it will seed from.
    pub fn new(source: E) -> (r: Self)
        ensures
            r.is_vacant(),
            r.entropy_reliable() == source.reliable(),
    {
        ThreadCache { slot: Slot::Vacant { source } }
    }

    /// Create the thread's generator if this is the first use of the slot.
    ///
    /// First use seeds a core from the entropy source and wraps it with the
    /// reseed budget; once the slot is active the call changes nothing, so
    /// every later call reuses the same underlying state.  A failed first
    /// seeding installs nothing and is reported; a torn-down slot is
    /// reported as such.
    pub fn initialize(&mut self) -> (r: Result<(), Error>)
        ensures
            old(self).is_active() ==> r is Ok && *final(self) == *old(self),
            old(self).is_torn_down() ==> r == Err::<(), Error>(Error::ThreadTornDown)
                && *final(self) == *old(self),
            old(self).is_vacant() && old(self).entropy_reliable() ==> r is Ok,
            old(self).is_vacant() && r is Ok ==> final(self).is_active()
                && final(self).rng_state() == fresh_state(final(self).rng_state().core.key),
            old(self).is_vacant() ==> (r matches Err(e) ==> e is EntropyUnavailable
                && final(self).is_vacant()),
            old(self).entropy_reliable() && !old(self).is_torn_down()
                ==> final(self).entropy_reliable(),
    {
        match &self.slot {
            Slot::Active { .. } => Ok(()),
            Slot::TornDown => Err(Error::ThreadTornDown),
            Slot::Vacant { .. } => {
                let mut taken = Slot::TornDown;
                core::mem::swap(&mut self.slot, &mut taken);
                match taken {
                    Slot::Vacant { mut source } => {
                        let mut buf: Vec<u8> = vec![0u8; 8];
                        match source.try_fill_bytes(&mut buf) {
                            Ok(()) => {
                                let key = u64_from_le_bytes(&buf);
                                let rng = ReseedingRng::new(
                                    Core::from_seed(key),
                                    THREAD_RNG_RESEED_THRESHOLD,
                                    source,
                                );
                                self.slot = Slot::Active { rng };
                                Ok(())
                            },
                            Err(e) => {
                                self.slot = Slot::Vacant { source };
                                Err(e)
                            },
                        }
                    },
                    _ => vstd::pervasive::unreached(),
                }
            },
        }
    }

    /// Destroy the slot: the model of the host running the thread-local
    /// destructor at thread exit.  From here on only the fallible path
    /// answers, and only with [`Error::ThreadTornDown`].
    pub fn teardown(&mut self)
        ensures
            final(self).is_torn_down(),
    {
        self.slot = Slot::TornDown;
    }

    /// Produce the next 32-bit word, seeding the slot first if this is the
    /// thread's first request.
    ///
    /// Infallible path: not for use during thread teardown, and it demands
    /// that any seeding or reseeding it triggers cannot fail.
    pub fn next_u32(&mut self) -> (r: u32)
        requires
            old(self).infallible_pre(),
        ensures
            final(self).is_active(),
            old(self).entropy_reliable() ==> final(self).entropy_reliable(),
            old(self).is_active() ==> exists|fresh: u64|
                final(self).rng_state() == #[trigger] state_after(old(self).rng_state(), 4, fresh)
                    && r == u32_of(serving_core(old(self).rng_state(), fresh)),
            old(self).is_active() && !needs_reseed(old(self).rng_state())
                ==> final(self).rng_state() == state_after(old(self).rng_state(), 4, 0)
                    && r == u32_of(old(self).rng_state().core),
            old(self).is_vacant() ==> exists|seed: u64|
                final(self).rng_state() == #[trigger] state_after(fresh_state(seed), 4, 0)
                    && r == u32_of(Core { key: seed, ctr: 0 }),
    {
        let ghost pre = *self;
        match self.initialize() {
            Ok(()) => {
                let ghost seed = self.rng_state().core.key;
                match &mut self.slot {
                    Slot::Active { rng } => {
                        let r = rng.next_u32();
                        proof {
                            if pre.is_vacant() {
                                assert(self.rng_state() == state_after(fresh_state(seed), 4, 0));
                            }
                        }
                        r
                    },
                    _ => vstd::pervasive::unreached(),
                }
            },
            Err(_) => vstd::pervasive::unreached(),
        }
    }

    /// Produce the next 64-bit word, seeding the slot first if this is the
    /// thread's first request.
    ///
    /// Infallible path: not for use during thread teardown, and it demands
    /// that any seeding or reseeding it triggers cannot fail.
    pub fn next_u64(&mut self) -> (r: u64)
        requires
            old(self).infallible_pre(),
        ensures
            final(self).is_active(),
            old(self).entropy_reliable() ==> final(self).entropy_reliable(),
            old(self).is_active() ==> exists|fresh: u64|
                final(self).rng_state() == #[trigger] state_after(old(self).rng_state(), 8, fresh)
                    && r == u64_of(serving_core(old(self).rng_state(), fresh)),
            old(self).is_active() && !needs_reseed(old(self).rng_state())
                ==> final(self).rng_state() == state_after(old(self).rng_state(), 8, 0)
                    && r == u64_of(old(self).rng_state().core),
            old(self).is_vacant() ==> exists|seed: u64|
                final(self).rng_state() == #[trigger] state_after(fresh_state(seed), 8, 0)
                    && r == u64_of(Core { key: seed, ctr: 0 }),
    {
        let ghost pre = *self;
        match self.initialize() {
            Ok(()) => {
                let ghost seed = self.rng_state().core.key;
                match &mut self.slot {
                    Slot::Active { rng } => {
                        let r = rng.next_u64();
                        proof {
                            if pre.is_vacant() {
                                assert(self.rng_state() == state_after(fresh_state(seed), 8, 0));
                            }
                        }
                        r
                    },
                    _ => vstd::pervasive::unreached(),
                }
            },
            Err(_) => vstd::pervasive::unreached(),
        }
    }

    /// Fill all of `dest` with output, seeding the slot first if this is
    /// the thread's first request.
    ///
    /// Infallible path: not for use during thread teardown, and it demands
    /// that any seeding or reseeding it triggers cannot fail.
    pub fn fill_bytes(&mut self, dest: &mut Vec<u8>)
        requires
            old(self).infallible_pre(),
        ensures
            final(dest)@.len() == old(dest)@.len(),
            final(self).is_active(),
            old(self).entropy_reliable() ==> final(self).entropy_reliable(),
            old(self).is_active() ==> exists|fresh: u64|
                final(self).rng_state() == #[trigger] state_after(
                    old(self).rng_state(),
                    old(dest)@.len() as nat,
                    fresh,
                ) && final(dest)@ == output_of(old(self).rng_state(), old(dest)@.len() as nat, fresh),
            old(self).is_active() && !needs_reseed(old(self).rng_state())
                ==> final(self).rng_state() == state_after(
                    old(self).rng_state(),
                    old(dest)@.len() as nat,
                    0,
                ) && final(dest)@ == output_of(old(self).rng_state(), old(dest)@.len() as nat, 0),
            old(self).is_vacant() ==> exists|seed: u64|
                final(self).rng_state() == #[trigger] state_after(
                    fresh_state(seed),
                    old(dest)@.len() as nat,
                    0,
                ) && final(dest)@ == output_of(fresh_state(seed), old(dest)@.len() as nat, 0),
    {
        let ghost pre = *self;
        let ghost d0 = dest@;
        match self.initialize() {
            Ok(()) => {
                let ghost seed = self.rng_state().core.key;
                match &mut self.slot {
                    Slot::Active { rng } => {
                        rng.fill_bytes(dest);
                        proof {
                            if pre.is_vacant() {
                                assert(self.rng_state() == state_after(
                                    fresh_state(seed),
                                    d0.len() as nat,
                                    0,
                                ));
                            }
                        }
                    },
                    _ => {
                        let _: () = vstd::pervasive::unreached();
                    },
                }
            },
            Err(_) => {
                let _: () = vstd::pervasive::unreached();
            },
        }
    }

    /// Fill all of `dest` with output, or say why no output was produced.
    ///
    /// This is the one path safe to call while the thread may be tearing
    /// down: a torn-down slot answers `ThreadTornDown` — and nothing else
    /// does — leaving the buffer untouched, so a caller can tell a
    /// teardown race from an entropy failure at a reseed boundary.  Like
    /// the other paths it demands that a *first* seeding cannot fail: by
    /// design a failed first seeding aborts the thread's setup instead of
    /// becoming an error value.
    pub fn try_fill_bytes(&mut self, dest: &mut Vec<u8>) -> (r: Result<(), Error>)
        requires
            old(self).is_vacant() ==> old(self).entropy_reliable(),
        ensures
            final(dest)@.len() == old(dest)@.len(),
            old(self).is_torn_down() <==> r == Err::<(), Error>(Error::ThreadTornDown),
            old(self).is_torn_down() ==> *final(self) == *old(self) && final(dest)@ == old(dest)@,
            old(self).entropy_reliable() ==> r is Ok && final(self).entropy_reliable(),
            old(self).is_active() && !needs_reseed(old(self).rng_state()) ==> r is Ok,
            r is Ok ==> final(self).is_active(),
            old(self).is_active() ==> (r matches Err(e) ==> e is EntropyUnavailable
                && final(self).is_active() && final(self).rng_state() == old(self).rng_state()
                && final(dest)@ == old(dest)@),
            old(self).is_active() && r is Ok ==> exists|fresh: u64|
                final(self).rng_state() == #[trigger] state_after(
                    old(self).rng_state(),
                    old(dest)@.len() as nat,
                    fresh,
                ) && final(dest)@ == output_of(old(self).rng_state(), old(dest)@.len() as nat, fresh),
            old(self).is_active() && !needs_reseed(old(self).rng_state())
                ==> final(self).rng_state() == state_after(
                    old(self).rng_state(),
                    old(dest)@.len() as nat,
                    0,
                ) && final(dest)@ == output_of(old(self).rng_state(), old(dest)@.len() as nat, 0),
            old(self).is_vacant() ==> r is Ok && exists|seed: u64|
                final(self).rng_state() == #[trigger] state_after(
                    fresh_state(seed),
                    old(dest)@.len() as nat,
                    0,
                ) && final(dest)@ == output_of(fresh_state(seed), old(dest)@.len() as nat, 0),
    {
        let ghost pre = *self;
        let ghost d0 = dest@;
        if let Slot::TornDown = &self.slot {
            return Err(Error::ThreadTornDown);
        }
        match self.initialize() {
            Ok(()) => {
                let ghost seed = self.rng_state().core.key;
                match &mut self.slot {
                    Slot::Active { rng } => {
                        let r = rng.try_fill_bytes(dest);
                        proof {
                            if pre.is_vacant() && r is Ok {
                                assert(self.rng_state() == state_after(
                                    fresh_state(seed),
                                    d0.len() as nat,
                                    0,
                                ));
                            }
                        }
                        r
                    },
                    _ => vstd::pervasive::unreached(),
                }
            },
            Err(_) => vstd::pervasive::unreached(),
        }
    }

    /// Whether the slot currently holds a live generator.
    pub fn is_initialized(&self) -> (r: bool)
        ensures
            r == self.is_active(),
    {
        match &self.slot {
            Slot::Active { .. } => true,
            _ => false,
        }
    }

    /// How many bytes the live generator has produced since it was last
    /// seeded; zero when the slot holds no generator.
    pub fn bytes_since_reseed(&self) -> (r: u64)
        ensures
            self.is_active() ==> r == self.rng_state().bytes_since_reseed,
            !self.is_active() ==> r == 0,
    {
        match &self.slot {
            Slot::Active { rng } => rng.bytes_since_reseed(),
            _ => 0,
        }
    }
}

} // verus!
