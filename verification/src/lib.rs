//! A thread-confined, lazily seeded, periodically reseeded random generator.
//!
//! The crate is built around three verified pieces:
//!
//! * [`core_gen::Core`], a small deterministic seedable generator whose whole
//!   output stream is pinned down by a specification function;
//! * [`reseeding::ReseedingRng`], a wrapper that owns a `Core`, counts the
//!   bytes produced since the last seeding, and draws a fresh seed from an
//!   [`entropy::EntropySource`] once a byte budget is exhausted;
//! * [`cache::ThreadCache`], the per-thread slot that creates the wrapper on
//!   first use and tears it down when the thread exits.
//!
//! [`ThreadRng`] is the public face: a stateless, copyable token that forwards
//! every request to the calling thread's cache.  It is deliberately neither
//! `Send` nor `Sync`, so a cache can only ever be driven from the thread that
//! owns it.

use vstd::prelude::*;

pub mod cache;
pub mod core_gen;
pub mod entropy;
pub mod reseeding;

use crate::cache::ThreadCache;
use crate::cache::fresh_state;
use crate::core_gen::Core;
use crate::core_gen::u32_of;
use crate::core_gen::u64_of;
use crate::entropy::EntropySource;
use crate::entropy::Error;
use crate::reseeding::needs_reseed;
use crate::reseeding::output_of;
use crate::reseeding::serving_core;
use crate::reseeding::state_after;

verus! {

/// A stateless handle to the thread's cached generator.
///
/// The handle carries no data; all generator state lives in the
/// [`cache::ThreadCache`] that the surrounding program keeps in thread-local
/// storage.  The phantom `Rc` field keeps the type out of `Send` and `Sync`,
/// so a handle can never leak to another thread.
#[derive(Copy, Clone, Debug)]
pub struct ThreadRng {
    not_send_not_sync: core::marker::PhantomData<std::rc::Rc<()>>,
}

/// The one value a `ThreadRng` can take: the type holds no data.
pub closed spec fn spec_handle() -> ThreadRng {
    ThreadRng { not_send_not_sync: core::marker::PhantomData }
}

/// Hand out a handle to the thread's cached generator.
///
/// Construction is infallible and touches no thread-local state; the cache is
/// only reached when a generation request is made through the handle.
pub fn thread_rng() -> (r: ThreadRng)
    ensures
        r == spec_handle(),
{
    ThreadRng { not_send_not_sync: core::marker::PhantomData }
}

impl Default for ThreadRng {
    fn default() -> (r: ThreadRng)
        ensures
            r == spec_handle(),
    {
        thread_rng()
    }
}

/// Any two handles are the same value: a handle holds no state of its own,
/// so nothing a caller observes can depend on which handle it used.  All
/// generation contracts below speak only of the cache; calls made through
/// two handles against one cache therefore form one consistent sequence.
pub proof fn lemma_handles_identical(a: ThreadRng, b: ThreadRng)
    ensures
        a == b,
{
}

impl ThreadRng {
    /// Produce the next 32-bit word from the calling thread's cache,
    /// seeding it first if this is the thread's first request.
    ///
    /// Infallible path: not for use during thread teardown, and it demands
    /// that any seeding or reseeding it triggers cannot fail.
    pub fn next_u32<E: EntropySource>(&mut self, cache: &mut ThreadCache<E>) -> (r: u32)
        requires
            old(cache).infallible_pre(),
        ensures
            final(cache).is_active(),
            old(cache).entropy_reliable() ==> final(cache).entropy_reliable(),
            old(cache).is_active() ==> exists|fresh: u64|
                final(cache).rng_state() == #[trigger] state_after(old(cache).rng_state(), 4, fresh)
                    && r == u32_of(serving_core(old(cache).rng_state(), fresh)),
            old(cache).is_active() && !needs_reseed(old(cache).rng_state())
                ==> final(cache).rng_state() == state_after(old(cache).rng_state(), 4, 0)
                    && r == u32_of(old(cache).rng_state().core),
            old(cache).is_vacant() ==> exists|seed: u64|
                final(cache).rng_state() == #[trigger] state_after(fresh_state(seed), 4, 0)
                    && r == u32_of(Core { key: seed, ctr: 0 }),
    {
        cache.next_u32()
    }

    /// Produce the next 64-bit word from the calling thread's cache,
    /// seeding it first if this is the thread's first request.
    ///
    /// Infallible path: not for use during thread teardown, and it demands
    /// that any seeding or reseeding it triggers cannot fail.
    pub fn next_u64<E: EntropySource>(&mut self, cache: &mut ThreadCache<E>) -> (r: u64)
        requires
            old(cache).infallible_pre(),
        ensures
            final(cache).is_active(),
            old(cache).entropy_reliable() ==> final(cache).entropy_reliable(),
            old(cache).is_active() ==> exists|fresh: u64|
                final(cache).rng_state() == #[trigger] state_after(old(cache).rng_state(), 8, fresh)
                    && r == u64_of(serving_core(old(cache).rng_state(), fresh)),
            old(cache).is_active() && !needs_reseed(old(cache).rng_state())
                ==> final(cache).rng_state() == state_after(old(cache).rng_state(), 8, 0)
                    && r == u64_of(old(cache).rng_state().core),
            old(cache).is_vacant() ==> exists|seed: u64|
                final(cache).rng_state() == #[trigger] state_after(fresh_state(seed), 8, 0)
                    && r == u64_of(Core { key: seed, ctr: 0 }),
    {
        cache.next_u64()
    }

    /// Fill all of `dest` from the calling thread's cache, seeding it first
    /// if this is the thread's first request.
    ///
    /// Infallible path: not for use during thread teardown, and it demands
    /// that any seeding or reseeding it triggers cannot fail.
    pub fn fill_bytes<E: EntropySource>(
        &mut self,
        cache: &mut ThreadCache<E>,
        dest: &mut Vec<u8>,
    )
        requires
            old(cache).infallible_pre(),
        ensures
            final(dest)@.len() == old(dest)@.len(),
            final(cache).is_active(),
            old(cache).entropy_reliable() ==> final(cache).entropy_reliable(),
            old(cache).is_active() ==> exists|fresh: u64|
                final(cache).rng_state() == #[trigger] state_after(
                    old(cache).rng_state(),
                    old(dest)@.len() as nat,
                    fresh,
                ) && final(dest)@ == output_of(
                    old(cache).rng_state(),
                    old(dest)@.len() as nat,
                    fresh,
                ),
            old(cache).is_active() && !needs_reseed(old(cache).rng_state())
                ==> final(cache).rng_state() == state_after(
                    old(cache).rng_state(),
                    old(dest)@.len() as nat,
                    0,
                ) && final(dest)@ == output_of(old(cache).rng_state(), old(dest)@.len() as nat, 0),
            old(cache).is_vacant() ==> exists|seed: u64|
                final(cache).rng_state() == #[trigger] state_after(
                    fresh_state(seed),
                    old(dest)@.len() as nat,
                    0,
                ) && final(dest)@ == output_of(fresh_state(seed), old(dest)@.len() as nat, 0),
    {
        cache.fill_bytes(dest)
    }

    /// Fill all of `dest` from the calling thread's cache, or say why no
    /// output was produced.
    ///
    /// This is the one generation path safe to use while the thread may be
    /// tearing its locals down: a torn-down cache answers
    /// [`Error::ThreadTornDown`] — and nothing else does — while an entropy
    /// failure at a reseed boundary answers [`Error::EntropyUnavailable`].
    /// Either way the buffer and the generator state are left untouched.
    pub fn try_fill_bytes<E: EntropySource>(
        &mut self,
        cache: &mut ThreadCache<E>,
        dest: &mut Vec<u8>,
    ) -> (r: Result<(), Error>)
        requires
            old(cache).is_vacant() ==> old(cache).entropy_reliable(),
        ensures
            final(dest)@.len() == old(dest)@.len(),
            old(cache).is_torn_down() <==> r == Err::<(), Error>(Error::ThreadTornDown),
            old(cache).is_torn_down() ==> *final(cache) == *old(cache)
                && final(dest)@ == old(dest)@,
            old(cache).entropy_reliable() ==> r is Ok && final(cache).entropy_reliable(),
            old(cache).is_active() && !needs_reseed(old(cache).rng_state()) ==> r is Ok,
            r is Ok ==> final(cache).is_active(),
            old(cache).is_active() ==> (r matches Err(e) ==> e is EntropyUnavailable
                && final(cache).is_active()
                && final(cache).rng_state() == old(cache).rng_state()
                && final(dest)@ == old(dest)@),
            old(cache).is_active() && r is Ok ==> exists|fresh: u64|
                final(cache).rng_state() == #[trigger] state_after(
                    old(cache).rng_state(),
                    old(dest)@.len() as nat,
                    fresh,
                ) && final(dest)@ == output_of(
                    old(cache).rng_state(),
                    old(dest)@.len() as nat,
                    fresh,
                ),
            old(cache).is_active() && !needs_reseed(old(cache).rng_state())
                ==> final(cache).rng_state() == state_after(
                    old(cache).rng_state(),
                    old(dest)@.len() as nat,
                    0,
                ) && final(dest)@ == output_of(old(cache).rng_state(), old(dest)@.len() as nat, 0),
            old(cache).is_vacant() ==> r is Ok && exists|seed: u64|
                final(cache).rng_state() == #[trigger] state_after(
                    fresh_state(seed),
                    old(dest)@.len() as nat,
                    0,
                ) && final(dest)@ == output_of(fresh_state(seed), old(dest)@.len() as nat, 0),
    {
        cache.try_fill_bytes(dest)
    }
}

} // verus!
