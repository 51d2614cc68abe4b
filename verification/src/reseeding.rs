//! The reseeding wrapper and its byte-budget policy.
//!
//! A [`ReseedingRng`] owns a [`Core`], a byte-count threshold, a running
//! count of the bytes produced since the core was last seeded, and the
//! [`EntropySource`] it reseeds from.  Every generation request first checks
//! the budget: once the counter has reached or passed the threshold, the
//! core is seeded afresh from the source — exactly once — before any output
//! is produced, and the counter starts over at the bytes of the current
//! request.  A failed reseed is never papered over: the fallible path
//! reports it and leaves the wrapper exactly as it was, and the infallible
//! paths demand up front that it cannot happen.

use vstd::prelude::*;
use crate::core_gen::Core;
use crate::core_gen::advanced;
use crate::core_gen::stream;
use crate::core_gen::u32_of;
use crate::core_gen::u64_of;
use crate::core_gen::u64_from_le_bytes;
use crate::entropy::EntropySource;
use crate::entropy::Error;

verus! {

/// The policy-relevant state of a reseeding wrapper: the wrapped core, the
/// byte budget, and how much of the budget has been spent.
#[derive(Clone, Copy, PartialEq, Eq, Structural, Debug)]
pub struct RngState {
    /// The wrapped deterministic generator.
    pub core: Core,
    /// The byte budget: the counter reaching it makes the next request reseed.
    pub threshold: u64,
    /// Bytes produced since the core was last seeded.
    pub bytes_since_reseed: u64,
}

/// Whether the next request must reseed before producing output.
pub open spec fn needs_reseed(s: RngState) -> bool {
    s.bytes_since_reseed >= s.threshold
}

/// The core a request arriving at state `s` is served from: the current one,
/// or — at a reseed boundary — a core freshly seeded with `fresh`.
pub open spec fn serving_core(s: RngState, fresh: u64) -> Core {
    if needs_reseed(s) {
        Core { key: fresh, ctr: 0 }
    } else {
        s.core
    }
}

/// Addition on the byte counter, saturating at the top of `u64`.
pub open spec fn sat_add(a: u64, n: nat) -> u64 {
    if a + n > u64::MAX {
        u64::MAX
    } else {
        (a + n) as u64
    }
}

/// The wrapper state after a request for `n` bytes arriving at state `s`,
/// with `fresh` the seed drawn if the request sat at a reseed boundary.
/// The threshold never changes; the counter holds only the bytes produced
/// since the (possibly fresh) seeding.
pub open spec fn state_after(s: RngState, n: nat, fresh: u64) -> RngState {
    RngState {
        core: advanced(serving_core(s, fresh), n),
        threshold: s.threshold,
        bytes_since_reseed: sat_add(
            if needs_reseed(s) {
                0
            } else {
                s.bytes_since_reseed
            },
            n,
        ),
    }
}

/// The `n` bytes such a request produces.
pub open spec fn output_of(s: RngState, n: nat, fresh: u64) -> Seq<u8> {
    stream(serving_core(s, fresh), n)
}

/// The reseed policy, spelled out: a request arriving at or past the
/// threshold is served from a core seeded afresh — one seeding, before any
/// output — and leaves the counter holding exactly this request's bytes;
/// a request below the threshold continues the current core's stream and
/// only adds to the counter.
pub proof fn lemma_reseed_policy(s: RngState, n: nat, fresh: u64)
    ensures
        needs_reseed(s) <==> s.bytes_since_reseed >= s.threshold,
        state_after(s, n, fresh).threshold == s.threshold,
        needs_reseed(s) ==> state_after(s, n, fresh) == (RngState {
            core: advanced(Core { key: fresh, ctr: 0 }, n),
            threshold: s.threshold,
            bytes_since_reseed: sat_add(0, n),
        }),
        needs_reseed(s) ==> output_of(s, n, fresh) == stream(Core { key: fresh, ctr: 0 }, n),
        !needs_reseed(s) ==> state_after(s, n, fresh) == (RngState {
            core: advanced(s.core, n),
            threshold: s.threshold,
            bytes_since_reseed: sat_add(s.bytes_since_reseed, n),
        }),
        !needs_reseed(s) ==> output_of(s, n, fresh) == stream(s.core, n),
{
}

/// The boundary, one call ahead: when a request of `n` bytes finds the
/// budget not yet exhausted, it is the total spent — counter plus `n` —
/// reaching the threshold, and nothing else, that makes the *next* request
/// reseed.
pub proof fn lemma_threshold_boundary(s: RngState, n: nat, fresh: u64)
    requires
        !needs_reseed(s),
        s.bytes_since_reseed + n <= u64::MAX,
    ensures
        needs_reseed(state_after(s, n, fresh)) <==> s.bytes_since_reseed + n >= s.threshold,
{
}

/// Sequential requests form one consistent sequence: two back-to-back
/// requests that both stay below the budget produce exactly the bytes of
/// one combined request, and land in exactly the state one combined
/// request lands in.  No state escapes between calls — regardless of which
/// handle, or how many handles, the calls arrive through.
pub proof fn lemma_consecutive_requests(s: RngState, m: nat, n: nat)
    requires
        !needs_reseed(s),
        !needs_reseed(state_after(s, m, 0)),
    ensures
        output_of(s, m, 0) + output_of(state_after(s, m, 0), n, 0) == output_of(s, m + n, 0),
        state_after(state_after(s, m, 0), n, 0) == state_after(s, m + n, 0),
{
    crate::core_gen::lemma_stream_append(s.core, m, n);
    crate::core_gen::lemma_advanced_add(s.core, m, n);
}

/// A generator that transparently reseeds itself from an entropy source
/// after a fixed budget of output bytes.
pub struct ReseedingRng<E: EntropySource> {
    core: Core,
    threshold: u64,
    bytes_since_reseed: u64,
    reseeder: E,
}

impl<E: EntropySource> View for ReseedingRng<E> {
    type V = RngState;

    closed spec fn view(&self) -> RngState {
        RngState {
            core: self.core,
            threshold: self.threshold,
            bytes_since_reseed: self.bytes_since_reseed,
        }
    }
}

impl<E: EntropySource> ReseedingRng<E> {
    /// The entropy source the wrapper reseeds from.
    pub closed spec fn reseeder(&self) -> E {
        self.reseeder
    }

    /// Wrap a freshly seeded core with a byte budget and the source to
    /// reseed from.  The byte counter starts at zero.
    pub fn new(core: Core, threshold: u64, reseeder: E) -> (r: Self)
        ensures
            r@ == (RngState { core: core, threshold: threshold, bytes_since_reseed: 0 }),
            r.reseeder() == reseeder,
    {
        ReseedingRng { core, threshold, bytes_since_reseed: 0, reseeder }
    }

    /// How many bytes the wrapper has produced since its core was last
    /// seeded.
    pub fn bytes_since_reseed(&self) -> (r: u64)
        ensures
            r == self@.bytes_since_reseed,
    {
        self.bytes_since_reseed
    }

    /// Reseed the core from the source if the byte budget is spent.
    /// On failure the wrapper is left exactly as it was.
    fn reseed_if_due(&mut self) -> (r: Result<(), Error>)
        ensures
            old(self).reseeder().reliable() ==> r is Ok && final(self).reseeder().reliable(),
            !needs_reseed(old(self)@) ==> r is Ok && *final(self) == *old(self),
            needs_reseed(old(self)@) && r is Ok ==> final(self)@ == (RngState {
                core: Core { key: final(self)@.core.key, ctr: 0 },
                threshold: old(self)@.threshold,
                bytes_since_reseed: 0,
            }),
            r is Err ==> r->Err_0 is EntropyUnavailable && final(self)@ == old(self)@,
    {
        if self.bytes_since_reseed >= self.threshold {
            let mut buf: Vec<u8> = vec![0u8; 8];
            match self.reseeder.try_fill_bytes(&mut buf) {
                Ok(()) => {
                    let key = u64_from_le_bytes(&buf);
                    self.core = Core::from_seed(key);
                    self.bytes_since_reseed = 0;
                    Ok(())
                },
                Err(e) => Err(e),
            }
        } else {
            Ok(())
        }
    }

    /// Add `n` freshly produced bytes to the budget counter, saturating.
    fn count_bytes(&mut self, n: u64)
        ensures
            final(self)@ == (RngState {
                core: old(self)@.core,
                threshold: old(self)@.threshold,
                bytes_since_reseed: sat_add(old(self)@.bytes_since_reseed, n as nat),
            }),
            final(self).reseeder() == old(self).reseeder(),
    {
        self.bytes_since_reseed = if self.bytes_since_reseed > u64::MAX - n {
            u64::MAX
        } else {
            self.bytes_since_reseed + n
        };
    }

    /// Produce the next 32-bit word, reseeding first if the budget is spent.
    ///
    /// This is an infallible path: at a reseed boundary it demands a source
    /// that cannot fail.
    pub fn next_u32(&mut self) -> (r: u32)
        requires
            !needs_reseed(old(self)@) || old(self).reseeder().reliable(),
        ensures
            old(self).reseeder().reliable() ==> final(self).reseeder().reliable(),
            exists|fresh: u64|
                final(self)@ == #[trigger] state_after(old(self)@, 4, fresh)
                    && r == u32_of(serving_core(old(self)@, fresh)),
            !needs_reseed(old(self)@) ==> final(self)@ == state_after(old(self)@, 4, 0)
                && r == u32_of(old(self)@.core),
    {
        let ghost pre = self@;
        match self.reseed_if_due() {
            Ok(()) => {
                let ghost fresh = self@.core.key;
                let r = self.core.next_u32();
                self.count_bytes(4);
                proof {
                    assert(self@ == state_after(pre, 4, fresh));
                }
                r
            },
            Err(_) => vstd::pervasive::unreached(),
        }
    }

    /// Produce the next 64-bit word, reseeding first if the budget is spent.
    ///
    /// This is an infallible path: at a reseed boundary it demands a source
    /// that cannot fail.
    pub fn next_u64(&mut self) -> (r: u64)
        requires
            !needs_reseed(old(self)@) || old(self).reseeder().reliable(),
        ensures
            old(self).reseeder().reliable() ==> final(self).reseeder().reliable(),
            exists|fresh: u64|
                final(self)@ == #[trigger] state_after(old(self)@, 8, fresh)
                    && r == u64_of(serving_core(old(self)@, fresh)),
            !needs_reseed(old(self)@) ==> final(self)@ == state_after(old(self)@, 8, 0)
                && r == u64_of(old(self)@.core),
    {
        let ghost pre = self@;
        match self.reseed_if_due() {
            Ok(()) => {
                let ghost fresh = self@.core.key;
                let r = self.core.next_u64();
                self.count_bytes(8);
                proof {
                    assert(self@ == state_after(pre, 8, fresh));
                }
                r
            },
            Err(_) => vstd::pervasive::unreached(),
        }
    }

    /// Fill all of `dest` with output, reseeding first if the budget is
    /// spent.
    ///
    /// This is an infallible path: at a reseed boundary it demands a source
    /// that cannot fail.
    pub fn fill_bytes(&mut self, dest: &mut Vec<u8>)
        requires
            !needs_reseed(old(self)@) || old(self).reseeder().reliable(),
        ensures
            final(dest)@.len() == old(dest)@.len(),
            old(self).reseeder().reliable() ==> final(self).reseeder().reliable(),
            exists|fresh: u64|
                final(self)@ == #[trigger] state_after(old(self)@, old(dest)@.len() as nat, fresh)
                    && final(dest)@ == output_of(old(self)@, old(dest)@.len() as nat, fresh),
            !needs_reseed(old(self)@) ==> final(self)@ == state_after(
                old(self)@,
                old(dest)@.len() as nat,
                0,
            ) && final(dest)@ == output_of(old(self)@, old(dest)@.len() as nat, 0),
    {
        let ghost pre = self@;
        let ghost d0 = dest@;
        match self.reseed_if_due() {
            Ok(()) => {
                let ghost fresh = self@.core.key;
                self.core.fill_bytes(dest);
                let n = dest.len();
                self.count_bytes(n as u64);
                proof {
                    assert(self@ == state_after(pre, d0.len() as nat, fresh));
                }
            },
            Err(_) => {
                let _: () = vstd::pervasive::unreached();
            },
        }
    }

    /// Fill all of `dest` with output, or report why no output could be
    /// produced.  A failed reseed leaves the wrapper and the buffer exactly
    /// as they were: the wrapper never continues past its budget silently.
    pub fn try_fill_bytes(&mut self, dest: &mut Vec<u8>) -> (r: Result<(), Error>)
        ensures
            final(dest)@.len() == old(dest)@.len(),
            old(self).reseeder().reliable() ==> r is Ok && final(self).reseeder().reliable(),
            !needs_reseed(old(self)@) ==> r is Ok,
            r is Err ==> r->Err_0 is EntropyUnavailable && final(self)@ == old(self)@
                && final(dest)@ == old(dest)@,
            r is Ok ==> exists|fresh: u64|
                final(self)@ == #[trigger] state_after(old(self)@, old(dest)@.len() as nat, fresh)
                    && final(dest)@ == output_of(old(self)@, old(dest)@.len() as nat, fresh),
            !needs_reseed(old(self)@) ==> final(self)@ == state_after(
                old(self)@,
                old(dest)@.len() as nat,
                0,
            ) && final(dest)@ == output_of(old(self)@, old(dest)@.len() as nat, 0),
    {
        let ghost pre = self@;
        let ghost d0 = dest@;
        match self.reseed_if_due() {
            Ok(()) => {
                let ghost fresh = self@.core.key;
                self.core.fill_bytes(dest);
                let n = dest.len();
                self.count_bytes(n as u64);
                proof {
                    assert(self@ == state_after(pre, d0.len() as nat, fresh));
                }
                Ok(())
            },
            Err(e) => Err(e),
        }
    }
}

} // verus!
