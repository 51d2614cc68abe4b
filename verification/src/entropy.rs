//! The entropy capability and the errors of the generation surface.
//!
//! The thread cache never gathers entropy itself: it asks an
//! [`EntropySource`] for seed material, both on first use and at every
//! reseed boundary.  The trait demands very little of a source — fresh
//! bytes are unpredictable by nature — but it does demand that a source
//! which claims to be reliable actually delivers, which is what lets the
//! infallible generation paths be verified panic-free.

use vstd::prelude::*;
use crate::core_gen::ctr_next;

verus! {

/// Why a generation request could not be served.
#[derive(Clone, Copy, PartialEq, Eq, Structural, Debug)]
pub enum Error {
    /// The entropy provider could not supply fresh bytes, either for the
    /// first seeding of a thread's generator or at a reseed boundary.
    EntropyUnavailable,
    /// The thread-local slot was looked up while the thread is tearing it
    /// down; the cached generator is no longer available.
    ThreadTornDown,
}

impl Error {
    /// A short description of the failure, for diagnostics.
    pub fn describe(&self) -> (r: &'static str)
        ensures
            *self is EntropyUnavailable ==> r@ == "the entropy source could not supply fresh bytes"@,
            *self is ThreadTornDown ==> r@ == "the thread-local generator slot is being torn down"@,
    {
        match self {
            Error::EntropyUnavailable => "the entropy source could not supply fresh bytes",
            Error::ThreadTornDown => "the thread-local generator slot is being torn down",
        }
    }
}

/// A supplier of fresh, unpredictable bytes.
///
/// `reliable` is the source's own promise about its next requests: a source
/// for which it holds must serve every request (and keep the promise
/// afterwards).  A source that can run dry — or one that models an outage —
/// simply does not make the promise, and callers that want a guarantee of
/// success must then use a fallible path.
pub trait EntropySource: Sized {
    /// Whether this source promises to fulfil every coming request.
    spec fn reliable(&self) -> bool;

    /// Fill all of `dest` with fresh bytes, or report that entropy is
    /// unavailable.  The buffer keeps its length either way.
    fn try_fill_bytes(&mut self, dest: &mut Vec<u8>) -> (r: Result<(), Error>)
        ensures
            final(dest)@.len() == old(dest)@.len(),
            old(self).reliable() ==> r is Ok && final(self).reliable(),
            r is Err ==> r->Err_0 is EntropyUnavailable,
    ;
}

/// The value of a wrapping byte counter after `n` increments.
pub open spec fn counter_after(start: u64, n: nat) -> u64
    decreases n,
{
    if n == 0 {
        start
    } else {
        ctr_next(counter_after(start, (n - 1) as nat))
    }
}

/// The `n` bytes a counting source starting at `start` hands out: the low
/// eight bits of each successive counter value.
pub open spec fn counting_stream(start: u64, n: nat) -> Seq<u8>
    decreases n,
{
    if n == 0 {
        Seq::empty()
    } else {
        counting_stream(start, (n - 1) as nat).push(
            (counter_after(start, (n - 1) as nat) & 0xff) as u8,
        )
    }
}

/// A deterministic source: it hands out the bytes of a running counter.
///
/// It is no source of randomness at all — which is exactly what makes it
/// useful for exercising the cache: every seed it will ever produce is
/// known in advance, so a test can predict the exact output of a generator
/// across seedings and reseedings.
#[derive(Clone, Copy, PartialEq, Eq, Structural, Debug)]
pub struct CountingEntropy {
    /// The next counter value to be handed out.
    pub next: u64,
}

impl EntropySource for CountingEntropy {
    open spec fn reliable(&self) -> bool {
        true
    }

    fn try_fill_bytes(&mut self, dest: &mut Vec<u8>) -> (r: Result<(), Error>)
        ensures
            r is Ok,
            final(dest)@ == counting_stream(old(self).next, old(dest)@.len() as nat),
            final(self).next == counter_after(old(self).next, old(dest)@.len() as nat),
    {
        let ghost start = self.next;
        let ghost n = dest@.len();
        let len = dest.len();
        let mut i: usize = 0;
        while i < len
            invariant
                i <= len,
                n == len,
                dest@.len() == n,
                self.next == counter_after(start, i as nat),
                dest@.subrange(0, i as int) == counting_stream(start, i as nat),
            decreases len - i,
        {
            let ghost before = dest@;
            let b = crate::core_gen::low_byte_of(self.next);
            dest[i] = b;
            self.next = if self.next == u64::MAX {
                0
            } else {
                self.next + 1
            };
            proof {
                assert(dest@.subrange(0, i as int) =~= before.subrange(0, i as int));
                assert(dest@.subrange(0, (i + 1) as int) =~= counting_stream(start, (i + 1) as nat));
            }
            i = i + 1;
        }
        proof {
            assert(dest@ =~= dest@.subrange(0, n as int));
        }
        Ok(())
    }
}

/// A source that is permanently out of entropy.
///
/// It stands in for an unavailable operating-system provider, so that the
/// failure paths of the cache — a failed first seeding, a failed reseed —
/// can be exercised deterministically.
#[derive(Clone, Copy, PartialEq, Eq, Structural, Debug)]
pub struct FailingEntropy {}

impl EntropySource for FailingEntropy {
    open spec fn reliable(&self) -> bool {
        false
    }

    fn try_fill_bytes(&mut self, dest: &mut Vec<u8>) -> (r: Result<(), Error>)
        ensures
            r is Err,
    {
        Err(Error::EntropyUnavailable)
    }
}

/// A source with only a limited stock of bytes: it serves requests from a
/// running counter until the stock runs out, then reports failure.
///
/// It models an entropy provider that works at first and goes away later,
/// so a failure at a reseed boundary — as opposed to one at first seeding —
/// can be exercised deterministically.
#[derive(Clone, Copy, PartialEq, Eq, Structural, Debug)]
pub struct LimitedEntropy {
    /// The counter the served bytes are drawn from.
    pub inner: CountingEntropy,
    /// How many more bytes the source can still serve.
    pub remaining: u64,
}

impl EntropySource for LimitedEntropy {
    open spec fn reliable(&self) -> bool {
        false
    }

    fn try_fill_bytes(&mut self, dest: &mut Vec<u8>) -> (r: Result<(), Error>)
        ensures
            old(dest)@.len() <= old(self).remaining ==> r is Ok
                && final(dest)@ == counting_stream(
                old(self).inner.next,
                old(dest)@.len() as nat,
            )
                && final(self).inner.next == counter_after(
                old(self).inner.next,
                old(dest)@.len() as nat,
            )
                && final(self).remaining == old(self).remaining - old(dest)@.len(),
            old(dest)@.len() > old(self).remaining ==> r == Err::<(), Error>(
                Error::EntropyUnavailable,
            ) && *final(self) == *old(self) && final(dest)@ == old(dest)@,
    {
        let len = dest.len();
        if len as u64 <= self.remaining {
            self.remaining = self.remaining - len as u64;
            self.inner.try_fill_bytes(dest)
        } else {
            Err(Error::EntropyUnavailable)
        }
    }
}

} // verus!
