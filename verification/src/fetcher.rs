//! Retry policy for upstream fetches.
//!
//! Every logical fetch gets a bounded attempt budget. A transient fault
//! (timeout, transport failure) is retried after an exponentially growing
//! pause; a data fault (missing key, unparsable price) gives up at once,
//! since retrying cannot mend malformed data.

use vstd::prelude::*;

use vstd::arithmetic::power2::{lemma2_to64, lemma_pow2_strictly_increases, pow2};

verus! {

/// What went wrong with a fetch, before retry accounting.
#[derive(Debug, PartialEq, Eq)]
pub enum FetchErrorKind {
    /// An attempt ran past the per-attempt timeout.
    Timeout,
    /// The transport failed: no connection, bad status, malformed body.
    Network,
    /// A well-formed response did not carry the requested key.
    NotFound(String),
    /// A price field was not a finite decimal; carries the key and the raw
    /// field text.
    ParseError(String, String),
}

impl FetchErrorKind {
    /// Transient faults are worth retrying; data faults are not.
    pub open spec fn is_transient(&self) -> bool {
        self is Timeout || self is Network
    }
}

/// A failed logical fetch: the last underlying fault and how many attempts
/// were made before giving up.
#[derive(Debug, PartialEq, Eq)]
pub struct FetchError {
    pub kind: FetchErrorKind,
    pub attempts: u32,
}

/// Knobs of the retry policy.
#[derive(Debug, Clone, Copy, PartialEq, Eq, Structural)]
pub struct RetrySettings {
    pub max_attempts: u32,
    pub timeout_secs: u64,
}

impl RetrySettings {
    /// The attempt budget stays small enough for the backoff arithmetic.
    pub open spec fn wf(&self) -> bool {
        1 <= self.max_attempts <= 30
    }
}

impl Default for RetrySettings {
    /// Three attempts of ten seconds each.
    fn default() -> (r: Self)
        ensures
            r.max_attempts == 3,
            r.timeout_secs == 10,
            r.wf(),
    {
        RetrySettings { max_attempts: 3, timeout_secs: 10 }
    }
}

/// The pause before retry number `retries + 1`: `2^retries` seconds.
pub fn exponential_backoff(retries: u32) -> (d: u64)
    requires
        retries <= 30,
    ensures
        d as nat == pow2(retries as nat),
{
    proof {
        lemma2_to64();
    }
    let mut i: u32 = 0;
    let mut d: u64 = 1;
    while i < retries
        invariant
            i <= retries <= 30,
            d as nat == pow2(i as nat),
        decreases retries - i,
    {
        proof {
            lemma2_to64();
            if i as nat + 1 < 30 {
                lemma_pow2_strictly_increases(i as nat + 1, 30);
            }
        }
        d = d * 2;
        i = i + 1;
    }
    d
}

/// Progress of one logical fetch through its attempt budget.
#[derive(Debug, Clone, Copy, PartialEq, Eq, Structural)]
pub struct RetryState {
    pub attempts_made: u32,
    pub max_attempts: u32,
}

/// What the policy says to do after a failed attempt.
#[derive(Debug, PartialEq, Eq)]
pub enum RetryDecision {
    /// Try again after this many seconds.
    RetryAfter(u64),
    /// Stop; the logical fetch has failed.
    GiveUp(FetchError),
}

impl RetryState {
    pub open spec fn wf(&self) -> bool {
        1 <= self.max_attempts <= 30
    }

    /// A fresh budget under the given settings.
    pub fn begin(settings: &RetrySettings) -> (r: RetryState)
        ensures
            r.attempts_made == 0,
            r.max_attempts == settings.max_attempts,
            settings.wf() ==> r.wf(),
    {
        RetryState { attempts_made: 0, max_attempts: settings.max_attempts }
    }

    /// Books a failed attempt. A transient fault with budget left is
    /// retried after `2^attempts_made` seconds; anything else gives up,
    /// carrying the last fault and the attempt count.
    pub fn on_attempt_failure(&mut self, kind: FetchErrorKind) -> (r: RetryDecision)
        requires
            old(self).wf(),
            old(self).attempts_made < old(self).max_attempts,
        ensures
            final(self).attempts_made == old(self).attempts_made + 1,
            final(self).max_attempts == old(self).max_attempts,
            if kind.is_transient() && final(self).attempts_made < final(self).max_attempts {
                r == RetryDecision::RetryAfter(pow2(final(self).attempts_made as nat) as u64)
            } else {
                r == RetryDecision::GiveUp(
                    FetchError { kind, attempts: final(self).attempts_made },
                )
            },
    {
        self.attempts_made = self.attempts_made + 1;
        let transient = match &kind {
            FetchErrorKind::Timeout => true,
            FetchErrorKind::Network => true,
            FetchErrorKind::NotFound(_) => false,
            FetchErrorKind::ParseError(_, _) => false,
        };
        if transient && self.attempts_made < self.max_attempts {
            RetryDecision::RetryAfter(exponential_backoff(self.attempts_made))
        } else {
            RetryDecision::GiveUp(FetchError { kind, attempts: self.attempts_made })
        }
    }
}

} // verus!
