//! The back-off schedule for retried operations: at most `max_attempts`
//! attempts, with waits of 1 s, 2 s, 4 s, ... between them. The caller runs
//! the attempts and the waits; this type decides what follows a failure.

use vstd::prelude::*;

verus! {

/// The attempts every remote call gets: RPC probes, the LLM request and the
/// Telegram message.
pub const REMOTE_CALL_ATTEMPTS: u32 = 3;

/// `2` to the power `n`.
pub open spec fn two_pow(n: nat) -> nat
    decreases n,
{
    if n == 0 {
        1
    } else {
        2 * two_pow((n - 1) as nat)
    }
}

/// Where a retry schedule stands: the number of the attempt under way
/// (counting from 1), the attempts allowed in all, and the wait that follows
/// a failure of the attempt under way, in seconds.
pub struct RetryView {
    pub attempt: nat,
    pub max_attempts: nat,
    pub delay_secs: nat,
}

/// What to do after a failed attempt.
#[derive(Debug, Clone, Copy, PartialEq, Eq)]
pub enum RetryStep {
    /// Wait `delay_secs` seconds, then make the next attempt.
    Retry { delay_secs: u64 },
    /// No attempt is left: report the last error.
    GiveUp,
}

/// The schedule at the first attempt, for `max_attempts` attempts in all.
pub open spec fn initial_schedule(max_attempts: nat) -> RetryView {
    RetryView { attempt: 1, max_attempts, delay_secs: 1 }
}

/// What a failure of the attempt under way leads to: the next attempt after
/// the current wait, with the wait doubled; or, at the last attempt, giving
/// up.
pub open spec fn after_failure_spec(s: RetryView) -> (RetryView, RetryStep) {
    if s.attempt < s.max_attempts {
        (
            RetryView { attempt: s.attempt + 1, max_attempts: s.max_attempts, delay_secs: s.delay_secs * 2 },
            RetryStep::Retry { delay_secs: s.delay_secs as u64 },
        )
    } else {
        (s, RetryStep::GiveUp)
    }
}

/// The schedule after `k` failures in a row from the start.
pub open spec fn after_failures(max_attempts: nat, k: nat) -> RetryView
    decreases k,
{
    if k == 0 {
        initial_schedule(max_attempts)
    } else {
        after_failure_spec(after_failures(max_attempts, (k - 1) as nat)).0
    }
}

/// Whether a failure can be handled without the wait overflowing: the wait
/// doubles only below the last attempt, and doubling past `2^63` seconds
/// overflows.
pub open spec fn failure_fits(s: RetryView) -> bool {
    s.attempt < 64 || s.attempt >= s.max_attempts
}

/// A retry schedule for one operation.
pub struct RetrySchedule {
    attempt: u32,
    max_attempts: u32,
    delay_secs: u64,
}

impl View for RetrySchedule {
    type V = RetryView;

    closed spec fn view(&self) -> RetryView {
        RetryView {
            attempt: self.attempt as nat,
            max_attempts: self.max_attempts as nat,
            delay_secs: self.delay_secs as nat,
        }
    }
}

proof fn lemma_two_pow_monotone(n: nat, m: nat)
    requires
        n <= m,
    ensures
        two_pow(n) <= two_pow(m),
    decreases m,
{
    if n < m {
        lemma_two_pow_monotone(n, (m - 1) as nat);
    }
}

proof fn lemma_two_pow_62()
    ensures
        two_pow(62) == 0x4000_0000_0000_0000,
{
    reveal_with_fuel(two_pow, 63);
}

impl RetrySchedule {
    /// Whether the schedule is consistent: an attempt between 1 and the
    /// last, and a wait of `2^(attempt - 1)` seconds.
    pub closed spec fn well_formed(&self) -> bool {
        &&& 1 <= self.attempt <= self.max_attempts
        &&& self.attempt <= 64
        &&& self.delay_secs == two_pow((self.attempt - 1) as nat)
    }

    /// A schedule at its first attempt, allowing `max_attempts` attempts in
    /// all.
    pub fn new(max_attempts: u32) -> (s: RetrySchedule)
        requires
            max_attempts >= 1,
        ensures
            s@ == initial_schedule(max_attempts as nat),
            s.well_formed(),
    {
        RetrySchedule { attempt: 1, max_attempts, delay_secs: 1 }
    }

    /// The number of the attempt under way, counting from 1.
    pub fn attempt(&self) -> (a: u32)
        ensures
            a == self@.attempt,
    {
        self.attempt
    }

    /// The attempts allowed in all.
    pub fn max_attempts(&self) -> (m: u32)
        ensures
            m == self@.max_attempts,
    {
        self.max_attempts
    }

    /// Whether [`RetrySchedule::after_failure`] can be applied.
    pub fn failure_fits(&self) -> (b: bool)
        ensures
            b == failure_fits(self@),
    {
        self.attempt < 64 || self.attempt >= self.max_attempts
    }

    /// Records a failure of the attempt under way and says what follows: a
    /// wait of `2^(attempt - 1)` seconds before the next attempt, or giving
    /// up at the last attempt.
    pub fn after_failure(&mut self) -> (step: RetryStep)
        requires
            old(self).well_formed(),
            failure_fits(old(self)@),
        ensures
            final(self).well_formed(),
            (final(self)@, step) == after_failure_spec(old(self)@),
            old(self)@.attempt < old(self)@.max_attempts ==> step == (RetryStep::Retry {
                delay_secs: two_pow((old(self)@.attempt - 1) as nat) as u64,
            }),
            old(self)@.attempt >= old(self)@.max_attempts ==> step == RetryStep::GiveUp,
    {
        if self.attempt < self.max_attempts {
            let delay = self.delay_secs;
            proof {
                lemma_two_pow_monotone((self.attempt - 1) as nat, 62);
                lemma_two_pow_62();
            }
            self.attempt = self.attempt + 1;
            self.delay_secs = delay * 2;
            RetryStep::Retry { delay_secs: delay }
        } else {
            RetryStep::GiveUp
        }
    }
}

/// Retrying gives up exactly at the last attempt, and the waits before it
/// are 1, 2, 4, ... seconds: after `k` failures in a row (`k` below
/// `max_attempts - 1`) the next failure waits `2^k` seconds; the failure of
/// attempt `max_attempts` gives up.
pub proof fn retry_gives_up_after_max_attempts(max_attempts: nat, k: nat)
    requires
        1 <= max_attempts <= 64,
        k < max_attempts,
    ensures
        after_failures(max_attempts, k) == (RetryView {
            attempt: k + 1,
            max_attempts,
            delay_secs: two_pow(k),
        }),
        k + 1 < max_attempts ==> after_failure_spec(after_failures(max_attempts, k)).1
            == (RetryStep::Retry { delay_secs: two_pow(k) as u64 }),
        k + 1 == max_attempts ==> after_failure_spec(after_failures(max_attempts, k)).1
            == RetryStep::GiveUp,
    decreases k,
{
    if k > 0 {
        retry_gives_up_after_max_attempts(max_attempts, (k - 1) as nat);
    }
}

} // verus!
