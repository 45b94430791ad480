//! What the generated code calls at run time: the retry budget that decides
//! whether another attempt is made, and the draw of a jittered wait.
use vstd::prelude::*;

verus! {

/// Whether the loop makes another attempt after one that succeeded or not,
/// with `remaining` retries left.
pub open spec fn retries_again(remaining: u64, succeeded: bool) -> bool {
    !succeeded && remaining > 0
}

/// How many attempts the retry loop makes, starting with `remaining` retries,
/// when successive attempts succeed as `outcomes` says.
pub open spec fn attempts(remaining: u64, outcomes: Seq<bool>) -> nat
    decreases outcomes.len(),
{
    if outcomes.len() == 0 {
        0
    } else if !retries_again(remaining, outcomes[0]) {
        1
    } else {
        1 + attempts((remaining - 1) as u64, outcomes.drop_first())
    }
}

/// The retries left to a retry loop.
#[derive(Clone, Copy, Debug, PartialEq, Eq)]
pub struct RetryBudget {
    pub remaining: u64,
}

impl RetryBudget {
    /// A budget of `times` retries after the first attempt.
    pub fn new(times: u64) -> (r: RetryBudget)
        ensures
            r.remaining == times,
    {
        RetryBudget { remaining: times }
    }

    /// Records an attempt; returns whether another one is to be made, which
    /// uses up one retry.
    pub fn retry_after(&mut self, succeeded: bool) -> (again: bool)
        ensures
            again == retries_again(old(self).remaining, succeeded),
            final(self).remaining == if again {
                (old(self).remaining - 1) as u64
            } else {
                old(self).remaining
            },
    {
        if !succeeded && self.remaining > 0 {
            self.remaining = self.remaining - 1;
            true
        } else {
            false
        }
    }
}

/// A loop given `times` retries, whose every attempt fails, makes `times + 1`
/// attempts, and returns the failure of the last.
pub proof fn lemma_always_failing(times: u64, outcomes: Seq<bool>)
    requires
        outcomes.len() > times,
        forall|i: int| 0 <= i < outcomes.len() ==> !#[trigger] outcomes[i],
    ensures
        attempts(times, outcomes) == times + 1,
        !outcomes[attempts(times, outcomes) - 1],
    decreases times,
{
    if times > 0 {
        let rest = outcomes.drop_first();
        assert forall|i: int| 0 <= i < rest.len() implies !#[trigger] rest[i] by {
            assert(rest[i] == outcomes[i + 1]);
        }
        lemma_always_failing((times - 1) as u64, rest);
    }
}

/// A loop given `times` retries, whose attempts fail until the `k`-th succeeds
/// (`k <= times + 1`), makes exactly `k` attempts and returns that success.
pub proof fn lemma_first_success(times: u64, outcomes: Seq<bool>, k: nat)
    requires
        1 <= k <= times + 1,
        k <= outcomes.len(),
        outcomes[k - 1],
        forall|i: int| 0 <= i < k - 1 ==> !#[trigger] outcomes[i],
    ensures
        attempts(times, outcomes) == k,
        outcomes[attempts(times, outcomes) - 1],
    decreases k,
{
    if k > 1 {
        let rest = outcomes.drop_first();
        assert(!outcomes[0]);
        assert forall|i: int| 0 <= i < k - 2 implies !#[trigger] rest[i] by {
            assert(rest[i] == outcomes[i + 1]);
        }
        lemma_first_success((times - 1) as u64, rest, (k - 1) as nat);
    }
}

/// Relies on rand's `thread_rng` and `Rng::gen_range(low, high)`: a value in
/// `[low, high)`; it panics where `low >= high`.
#[verifier::external_body]
fn draw_below(bound: u64) -> (r: u64)
    requires
        bound > 0,
    ensures
        r < bound,
{
    rand::Rng::gen_range(&mut rand::thread_rng(), 0u64, bound)
}

/// The seconds of a jittered wait with whole-second bound `bound`: drawn below
/// `bound`, and no wait at all where `bound` is zero.
pub fn jittered_secs(bound: u64) -> (r: u64)
    ensures
        bound == 0 ==> r == 0,
        bound > 0 ==> r < bound,
{
    if bound == 0 {
        0
    } else {
        draw_below(bound)
    }
}

} // verus!
