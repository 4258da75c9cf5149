use vstd::prelude::*;

verus! {

/// Attempt ceiling of the funding-request collaborator.
pub const MAX_FUNDING_ATTEMPTS: u64 = 5;

/// Fixed delay between two funding attempts, in seconds.
pub const FUNDING_RETRY_DELAY_SECS: u64 = 5;

/// The action the retry protocol asks its driver to take after one
/// funding attempt.
#[derive(Debug)]
pub enum FundingStep {
    /// The request was granted: stop and hand back the transaction
    /// identifier.
    Done(String),
    /// The request failed transiently: wait this many seconds and ask
    /// again.
    RetryAfterDelay(u64),
    /// The attempt ceiling is spent: surface the last error verbatim.
    Surface(String),
}

/// One decision of the bounded retry protocol around the funding
/// collaborator. `attempts_made` counts the attempts completed before
/// this outcome arrived. A grant ends the protocol at once; a failure
/// is retried after the fixed delay until the ceiling is reached, and
/// the last error is then surfaced unchanged.
pub fn funding_step(attempts_made: u64, outcome: Result<String, String>) -> (r: FundingStep)
    requires
        attempts_made < MAX_FUNDING_ATTEMPTS,
    ensures
        outcome matches Ok(s) ==> (r matches FundingStep::Done(t) && t@ == s@),
        outcome matches Err(e) ==> (attempts_made + 1 < MAX_FUNDING_ATTEMPTS ==> (
        r matches FundingStep::RetryAfterDelay(d) && d == FUNDING_RETRY_DELAY_SECS)),
        outcome matches Err(e) ==> (attempts_made + 1 >= MAX_FUNDING_ATTEMPTS ==> (
        r matches FundingStep::Surface(t) && t@ == e@)),
{
    match outcome {
        Ok(s) => FundingStep::Done(s),
        Err(e) => {
            if attempts_made + 1 < MAX_FUNDING_ATTEMPTS {
                FundingStep::RetryAfterDelay(FUNDING_RETRY_DELAY_SECS)
            } else {
                FundingStep::Surface(e)
            }
        },
    }
}

/// The first granted attempt at or after position `i`, before `n`.
pub open spec fn first_grant_from(outs: Seq<Result<String, String>>, i: int, n: int) -> Option<int>
    recommends
        0 <= i,
        n <= outs.len(),
    decreases n - i,
{
    if i >= n {
        None
    } else if outs[i] is Ok {
        Some(i)
    } else {
        first_grant_from(outs, i + 1, n)
    }
}

/// The whole bounded retry protocol over a given sequence of outcomes:
/// `outcomes[k]` is what the collaborator would answer to attempt
/// `k + 1`. The protocol returns the first grant among the first
/// [`MAX_FUNDING_ATTEMPTS`] outcomes; when all of them fail, it
/// surfaces the last of those errors verbatim. Later outcomes are never
/// consulted.
#[verifier::loop_isolation(false)]
pub fn run_funding(outcomes: Vec<Result<String, String>>) -> (r: Result<String, String>)
    requires
        outcomes@.len() >= MAX_FUNDING_ATTEMPTS,
    ensures
        match first_grant_from(outcomes@, 0, MAX_FUNDING_ATTEMPTS as int) {
            Some(i) => r matches Ok(s) && outcomes@[i] matches Ok(g) && s@ == g@,
            None => r matches Err(e) && outcomes@[MAX_FUNDING_ATTEMPTS - 1] matches Err(x) && e@
                == x@,
        },
{
    let ghost outs = outcomes@;
    let mut rest = outcomes;
    let mut attempts: u64 = 0;
    loop
        invariant
            attempts < MAX_FUNDING_ATTEMPTS,
            outs.len() >= MAX_FUNDING_ATTEMPTS,
            rest@ == outs.subrange(attempts as int, outs.len() as int),
            first_grant_from(outs, 0, MAX_FUNDING_ATTEMPTS as int) == first_grant_from(
                outs,
                attempts as int,
                MAX_FUNDING_ATTEMPTS as int,
            ),
        decreases MAX_FUNDING_ATTEMPTS - attempts,
    {
        let outcome = rest.remove(0);
        proof {
            assert(outcome == outs[attempts as int]);
        }
        match funding_step(attempts, outcome) {
            FundingStep::Done(s) => {
                proof {
                    assert(outs[attempts as int] is Ok);
                    assert(first_grant_from(outs, attempts as int, MAX_FUNDING_ATTEMPTS as int)
                        == Some(attempts as int));
                }
                return Ok(s);
            },
            FundingStep::Surface(e) => {
                proof {
                    assert(outs[attempts as int] is Err);
                    assert(attempts == MAX_FUNDING_ATTEMPTS - 1);
                    assert(first_grant_from(
                        outs,
                        MAX_FUNDING_ATTEMPTS as int,
                        MAX_FUNDING_ATTEMPTS as int,
                    ) is None);
                    assert(first_grant_from(outs, attempts as int, MAX_FUNDING_ATTEMPTS as int)
                        is None);
                }
                return Err(e);
            },
            FundingStep::RetryAfterDelay(_) => {
                proof {
                    assert(rest@ =~= outs.subrange(attempts + 1, outs.len() as int));
                    assert(outs[attempts as int] is Err);
                    assert(first_grant_from(outs, attempts as int, MAX_FUNDING_ATTEMPTS as int)
                        == first_grant_from(
                        outs,
                        attempts as int + 1,
                        MAX_FUNDING_ATTEMPTS as int,
                    ));
                }
                attempts = attempts + 1;
            },
        }
    }
}

} // verus!
