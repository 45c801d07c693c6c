use vstd::prelude::*;

verus! {

/// Retries after the first failed attempt to open the pool.
pub const MAX_RETRIES: u32 = 5;

/// Seconds to wait between two attempts.
pub const RETRY_DELAY_SECS: u64 = 3;

/// The bounds of the connection pool.
pub struct PoolSettings {
    pub max_connections: u32,
    pub min_connections: u32,
    pub idle_timeout_secs: u64,
    pub acquire_timeout_secs: u64,
}

/// The pool's bounds: 2 to 6 connections, idle ones recycled after 60 s,
/// an acquire that waits more than 30 s fails.
pub fn pool_settings() -> (r: PoolSettings)
    ensures
        r.max_connections == 6,
        r.min_connections == 2,
        r.idle_timeout_secs == 60,
        r.acquire_timeout_secs == 30,
{
    PoolSettings { max_connections: 6, min_connections: 2, idle_timeout_secs: 60, acquire_timeout_secs: 30 }
}

/// What to do after an attempt to open the pool.
#[derive(PartialEq, Eq, Structural, Clone, Copy, Debug)]
pub enum Next {
    /// The pool is open: start serving.
    Ready,
    /// Wait this many seconds, then try again.
    RetryAfter(u64),
    /// Retries are spent: startup fails.
    GiveUp,
}

pub open spec fn next_spec(attempt: nat, connected: bool) -> Next {
    if connected {
        Next::Ready
    } else if attempt < MAX_RETRIES {
        Next::RetryAfter(RETRY_DELAY_SECS)
    } else {
        Next::GiveUp
    }
}

/// The decision after attempt number `attempt` (counted from 0).
pub fn after_attempt(attempt: u32, connected: bool) -> (r: Next)
    requires
        attempt <= MAX_RETRIES,
    ensures
        r == next_spec(attempt as nat, connected),
{
    if connected {
        Next::Ready
    } else if attempt < MAX_RETRIES {
        Next::RetryAfter(RETRY_DELAY_SECS)
    } else {
        Next::GiveUp
    }
}

/// How startup ends when attempt `i` reaches the store iff `reachable[i]`
/// (attempts past the end of `reachable` fail): whether the pool opened,
/// and how many delays were waited.
pub open spec fn settle(reachable: Seq<bool>, attempt: nat) -> (bool, nat)
    decreases MAX_RETRIES - attempt,
{
    let ok = attempt < reachable.len() && reachable[attempt as int];
    match next_spec(attempt, ok) {
        Next::Ready => (true, 0),
        Next::GiveUp => (false, 0),
        Next::RetryAfter(_) => if attempt < MAX_RETRIES {
            let (c, d) = settle(reachable, attempt + 1);
            (c, d + 1)
        } else {
            (false, 0)
        },
    }
}

proof fn lemma_settle_from(reachable: Seq<bool>, attempt: nat, k: nat)
    requires
        attempt <= k <= MAX_RETRIES,
        k < reachable.len(),
        reachable[k as int],
        forall|i: int| 0 <= i < k ==> !reachable[i],
    ensures
        settle(reachable, attempt) == (true, (k - attempt) as nat),
    decreases k - attempt,
{
    if attempt < k {
        lemma_settle_from(reachable, attempt + 1, k);
    }
}

proof fn lemma_fail_from(reachable: Seq<bool>, attempt: nat)
    requires
        attempt <= MAX_RETRIES,
        forall|i: int| 0 <= i < reachable.len() ==> !reachable[i],
    ensures
        settle(reachable, attempt) == (false, (MAX_RETRIES - attempt) as nat),
    decreases MAX_RETRIES - attempt,
{
    if attempt < MAX_RETRIES {
        lemma_fail_from(reachable, attempt + 1);
    }
}

/// When the store refuses the first `k` attempts and accepts the next one,
/// with `k` at most the number of retries, startup succeeds after exactly
/// `k` delays; when it refuses all of them, startup fails after waiting
/// `MAX_RETRIES` delays.
pub proof fn lemma_retry_policy(reachable: Seq<bool>, k: nat)
    ensures
        k <= MAX_RETRIES && k < reachable.len() && reachable[k as int]
            && (forall|i: int| 0 <= i < k ==> !reachable[i]) ==> settle(reachable, 0) == (true, k),
        (forall|i: int| 0 <= i < reachable.len() ==> !reachable[i]) ==> settle(reachable, 0) == (
            false,
            MAX_RETRIES as nat,
        ),
{
    if k <= MAX_RETRIES && k < reachable.len() && reachable[k as int] && (forall|i: int|
        0 <= i < k ==> !reachable[i]) {
        lemma_settle_from(reachable, 0, k);
    }
    if forall|i: int| 0 <= i < reachable.len() ==> !reachable[i] {
        lemma_fail_from(reachable, 0);
    }
}

} // verus!
