//! Connection establishment policy: a fixed number of immediate retries of
//! a timed transport connect, where the first success short-circuits. The
//! transport's per-attempt verdicts are injected, so the retry decision is
//! verified for every pattern of failures.

use vstd::prelude::*;

verus! {

/// How many transport connection attempts establishment makes before it
/// gives up.
pub const DEFAULT_CONNECT_ATTEMPTS: u32 = 3;

/// How establishment ended: connected on try number `attempts` (counting
/// from 1), or failed after exhausting `attempts` tries.
pub enum Establishment {
    Connected { attempts: u32 },
    Failed { attempts: u32 },
}

/// The retry loop of connection establishment, with the transport's
/// verdicts injected: `outcomes[i]` says whether attempt number `i + 1`
/// would succeed. Failed attempts are retried immediately, the first
/// success short-circuits, and after `max_attempts` failures
/// establishment fails. Establishment succeeds if and only if one of the
/// first `max_attempts` attempts succeeds.
pub fn establishment_result(outcomes: &Vec<bool>, max_attempts: u32) -> (r: Establishment)
    requires
        outcomes@.len() >= max_attempts,
    ensures
        (match r {
            Establishment::Connected { attempts } => {
                &&& 1 <= attempts <= max_attempts
                &&& outcomes@[attempts - 1]
                &&& forall|j: int| 0 <= j < attempts - 1 ==> !outcomes@[j]
            },
            Establishment::Failed { attempts } => {
                &&& attempts == max_attempts
                &&& forall|j: int| 0 <= j < max_attempts ==> !outcomes@[j]
            },
        }),
        (exists|i: int| 0 <= i < max_attempts && outcomes@[i]) <==> r is Connected,
{
    let mut i: u32 = 0;
    while i < max_attempts
        invariant
            i <= max_attempts,
            outcomes@.len() >= max_attempts,
            forall|j: int| 0 <= j < i ==> !outcomes@[j],
        decreases max_attempts - i,
    {
        if outcomes[i as usize] {
            return Establishment::Connected { attempts: i + 1 };
        }
        i = i + 1;
    }
    Establishment::Failed { attempts: max_attempts }
}

/// Retry law: if the transport refuses every attempt, establishment fails
/// after exactly the configured number of attempts — it neither gives up
/// early nor keeps trying.
pub proof fn lemma_exhausted_retries(outcomes: Seq<bool>, max_attempts: u32, r: Establishment)
    requires
        outcomes.len() >= max_attempts,
        forall|j: int| 0 <= j < outcomes.len() ==> !outcomes[j],
        (match r {
            Establishment::Connected { attempts } => {
                &&& 1 <= attempts <= max_attempts
                &&& outcomes[attempts - 1]
            },
            Establishment::Failed { attempts } => attempts == max_attempts,
        }),
    ensures
        r == (Establishment::Failed { attempts: max_attempts }),
{
}

} // verus!
