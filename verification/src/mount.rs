//! The device-acquisition retry protocol.
//!
//! The harness waits for the storage medium to become mountable: it attempts
//! to open the logical volume, and on failure emits a warning, suspends for a
//! fixed delay and tries again, without bound. The loop itself runs in the
//! unverified driver; here the protocol is modeled over the sequence of
//! attempt outcomes it observes, so that its one interesting property —
//! acquisition succeeds on exactly the first successful attempt, and a
//! failure is never surfaced to the caller — is stated and proved.

use vstd::prelude::*;

verus! {

/// Attempt `i` is the first mount attempt that succeeds: it succeeds and
/// every attempt before it fails.
pub open spec fn first_success(outcomes: Seq<bool>, i: int) -> bool {
    &&& 0 <= i < outcomes.len()
    &&& outcomes[i]
    &&& forall|j: int| 0 <= j < i ==> !outcomes[j]
}

/// Replays the retry protocol over a recorded prefix of mount-attempt
/// outcomes (`true` for a successful attempt): the index of the attempt the
/// protocol would return on, if the prefix holds one.
///
/// The protocol returns on the first successful attempt and on nothing else;
/// `None` means every attempt in the prefix failed and the protocol is still
/// retrying — it never turns a failed attempt into a result.
pub fn acquire_from_attempts(outcomes: &Vec<bool>) -> (r: Option<usize>)
    ensures
        r matches Some(i) ==> first_success(outcomes@, i as int),
        r is Some <==> exists|k: int| 0 <= k < outcomes@.len() && outcomes@[k],
{
    let n = outcomes.len();
    let mut i: usize = 0;
    while i < n
        invariant
            i <= n,
            n == outcomes@.len(),
            forall|j: int| 0 <= j < i ==> !outcomes@[j],
        decreases n - i,
    {
        if outcomes[i] {
            return Some(i);
        }
        i = i + 1;
    }
    None
}

/// Mount-retry liveness: against a medium that fails exactly `k` times and
/// then becomes mountable, the protocol returns on attempt `k` — after
/// exactly `k` retries — and on no other.
pub proof fn lemma_mount_retry_liveness(outcomes: Seq<bool>, k: int, i: int)
    requires
        0 <= k < outcomes.len(),
        outcomes[k],
        forall|j: int| 0 <= j < k ==> !outcomes[j],
        first_success(outcomes, i),
    ensures
        i == k,
{
    if i < k {
        assert(!outcomes[i]);
    } else if k < i {
        assert(!outcomes[k]);
    }
}

} // verus!
