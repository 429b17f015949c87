//! Planning the one-shot account provisioning: the range of account
//! identifiers still missing is split into consecutive insertion batches.
//! Executing the inserts is the program's I/O; the plan is computed and
//! checked here.

use vstd::prelude::*;

verus! {

/// How many accounts one insertion batch creates.
pub const SETUP_BATCH_SIZE: u64 = 10_000;

/// The account population the large setup grows the table to.
pub const LARGE_SETUP_TARGET_ACCOUNTS: u64 = 1_000_000;

/// The balance every seeded account starts with.
pub const INITIAL_BALANCE: u64 = 100;

/// Split the missing account identifiers — those above `current` up to and
/// including `target` — into consecutive inclusive batches of at most
/// `batch` identifiers: the first batch starts right after `current`, each
/// batch ends `batch - 1` past its start or at `target`, whichever comes
/// first, each next batch starts right after the previous one ended, and the
/// last batch ends exactly at `target`.
pub fn insertion_batches(current: u64, target: u64, batch: u64) -> (r: Vec<(u64, u64)>)
    requires
        batch >= 1,
        current < target,
        target < u64::MAX,
    ensures
        r@.len() >= 1,
        r@[0].0 == current + 1,
        r@[r@.len() - 1].1 == target,
        forall|i: int|
            0 <= i < r@.len() ==> (#[trigger] r@[i]).1 == (if r@[i].0 + batch - 1 <= target {
                r@[i].0 + batch - 1
            } else {
                target as int
            }),
        forall|i: int| 0 <= i < r@.len() ==> (#[trigger] r@[i]).0 <= r@[i].1 <= target,
        forall|i: int| 0 <= i < r@.len() - 1 ==> (#[trigger] r@[i + 1]).0 == r@[i].1 + 1,
    {
        let mut r: Vec<(u64, u64)> = Vec::new();
        let mut next: u64 = current + 1;
        while next <= target
            invariant
                batch >= 1,
                current < target < u64::MAX,
                current + 1 <= next <= target + 1,
                r@.len() == 0 ==> next == current + 1,
                r@.len() >= 1 ==> r@[0].0 == current + 1,
                r@.len() >= 1 ==> r@[r@.len() - 1].1 == next - 1,
                next == target + 1 ==> r@.len() >= 1,
                forall|i: int|
                    0 <= i < r@.len() ==> (#[trigger] r@[i]).1 == (if r@[i].0 + batch - 1
                        <= target {
                        r@[i].0 + batch - 1
                    } else {
                        target as int
                    }),
                forall|i: int| 0 <= i < r@.len() ==> (#[trigger] r@[i]).0 <= r@[i].1 <= target,
                forall|i: int| 0 <= i < r@.len() - 1 ==> (#[trigger] r@[i + 1]).0 == r@[i].1 + 1,
            decreases target + 1 - next,
        {
            let end = if batch - 1 <= target - next {
                next + (batch - 1)
            } else {
                target
            };
            r.push((next, end));
            next = end + 1;
        }
        r
    }

} // verus!
