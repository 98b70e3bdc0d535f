//! The polling loop's cursor decisions.
//!
//! The loop around these — fetch a page, store what decoded, sleep —
//! performs I/O and lives outside; what is decided between iterations is
//! here: where to resume after a restart, and where the next poll starts.

use vstd::prelude::*;

verus! {

/// Where to resume scanning after a restart: the persisted ledger when
/// one was saved, else the configured starting ledger.
pub fn resume_ledger(last_ledger: i64, start_ledger: u32) -> (r: u32)
    ensures
        r == (if last_ledger > 0 {
            last_ledger as u32
        } else {
            start_ledger
        }),
{
    if last_ledger > 0 {
        #[verifier::truncate] (last_ledger as u32)
    } else {
        start_ledger
    }
}

/// Where the next poll starts: the latest ledger the RPC reported, but
/// never moving backwards past the current start.
pub fn next_start_ledger(latest_ledger: Option<u64>, start_ledger: u32) -> (r: u32)
    ensures
        match latest_ledger {
            Some(l) => r == (if (l as u32) > start_ledger {
                l as u32
            } else {
                start_ledger
            }),
            None => r == start_ledger,
        },
{
    match latest_ledger {
        Some(l) => {
            let lu: u32 = #[verifier::truncate] (l as u32);
            if lu > start_ledger {
                lu
            } else {
                start_ledger
            }
        },
        None => start_ledger,
    }
}

} // verus!
