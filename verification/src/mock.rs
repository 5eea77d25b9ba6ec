//! A mock host for exercising the pallet: fixed configuration values, a
//! deterministic block-driven clock, and a constructor for a fresh test
//! environment, mirroring how the pallet would be wired into a runtime.

use vstd::prelude::*;

use crate::AccountId;
use crate::Config;
use crate::Moment;
use crate::Pallet;

verus! {

/// The operator account in the mock runtime.
pub const ALICE: AccountId = 1;

/// An account with no privileges.
pub const BOB: AccountId = 2;

/// Upper bound on event size in the mock configuration.
pub const MAX_EVENT_SIZE: u32 = 1028 * 1028;

/// Staleness window in the mock configuration.
pub const STALE_TIME: Moment = 10_000;

/// Base unsigned priority in the mock configuration.
pub const UNSIGNED_PRIORITY: u64 = 1000;

/// Clock reading associated with block zero.
pub const INIT_TIMESTAMP: u64 = 30_000;

/// Clock advance per block.
pub const BLOCK_TIME: u64 = 1000;

/// A self-contained test environment: the pallet plus the host state it is
/// driven with (block counter and clock).
pub struct TestExternalities {
    pub oracle: Pallet,
    pub system_block: u64,
    pub timestamp: Moment,
}

/// The mock configuration: `ALICE` operates the feed.
pub fn mock_config() -> (c: Config)
    ensures
        c == (Config {
            operator_account: ALICE,
            max_event_size: MAX_EVENT_SIZE,
            stale_time: STALE_TIME,
            unsigned_priority: UNSIGNED_PRIORITY,
        }),
{
    Config {
        operator_account: ALICE,
        max_event_size: MAX_EVENT_SIZE,
        stale_time: STALE_TIME,
        unsigned_priority: UNSIGNED_PRIORITY,
    }
}

/// A fresh environment: empty pallet under the mock configuration, at block 1
/// with the clock not yet set.
pub fn new_test_ext() -> (ext: TestExternalities)
    ensures
        ext.oracle.wf(),
        ext.oracle.feeds() == Map::<Moment, Seq<u8>>::empty(),
        ext.oracle.most_recent_moment() == 0,
        ext.oracle.spec_config() == (Config {
            operator_account: ALICE,
            max_event_size: MAX_EVENT_SIZE,
            stale_time: STALE_TIME,
            unsigned_priority: UNSIGNED_PRIORITY,
        }),
        ext.oracle.spec_deposited() == Seq::<crate::Event>::empty(),
        ext.system_block == 1,
        ext.timestamp == 0,
{
    TestExternalities { oracle: Pallet::new(mock_config()), system_block: 1, timestamp: 0 }
}

/// Advances the mock host to block `n`, setting the clock for each block
/// passed; a no-op when already at or past `n`. The pallet itself is
/// untouched.
pub fn run_to_block(ext: &mut TestExternalities, n: u64)
    requires
        n * BLOCK_TIME + INIT_TIMESTAMP <= u64::MAX,
    ensures
        final(ext).oracle == old(ext).oracle,
        old(ext).system_block >= n ==> *final(ext) == *old(ext),
        old(ext).system_block < n ==> final(ext).system_block == n && final(ext).timestamp == n
            * BLOCK_TIME + INIT_TIMESTAMP,
{
    while ext.system_block < n
        invariant
            n * BLOCK_TIME + INIT_TIMESTAMP <= u64::MAX,
            ext.oracle == old(ext).oracle,
            old(ext).system_block >= n ==> *ext == *old(ext),
            old(ext).system_block < n ==> old(ext).system_block <= ext.system_block <= n,
            ext.system_block == old(ext).system_block ==> ext.timestamp == old(ext).timestamp,
            ext.system_block != old(ext).system_block ==> ext.timestamp == ext.system_block
                * BLOCK_TIME + INIT_TIMESTAMP,
        decreases n - ext.system_block,
    {
        let next: u64 = ext.system_block + 1;
        ext.system_block = next;
        ext.timestamp = next * BLOCK_TIME + INIT_TIMESTAMP;
    }
}

} // verus!
