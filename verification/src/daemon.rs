//! Waiting for blocks on a live chain, and the block as the chain reports it.

use vstd::prelude::*;

verus! {

/// How long the chain is left alone between two looks at its height, in
/// seconds.
pub const BLOCK_POLL_SECONDS: u64 = 4;

/// A point in time, in nanoseconds since the start of 1970.
#[derive(Debug, Clone, Copy, PartialEq, Eq, Structural)]
pub struct Timestamp {
    pub nanos: u64,
}

/// The block that a chain is at.
#[derive(Debug, PartialEq, Eq)]
pub struct BlockInfo {
    pub height: u64,
    pub time: Timestamp,
    pub chain_id: String,
}

/// A wait for the chain to reach a height.
#[derive(Debug, Clone, Copy, PartialEq, Eq, Structural)]
pub struct BlockWait {
    pub end_height: u64,
}

/// What the caller is to do next.
#[derive(Debug, Clone, Copy, PartialEq, Eq, Structural)]
pub enum WaitAction {
    /// Wait this long, ask the chain for its height, and come back with it.
    Sleep { seconds: u64 },
    /// The height is reached.
    Done,
}

/// What a wait asks for at `height`: another look while the chain is below
/// the height waited for.
pub open spec fn wait_action(end_height: u64, height: u64) -> WaitAction {
    if height < end_height {
        WaitAction::Sleep { seconds: BLOCK_POLL_SECONDS }
    } else {
        WaitAction::Done
    }
}

impl BlockWait {
    /// A wait for `amount` more blocks on a chain that is at `last_height`.
    pub fn wait_blocks(last_height: u64, amount: u64) -> (r: (BlockWait, WaitAction))
        requires
            last_height + amount <= u64::MAX,
        ensures
            r.0.end_height == last_height + amount,
            r.1 == wait_action(r.0.end_height, last_height),
    {
        let wait = BlockWait { end_height: last_height + amount };
        let action = wait.on_height(last_height);
        (wait, action)
    }

    /// A wait for `amount` more blocks on a chain that is at `last_height`,
    /// where the height waited for can be counted.
    pub fn checked_wait_blocks(last_height: u64, amount: u64) -> (r: Option<(BlockWait, WaitAction)>)
        ensures
            match r {
                Some(started) => last_height + amount <= u64::MAX && started.0.end_height
                    == last_height + amount && started.1 == wait_action(
                    started.0.end_height,
                    last_height,
                ),
                None => last_height + amount > u64::MAX,
            },
    {
        if amount <= u64::MAX - last_height {
            Some(Self::wait_blocks(last_height, amount))
        } else {
            None
        }
    }

    /// A wait for the next block on a chain that is at `last_height`.
    pub fn next_block(last_height: u64) -> (r: (BlockWait, WaitAction))
        requires
            last_height < u64::MAX,
        ensures
            r.0.end_height == last_height + 1,
            r.1 == (WaitAction::Sleep { seconds: BLOCK_POLL_SECONDS }),
    {
        Self::wait_blocks(last_height, 1)
    }

    /// What to do now that the chain is at `height`.
    pub fn on_height(&self, height: u64) -> (r: WaitAction)
        ensures
            r == wait_action(self.end_height, height),
    {
        if height < self.end_height {
            WaitAction::Sleep { seconds: BLOCK_POLL_SECONDS }
        } else {
            WaitAction::Done
        }
    }
}

/// The nanoseconds of a time span as they fit into 64 bits: the low 64 bits.
pub open spec fn low_nanos(nanos: u128) -> u64 {
    (nanos % 0x1_0000_0000_0000_0000) as u64
}

/// The block that a chain is at, from its header: the height, the time as
/// nanoseconds since the start of 1970, cut to 64 bits, and the chain's
/// identifier.
pub fn block_info(height: u64, nanos_since_epoch: u128, chain_id: String) -> (r: BlockInfo)
    ensures
        r.height == height,
        r.time.nanos == low_nanos(nanos_since_epoch),
        r.chain_id == chain_id,
{
    let nanos = (nanos_since_epoch % 0x1_0000_0000_0000_0000) as u64;
    BlockInfo { height, time: Timestamp { nanos }, chain_id }
}

} // verus!
