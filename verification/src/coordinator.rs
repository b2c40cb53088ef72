//! The stream coordinator: decides, for each of the two archiving streams,
//! which block to work on next, and enforces the continuity invariant that
//! keeps backfill strictly below the live-sync start height.

use vstd::prelude::*;

verus! {

/// Which of the two archiving streams a value belongs to.
#[derive(Clone, Copy, PartialEq, Eq, Structural, Debug)]
pub enum StreamKind {
    LiveSync,
    Backfill,
}

/// Failure of an archiving attempt that the coordinator itself detects.
#[derive(Clone, Copy, PartialEq, Eq, Structural, Debug)]
pub enum ArchiveError {
    /// A backfill target reached or crossed the live-sync start height.
    ContinuityViolation,
    /// The encoded block is too large for the envelope's length prefix.
    PayloadTooLarge,
}

/// Rejected configuration: a sender identity equals the archive destination.
#[derive(Clone, Copy, PartialEq, Eq, Structural, Debug)]
pub enum ConfigError {
    SelfSend,
}

/// Static, process-wide network configuration, loaded once at startup and
/// passed by reference into every component.  `block_time` is the nominal
/// block production interval in whole seconds; `start_block` is the
/// live-sync start height, which doubles as the continuity checkpoint that
/// backfill must never reach.
pub struct Network {
    pub name: String,
    pub wvm_chain_id: u32,
    pub network_rpc: String,
    pub wvm_rpc: String,
    pub block_time: u64,
    pub start_block: u64,
    pub archiver_address: String,
    pub backfill_address: String,
    pub archive_pool_address: String,
}

impl Network {
    /// Neither sender identity may equal the archive destination address:
    /// a self-send would let one stream archive into its own source of funds.
    pub open spec fn wf(&self) -> bool {
        self.archiver_address@ != self.archive_pool_address@
            && self.backfill_address@ != self.archive_pool_address@
    }

    /// Builds a configuration from already-loaded plain values, rejecting a
    /// self-send at load time.  Succeeds exactly on well-formed inputs.
    pub fn from_parts(
        name: String,
        wvm_chain_id: u32,
        network_rpc: String,
        wvm_rpc: String,
        block_time: u64,
        start_block: u64,
        archiver_address: String,
        backfill_address: String,
        archive_pool_address: String,
    ) -> (r: Result<Network, ConfigError>)
        ensures
            (r is Ok) == (archiver_address@ != archive_pool_address@
                && backfill_address@ != archive_pool_address@),
            r matches Ok(n) ==> n.wf() && n.name == name && n.wvm_chain_id == wvm_chain_id
                && n.network_rpc == network_rpc && n.wvm_rpc == wvm_rpc
                && n.block_time == block_time && n.start_block == start_block
                && n.archiver_address == archiver_address
                && n.backfill_address == backfill_address
                && n.archive_pool_address == archive_pool_address,
            r matches Err(e) ==> e == ConfigError::SelfSend,
    {
        if archiver_address == archive_pool_address {
            Err(ConfigError::SelfSend)
        } else if backfill_address == archive_pool_address {
            Err(ConfigError::SelfSend)
        } else {
            Ok(Network {
                name,
                wvm_chain_id,
                network_rpc,
                wvm_rpc,
                block_time,
                start_block,
                archiver_address,
                backfill_address,
                archive_pool_address,
            })
        }
    }
}

/// What one polling cycle of a stream should do next: archive one block, or
/// sleep for the network's nominal block time and poll again.
#[derive(Clone, Copy, PartialEq, Eq, Structural, Debug)]
pub enum PollDecision {
    Archive { height: u64 },
    Wait { seconds: u64 },
}

/// The archiving target a stream falls back to when no explicit height is
/// given: the configured live-sync start height, or the configured backfill
/// start height.
pub open spec fn spec_target(
    block_number: Option<u64>,
    kind: StreamKind,
    start_block: u64,
    backfill_start: u64,
) -> u64 {
    match block_number {
        Option::Some(h) => h,
        Option::None => if kind == StreamKind::LiveSync {
            start_block
        } else {
            backfill_start
        },
    }
}

/// Picks the height an archiving attempt is about, and refuses a backfill
/// target at or past the continuity checkpoint before anything is fetched,
/// encoded or submitted.
pub fn resolve_target(
    block_number: Option<u64>,
    kind: StreamKind,
    cfg: &Network,
    backfill_start: u64,
) -> (r: Result<u64, ArchiveError>)
    ensures
        ({
            let t = spec_target(block_number, kind, cfg.start_block, backfill_start);
            if kind == StreamKind::Backfill && t >= cfg.start_block {
                r == Err::<u64, ArchiveError>(ArchiveError::ContinuityViolation)
            } else {
                r == Ok::<u64, ArchiveError>(t)
            }
        }),
{
    let target: u64 = match block_number {
        Option::Some(h) => h,
        Option::None => match kind {
            StreamKind::LiveSync => cfg.start_block,
            StreamKind::Backfill => backfill_start,
        },
    };
    if matches!(kind, StreamKind::Backfill) && target >= cfg.start_block {
        Err(ArchiveError::ContinuityViolation)
    } else {
        Ok(target)
    }
}

/// The next height a stream's polling cycle works on, given the height to be
/// archived next and the current view of the chain.  Live-sync archives while
/// it trails the head by more than one block; backfill archives while it is
/// strictly below the continuity checkpoint, and otherwise waits.
pub open spec fn spec_poll(
    kind: StreamKind,
    start_block: u64,
    block_time: u64,
    next: u64,
    head: u64,
) -> PollDecision {
    if kind == StreamKind::LiveSync {
        if next + 1 < head {
            PollDecision::Archive { height: next }
        } else {
            PollDecision::Wait { seconds: block_time }
        }
    } else {
        if next < start_block {
            PollDecision::Archive { height: next }
        } else {
            PollDecision::Wait { seconds: block_time }
        }
    }
}

/// A stream's local cursor: the height it will archive next.  The height last
/// archived by the stream, if any, is `next - 1`; `next` never moves
/// backwards, so the last archived height is non-decreasing across cycles.
pub struct StreamCursor {
    pub kind: StreamKind,
    pub next: u64,
}

impl StreamCursor {
    /// Where a stream resumes after a restart: one past the last height the
    /// progress store knows of, or the stream's configured start height when
    /// the store has no record.
    pub fn resume(
        kind: StreamKind,
        cfg: &Network,
        backfill_start: u64,
        latest: Option<u64>,
    ) -> (r: StreamCursor)
        requires
            latest matches Some(h) ==> h < u64::MAX,
        ensures
            r.kind == kind,
            latest matches Some(h) ==> r.next == h + 1,
            latest is None && kind == StreamKind::LiveSync ==> r.next == cfg.start_block,
            latest is None && kind == StreamKind::Backfill ==> r.next == backfill_start,
    {
        let next: u64 = match latest {
            Option::Some(h) => h + 1,
            Option::None => match kind {
                StreamKind::LiveSync => cfg.start_block,
                StreamKind::Backfill => backfill_start,
            },
        };
        StreamCursor { kind, next }
    }

    /// One polling decision.  A backfill cursor is never told to archive a
    /// height at or past the continuity checkpoint.
    pub fn step(&self, cfg: &Network, head: u64) -> (r: PollDecision)
        ensures
            r == spec_poll(self.kind, cfg.start_block, cfg.block_time, self.next, head),
            r matches PollDecision::Archive { height } ==> height == self.next,
            self.kind == StreamKind::Backfill
                ==> (r matches PollDecision::Archive { height } ==> height < cfg.start_block),
    {
        match self.kind {
            StreamKind::LiveSync => {
                if head > self.next && head - self.next > 1 {
                    PollDecision::Archive { height: self.next }
                } else {
                    PollDecision::Wait { seconds: cfg.block_time }
                }
            },
            StreamKind::Backfill => {
                if self.next < cfg.start_block {
                    PollDecision::Archive { height: self.next }
                } else {
                    PollDecision::Wait { seconds: cfg.block_time }
                }
            },
        }
    }

    /// Moves past a successfully archived and recorded height.  The cursor
    /// only ever advances, so the stream's last archived height never
    /// decreases.
    pub fn advance(&mut self)
        requires
            old(self).next < u64::MAX,
        ensures
            final(self).kind == old(self).kind,
            final(self).next == old(self).next + 1,
    {
        self.next = self.next + 1;
    }
}

/// The gap the info surface reports between the live chain head and the last
/// live-synced height (zero when the archive is caught up or ahead).
pub fn blocks_behind(head: u64, last_livesync: Option<u64>) -> (r: u64)
    ensures
        ({
            let l = match last_livesync {
                Option::Some(h) => h,
                Option::None => 0u64,
            };
            r == if l <= head {
                (head - l) as u64
            } else {
                0u64
            }
        }),
{
    let last: u64 = match last_livesync {
        Option::Some(h) => h,
        Option::None => 0u64,
    };
    if last <= head {
        head - last
    } else {
        0u64
    }
}

} // verus!
