//! A model of the durable progress store: per stream, the rows recording
//! which heights were archived and under which archival-chain transaction,
//! together with the queries the coordinator and the info surface rely on
//! (latest archived, first archived, transaction id of a height, total
//! count).

use vstd::prelude::*;

verus! {

/// Query result: the archival-chain transaction id stored for a block.
#[derive(Debug, Clone, PartialEq)]
pub struct PsGetBlockTxid {
    pub wvm_archive_txid: String,
}

/// Query result: an extreme (first or last) archived block id of a stream.
#[derive(Debug, Clone, PartialEq)]
pub struct PsGetExtremeBlock {
    pub block_id: u64,
}

/// Query result: the total number of archived-block rows across streams.
#[derive(Debug, Clone, PartialEq)]
pub struct PsGetTotalBlocksCount {
    pub count: u64,
}

/// One row of a stream's progress table: an archived height and the
/// transaction that carries it on the archival chain.
#[derive(Debug, Clone, PartialEq)]
pub struct ArchivedRecord {
    pub block_id: u64,
    pub wvm_archive_txid: String,
}

/// The greatest element of a sequence of heights, if any.
pub open spec fn seq_max(s: Seq<u64>) -> Option<u64>
    decreases s.len(),
{
    if s.len() == 0 {
        Option::None
    } else {
        match seq_max(s.drop_last()) {
            Option::None => Option::Some(s.last()),
            Option::Some(m) => if s.last() >= m {
                Option::Some(s.last())
            } else {
                Option::Some(m)
            },
        }
    }
}

/// The least element of a sequence of heights, if any.
pub open spec fn seq_min(s: Seq<u64>) -> Option<u64>
    decreases s.len(),
{
    if s.len() == 0 {
        Option::None
    } else {
        match seq_min(s.drop_last()) {
            Option::None => Option::Some(s.last()),
            Option::Some(m) => if s.last() <= m {
                Option::Some(s.last())
            } else {
                Option::Some(m)
            },
        }
    }
}

/// The transaction id stored for height `h`: that of the row recorded last,
/// so a re-recorded height answers with one consistent value.
pub open spec fn spec_txid_for(rows: Seq<ArchivedRecord>, h: u64) -> Option<Seq<char>>
    decreases rows.len(),
{
    if rows.len() == 0 {
        Option::None
    } else if rows.last().block_id == h {
        Option::Some(rows.last().wvm_archive_txid@)
    } else {
        spec_txid_for(rows.drop_last(), h)
    }
}

proof fn lemma_seq_max_push(s: Seq<u64>, x: u64)
    ensures
        seq_max(s.push(x)) matches Some(m)
            && m >= x
            && (seq_max(s) matches Some(b) ==> m >= b)
            && (seq_max(s) matches Some(b) ==> m == b || m == x)
            && (seq_max(s) is None ==> m == x),
{
    assert(s.push(x).drop_last() =~= s);
    assert(s.push(x).last() == x);
}

proof fn lemma_seq_min_push(s: Seq<u64>, x: u64)
    ensures
        seq_min(s.push(x)) matches Some(m)
            && m <= x
            && (seq_min(s) matches Some(b) ==> m <= b)
            && (seq_min(s) matches Some(b) ==> m == b || m == x)
            && (seq_min(s) is None ==> m == x),
{
    assert(s.push(x).drop_last() =~= s);
    assert(s.push(x).last() == x);
}

/// One stream's progress table, in insertion order.
pub struct StreamLedger {
    pub rows: Vec<ArchivedRecord>,
}

impl StreamLedger {
    /// The heights of the rows, in insertion order.
    pub open spec fn ids(&self) -> Seq<u64> {
        self.rows@.map_values(|r: ArchivedRecord| r.block_id)
    }

    /// The stream's last archived height: the greatest recorded height.
    pub open spec fn spec_latest(&self) -> Option<u64> {
        seq_max(self.ids())
    }

    /// The stream's first archived height: the least recorded height.
    pub open spec fn spec_first(&self) -> Option<u64> {
        seq_min(self.ids())
    }

    /// A table with no rows: the state of a fresh store.
    pub fn new() -> (r: StreamLedger)
        ensures
            r.rows@.len() == 0,
            r.spec_latest() is None,
            r.spec_first() is None,
    {
        StreamLedger { rows: Vec::new() }
    }

    /// Appends a row for an archived height.  The last archived height never
    /// decreases, and afterwards the stored transaction id for `block_id` is
    /// exactly the one recorded here.
    pub fn record_archived(&mut self, block_id: u64, txid: String)
        ensures
            final(self).rows@.len() == old(self).rows@.len() + 1,
            final(self).rows@.drop_last() == old(self).rows@,
            final(self).rows@.last().block_id == block_id,
            final(self).rows@.last().wvm_archive_txid == txid,
            final(self).spec_latest() matches Some(a)
                && a >= block_id
                && (old(self).spec_latest() matches Some(b) ==> a >= b)
                && (old(self).spec_latest() is None ==> a == block_id),
            spec_txid_for(final(self).rows@, block_id) == Option::Some(txid@),
    {
        let ghost old_ids = self.ids();
        self.rows.push(ArchivedRecord { block_id, wvm_archive_txid: txid });
        proof {
            assert(self.ids() =~= old_ids.push(block_id));
            lemma_seq_max_push(old_ids, block_id);
        }
    }

    /// The stream's last archived height, or nothing for a fresh store.
    pub fn latest_archived(&self) -> (r: Option<PsGetExtremeBlock>)
        ensures
            (r is Some) == (self.spec_latest() is Some),
            r matches Some(p) ==> self.spec_latest() == Option::Some(p.block_id),
    {
        let mut best: Option<u64> = Option::None;
        let mut i: usize = 0;
        while i < self.rows.len()
            invariant
                i <= self.rows@.len(),
                best == seq_max(self.ids().take(i as int)),
            decreases self.rows@.len() - i,
        {
            let id = self.rows[i].block_id;
            proof {
                assert(self.ids().take(i as int + 1).drop_last() =~= self.ids().take(i as int));
                assert(self.ids().take(i as int + 1).last() == self.ids()[i as int]);
            }
            best = match best {
                Option::Some(m) => if id > m {
                    Option::Some(id)
                } else {
                    Option::Some(m)
                },
                Option::None => Option::Some(id),
            };
            i = i + 1;
        }
        proof {
            assert(self.ids().take(self.rows@.len() as int) =~= self.ids());
        }
        match best {
            Option::Some(m) => Option::Some(PsGetExtremeBlock { block_id: m }),
            Option::None => Option::None,
        }
    }

    /// The stream's first archived height, or nothing for a fresh store.
    pub fn first_archived(&self) -> (r: Option<PsGetExtremeBlock>)
        ensures
            (r is Some) == (self.spec_first() is Some),
            r matches Some(p) ==> self.spec_first() == Option::Some(p.block_id),
    {
        let mut best: Option<u64> = Option::None;
        let mut i: usize = 0;
        while i < self.rows.len()
            invariant
                i <= self.rows@.len(),
                best == seq_min(self.ids().take(i as int)),
            decreases self.rows@.len() - i,
        {
            let id = self.rows[i].block_id;
            proof {
                assert(self.ids().take(i as int + 1).drop_last() =~= self.ids().take(i as int));
                assert(self.ids().take(i as int + 1).last() == self.ids()[i as int]);
            }
            best = match best {
                Option::Some(m) => if id < m {
                    Option::Some(id)
                } else {
                    Option::Some(m)
                },
                Option::None => Option::Some(id),
            };
            i = i + 1;
        }
        proof {
            assert(self.ids().take(self.rows@.len() as int) =~= self.ids());
        }
        match best {
            Option::Some(m) => Option::Some(PsGetExtremeBlock { block_id: m }),
            Option::None => Option::None,
        }
    }

    /// The transaction id stored for a height, answered from the row
    /// recorded last for that height.
    pub fn get_block_txid(&self, block_id: u64) -> (r: Option<PsGetBlockTxid>)
        ensures
            (r is Some) == (spec_txid_for(self.rows@, block_id) is Some),
            r matches Some(p)
                ==> spec_txid_for(self.rows@, block_id) == Option::Some(p.wvm_archive_txid@),
    {
        let mut found: Option<PsGetBlockTxid> = Option::None;
        let mut i: usize = 0;
        while i < self.rows.len()
            invariant
                i <= self.rows@.len(),
                (found is Some) == (spec_txid_for(self.rows@.take(i as int), block_id) is Some),
                found matches Some(p)
                    ==> spec_txid_for(self.rows@.take(i as int), block_id)
                        == Option::Some(p.wvm_archive_txid@),
            decreases self.rows@.len() - i,
        {
            proof {
                assert(self.rows@.take(i as int + 1).drop_last() =~= self.rows@.take(i as int));
                assert(self.rows@.take(i as int + 1).last() == self.rows@[i as int]);
            }
            if self.rows[i].block_id == block_id {
                found = Option::Some(
                    PsGetBlockTxid { wvm_archive_txid: self.rows[i].wvm_archive_txid.clone() },
                );
            }
            i = i + 1;
        }
        proof {
            assert(self.rows@.take(self.rows@.len() as int) =~= self.rows@);
        }
        found
    }
}

/// The total archived count the info surface reports: every row of both
/// streams' tables.
pub fn total_blocks_count(livesync: &StreamLedger, backfill: &StreamLedger) -> (r:
    PsGetTotalBlocksCount)
    requires
        livesync.rows@.len() + backfill.rows@.len() < u64::MAX,
    ensures
        r.count == livesync.rows@.len() + backfill.rows@.len(),
{
    let a: u64 = livesync.rows.len() as u64;
    let b: u64 = backfill.rows.len() as u64;
    PsGetTotalBlocksCount { count: a + b }
}

/// The heights of a sequence of rows, in order.
pub open spec fn ids_of(rows: Seq<ArchivedRecord>) -> Seq<u64> {
    rows.map_values(|r: ArchivedRecord| r.block_id)
}

/// Law: archiving cycles only ever append rows, so the last archived height
/// a stream reports is monotonically non-decreasing across successive
/// successful cycles.
pub proof fn lemma_latest_monotonic(rows: Seq<ArchivedRecord>, rec: ArchivedRecord)
    ensures
        seq_max(ids_of(rows.push(rec))) is Some,
        seq_max(ids_of(rows)) matches Some(b)
            ==> (seq_max(ids_of(rows.push(rec))) matches Some(a) ==> a >= b),
{
    assert(ids_of(rows.push(rec)) =~= ids_of(rows).push(rec.block_id));
    lemma_seq_max_push(ids_of(rows), rec.block_id);
}

/// Law: recording the same height twice, as a retry after a crash between
/// submission and record, leaves the last archived height where the first
/// record put it, and the stored transaction id for that height is the one
/// recorded last.
pub proof fn lemma_rerecord_consistent(rows: Seq<ArchivedRecord>, h: u64, t1: String, t2: String)
    ensures
        ({
            let once = rows.push(ArchivedRecord { block_id: h, wvm_archive_txid: t1 });
            let twice = once.push(ArchivedRecord { block_id: h, wvm_archive_txid: t2 });
            &&& seq_max(ids_of(twice)) == seq_max(ids_of(once))
            &&& spec_txid_for(twice, h) == Option::Some(t2@)
        }),
{
    let r1 = ArchivedRecord { block_id: h, wvm_archive_txid: t1 };
    let r2 = ArchivedRecord { block_id: h, wvm_archive_txid: t2 };
    let once = rows.push(r1);
    let twice = once.push(r2);
    assert(ids_of(once) =~= ids_of(rows).push(h));
    assert(ids_of(twice) =~= ids_of(once).push(h));
    lemma_seq_max_push(ids_of(rows), h);
    lemma_seq_max_push(ids_of(once), h);
    assert(twice.last() == r2);
}

} // verus!
