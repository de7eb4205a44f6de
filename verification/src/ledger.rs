//! The trade ledger: every recorded trade, in insertion order, each under a
//! unique identifier handed out by the allocator.

use vstd::prelude::*;
use vstd::string::StringExecFns;
use crate::accounts::{accumulate_map, UserAccountStore};
use crate::ids::{id_text, IdentifierAllocator};

verus! {

/// One recorded trade. `profit` is a fixed-point amount in millionths;
/// `status` is always the completed status, a trade has no further lifecycle.
pub struct TradeRecord {
    pub id: String,
    pub token_pair: String,
    pub profit: i64,
    pub timestamp: u64,
    pub status: String,
}

/// The mathematical value of a `TradeRecord`.
pub ghost struct TradeRecordView {
    pub id: Seq<char>,
    pub token_pair: Seq<char>,
    pub profit: int,
    pub timestamp: u64,
    pub status: Seq<char>,
}

impl View for TradeRecord {
    type V = TradeRecordView;

    open spec fn view(&self) -> TradeRecordView {
        TradeRecordView {
            id: self.id@,
            token_pair: self.token_pair@,
            profit: self.profit as int,
            timestamp: self.timestamp,
            status: self.status@,
        }
    }
}

impl Clone for TradeRecord {
    fn clone(&self) -> (r: Self)
        ensures
            r@ == self@,
    {
        TradeRecord {
            id: self.id.clone(),
            token_pair: self.token_pair.clone(),
            profit: self.profit,
            timestamp: self.timestamp,
            status: self.status.clone(),
        }
    }
}

/// The status every trade record carries from creation on.
pub open spec fn completed_status() -> Seq<char> {
    "completed"@
}

/// The record a trade with these inputs produces.
pub open spec fn trade_record_view(
    id: Seq<char>,
    token_pair: Seq<char>,
    profit: int,
    timestamp: u64,
) -> TradeRecordView {
    TradeRecordView { id, token_pair, profit, timestamp, status: completed_status() }
}

/// Keyed collection of trade records; the key of each record is its
/// identifier, and records are held in insertion order.
pub struct TradeLedger {
    records: Vec<TradeRecord>,
}

impl View for TradeLedger {
    type V = Seq<TradeRecordView>;

    closed spec fn view(&self) -> Seq<TradeRecordView> {
        self.records@.map_values(|t: TradeRecord| t@)
    }
}

impl TradeLedger {
    pub fn new() -> (l: TradeLedger)
        ensures
            l@ == Seq::<TradeRecordView>::empty(),
    {
        let l = TradeLedger { records: Vec::new() };
        proof {
            assert(l@ =~= Seq::<TradeRecordView>::empty());
        }
        l
    }

    pub fn len(&self) -> (n: usize)
        ensures
            n == self@.len(),
    {
        self.records.len()
    }

    /// Records a trade: allocates the next identifier, appends a completed
    /// record with it, and accumulates the profit into the owner's account —
    /// the append happens even when `owner` has no account, in which case the
    /// account map is left untouched.
    pub fn record(
        &mut self,
        alloc: &mut IdentifierAllocator,
        users: &mut UserAccountStore,
        owner: u64,
        token_pair: String,
        profit: i64,
        now: u64,
    ) -> (id: String)
        requires
            old(alloc).wf(),
            old(alloc).counter() < u64::MAX,
            old(users)@.contains_key(owner) ==> {
                &&& old(users)@[owner].total_trades < u64::MAX
                &&& i128::MIN <= old(users)@[owner].total_profit + profit
                &&& old(users)@[owner].total_profit + profit <= i128::MAX
            },
        ensures
            final(alloc).wf(),
            final(alloc).counter() == old(alloc).counter() + 1,
            id@ == id_text(old(alloc).counter()),
            final(self)@ == old(self)@.push(
                trade_record_view(id_text(old(alloc).counter()), token_pair@, profit as int, now),
            ),
            final(users)@ == accumulate_map(old(users)@, owner, profit as int),
    {
        let trade_id = alloc.generate_id();
        let trade = TradeRecord {
            id: trade_id.clone(),
            token_pair,
            profit,
            timestamp: now,
            status: String::from_str("completed"),
        };
        let ghost records_pre = self.records@;
        self.records.push(trade);
        proof {
            assert(self@ =~= records_pre.map_values(|t: TradeRecord| t@).push(
                trade_record_view(id_text(old(alloc).counter()), token_pair@, profit as int, now),
            ));
        }
        users.accumulate(owner, profit);
        trade_id
    }

    /// Every record currently in the ledger, in insertion order, regardless
    /// of which identity recorded it.
    pub fn list_all(&self) -> (r: Vec<TradeRecord>)
        ensures
            r@.len() == self@.len(),
            forall|i: int| 0 <= i < r@.len() ==> r@[i]@ == self@[i],
    {
        let mut out: Vec<TradeRecord> = Vec::new();
        let mut i: usize = 0;
        while i < self.records.len()
            invariant
                i <= self.records.len(),
                out@.len() == i,
                forall|j: int| 0 <= j < i ==> out@[j]@ == self@[j],
            decreases self.records.len() - i,
        {
            out.push(self.records[i].clone());
            i = i + 1;
        }
        out
    }
}

} // verus!
