//! The operation surface: connect a wallet, save settings, record a trade,
//! read an account, read the ledger. The caller's identity and the current
//! time are explicit parameters; the boundary layer resolves both and passes
//! them in, so this core never reads ambient state.

use vstd::prelude::*;
use vstd::string::StringExecFns;
use crate::accounts::{
    accumulate_map, spec_default_settings, with_settings, BotSettings, UserAccountStore, UserData,
    UserDataView,
};
use crate::ids::{id_text, IdentifierAllocator};
use crate::ledger::{trade_record_view, TradeLedger, TradeRecord, TradeRecordView};

verus! {

/// Magnitude bound on a single trade's profit: one more than `i64::MAX`, so
/// every `i64` profit `p` satisfies `-profit_bound() <= p < profit_bound()`.
pub open spec fn profit_bound() -> int {
    0x8000_0000_0000_0000
}

/// The account `connect_wallet` installs: connected, the given wallet label,
/// zeroed stats, default settings, created now.
pub open spec fn fresh_account(identity: u64, wallet_type: Seq<char>, now: u64) -> UserDataView {
    UserDataView {
        principal: identity,
        wallet_connected: true,
        wallet_type: Some(wallet_type),
        total_profit: 0,
        total_trades: 0,
        settings: spec_default_settings(),
        created_at: now,
    }
}

/// The error message every failing operation surfaces.
pub open spec fn not_found_message() -> Seq<char> {
    "User not found"@
}

/// What holds of each stored account when the ledger holds `trades` records:
/// it is keyed by its own principal, its trade count never exceeds the number
/// of records ever made, and its accumulated profit is bounded by that count
/// times the largest single-trade magnitude.
pub open spec fn account_ok(u: UserDataView, identity: u64, trades: int) -> bool {
    &&& u.principal == identity
    &&& 0 <= u.total_trades <= trades
    &&& -(u.total_trades * profit_bound()) <= u.total_profit <= u.total_trades * profit_bound()
}

/// Law: recording a trade never creates an account — the domain of the
/// account map is unchanged, and for an identity that never connected the
/// whole map is unchanged, though the ledger entry is still made.
pub proof fn lemma_trade_creates_no_account(m: Map<u64, UserDataView>, identity: u64, profit: int)
    ensures
        accumulate_map(m, identity, profit).dom() == m.dom(),
        !m.contains_key(identity) ==> accumulate_map(m, identity, profit) == m,
{
    assert(accumulate_map(m, identity, profit).dom() =~= m.dom());
}

/// Law: two trades recorded for a connected identity add both profits to the
/// account's total and add two to its trade count, whatever it held before.
pub proof fn lemma_two_trades_accumulate(
    m: Map<u64, UserDataView>,
    identity: u64,
    p1: int,
    p2: int,
)
    requires
        m.contains_key(identity),
    ensures
        accumulate_map(accumulate_map(m, identity, p1), identity, p2)[identity].total_profit
            == m[identity].total_profit + p1 + p2,
        accumulate_map(accumulate_map(m, identity, p1), identity, p2)[identity].total_trades
            == m[identity].total_trades + 2,
{
}

/// Law: connecting a wallet installs an account with zeroed stats and default
/// settings whatever the map held for that identity before — in particular a
/// reconnect resets stats accumulated by trades recorded in between.
pub proof fn lemma_reconnect_resets_stats(
    m: Map<u64, UserDataView>,
    identity: u64,
    wallet_type: Seq<char>,
    now: u64,
)
    ensures
        m.insert(identity, fresh_account(identity, wallet_type, now))[identity].total_profit == 0,
        m.insert(identity, fresh_account(identity, wallet_type, now))[identity].total_trades == 0,
        m.insert(identity, fresh_account(identity, wallet_type, now))[identity].wallet_connected,
        m.insert(identity, fresh_account(identity, wallet_type, now))[identity].settings
            == spec_default_settings(),
{
}

/// The state behind every boundary operation: the account store, the trade
/// ledger and the identifier allocator, mutated one whole operation at a
/// time.
pub struct AccountService {
    users: UserAccountStore,
    ledger: TradeLedger,
    alloc: IdentifierAllocator,
}

impl AccountService {
    /// The account map, by caller identity.
    pub closed spec fn users_view(self) -> Map<u64, UserDataView> {
        self.users@
    }

    /// The ledger contents, in insertion order.
    pub closed spec fn trades_view(self) -> Seq<TradeRecordView> {
        self.ledger@
    }

    /// The counter value the next recorded trade's identifier will use.
    pub closed spec fn next_counter(self) -> nat {
        self.alloc.counter()
    }

    /// Well-formedness: the allocator has allocated exactly one identifier
    /// per ledger record, record `i` carries the identifier text of counter
    /// value `i + 1`, and every account satisfies `account_ok`.
    pub closed spec fn wf(self) -> bool {
        &&& self.alloc.wf()
        &&& self.next_counter() == self.trades_view().len() + 1
        &&& forall|i: int|
            0 <= i < self.trades_view().len() ==> (#[trigger] self.trades_view()[i]).id == id_text(
                (i + 1) as nat,
            )
        &&& forall|identity: u64|
            #[trigger] self.users_view().contains_key(identity) ==> account_ok(
                self.users_view()[identity],
                identity,
                self.trades_view().len() as int,
            )
    }

    /// A fresh service: no accounts, no trades, the counter at its start.
    pub fn new() -> (s: AccountService)
        ensures
            s.wf(),
            s.users_view() == Map::<u64, UserDataView>::empty(),
            s.trades_view() == Seq::<TradeRecordView>::empty(),
            s.next_counter() == 1,
    {
        AccountService {
            users: UserAccountStore::new(),
            ledger: TradeLedger::new(),
            alloc: IdentifierAllocator::new(),
        }
    }

    /// How many trades have been recorded so far.
    pub fn trade_count(&self) -> (n: usize)
        ensures
            n == self.trades_view().len(),
    {
        self.ledger.len()
    }

    /// Creates or fully replaces the account for `identity`: connected, the
    /// given wallet label, zeroed stats, default settings, created at `now`.
    /// Always succeeds; a replaced account's accumulated stats are gone.
    pub fn connect_wallet(&mut self, identity: u64, wallet_type: String, now: u64) -> (r: Result<
        (),
        String,
    >)
        requires
            old(self).wf(),
        ensures
            final(self).wf(),
            r == Ok::<(), String>(()),
            final(self).users_view() == old(self).users_view().insert(
                identity,
                fresh_account(identity, wallet_type@, now),
            ),
            final(self).trades_view() == old(self).trades_view(),
            final(self).next_counter() == old(self).next_counter(),
    {
        let account = UserData {
            principal: identity,
            wallet_connected: true,
            wallet_type: Some(wallet_type),
            total_profit: 0,
            total_trades: 0,
            settings: BotSettings::default(),
            created_at: now,
        };
        self.users.upsert(identity, account);
        proof {
            let m0 = old(self).users_view();
            let m1 = self.users_view();
            let trades = self.trades_view().len() as int;
            assert forall|id: u64| #[trigger] m1.contains_key(id) implies account_ok(
                m1[id],
                id,
                trades,
            ) by {
                if id != identity {
                    assert(m0.contains_key(id));
                } else {
                    assert(0 * profit_bound() == 0) by (nonlinear_arith);
                }
            }
        }
        Ok(())
    }

    /// Replaces only the settings of the caller's account. Fails with the
    /// not-found message, changing nothing, exactly when `identity` never
    /// connected; no account is created.
    pub fn save_settings(&mut self, identity: u64, settings: BotSettings) -> (r: Result<
        (),
        String,
    >)
        requires
            old(self).wf(),
        ensures
            final(self).wf(),
            final(self).trades_view() == old(self).trades_view(),
            final(self).next_counter() == old(self).next_counter(),
            match r {
                Ok(()) => old(self).users_view().contains_key(identity)
                    && final(self).users_view() == old(self).users_view().insert(
                    identity,
                    with_settings(old(self).users_view()[identity], settings),
                ),
                Err(m) => !old(self).users_view().contains_key(identity) && m@
                    == not_found_message() && final(self).users_view() == old(self).users_view(),
            },
    {
        let found = self.users.update_settings(identity, settings);
        if found {
            proof {
                let m0 = old(self).users_view();
                let m1 = self.users_view();
                let trades = self.trades_view().len() as int;
                assert forall|id: u64| #[trigger] m1.contains_key(id) implies account_ok(
                    m1[id],
                    id,
                    trades,
                ) by {
                    assert(m0.contains_key(id));
                }
            }
            Ok(())
        } else {
            Err(String::from_str("User not found"))
        }
    }

    /// Records a trade for `identity`: appends a completed record under the
    /// next identifier and, if the identity has an account, accumulates the
    /// profit into it — an identity that never connected still gets its trade
    /// into the ledger, but no account is created. Always returns the new
    /// identifier.
    pub fn record_trade(&mut self, identity: u64, token_pair: String, profit: i64, now: u64) -> (r:
        Result<String, String>)
        requires
            old(self).wf(),
            old(self).next_counter() < u64::MAX,
            old(self).next_counter() <= usize::MAX,
        ensures
            final(self).wf(),
            final(self).next_counter() == old(self).next_counter() + 1,
            final(self).trades_view() == old(self).trades_view().push(
                trade_record_view(
                    id_text(old(self).next_counter()),
                    token_pair@,
                    profit as int,
                    now,
                ),
            ),
            final(self).users_view() == accumulate_map(
                old(self).users_view(),
                identity,
                profit as int,
            ),
            match r {
                Ok(id) => id@ == id_text(old(self).next_counter()),
                Err(_) => false,
            },
    {
        proof {
            let m0 = old(self).users_view();
            let len = old(self).trades_view().len() as int;
            if m0.contains_key(identity) {
                let tt = m0[identity].total_trades;
                let tp = m0[identity].total_profit;
                assert(tt * profit_bound() <= len * profit_bound()) by (nonlinear_arith)
                    requires
                        0 <= tt <= len,
                ;
                assert(i128::MIN <= tp + profit <= i128::MAX);
            }
        }
        let id = self.ledger.record(
            &mut self.alloc,
            &mut self.users,
            identity,
            token_pair,
            profit,
            now,
        );
        proof {
            let m0 = old(self).users_view();
            let m1 = self.users_view();
            let trades = self.trades_view().len() as int;
            assert forall|id2: u64| #[trigger] m1.contains_key(id2) implies account_ok(
                m1[id2],
                id2,
                trades,
            ) by {
                assert(m0.contains_key(id2));
                if m0.contains_key(identity) && id2 == identity {
                    let tt = m0[identity].total_trades;
                    assert((tt + 1) * profit_bound() == tt * profit_bound() + profit_bound())
                        by (nonlinear_arith);
                }
            }
        }
        Ok(id)
    }

    /// Pure read of the caller's account: a copy of it when `identity` has
    /// one, otherwise the not-found message.
    pub fn get_user_data(&self, identity: u64) -> (r: Result<UserData, String>)
        ensures
            match r {
                Ok(u) => self.users_view().contains_key(identity)
                    && u@ == self.users_view()[identity],
                Err(m) => !self.users_view().contains_key(identity) && m@ == not_found_message(),
            },
    {
        match self.users.get(identity) {
            Some(u) => Ok(u.clone()),
            None => Err(String::from_str("User not found")),
        }
    }

    /// Pure read of the whole ledger, in insertion order: every record ever
    /// made, whichever identity recorded it.
    pub fn get_trade_history(&self) -> (r: Vec<TradeRecord>)
        ensures
            r@.len() == self.trades_view().len(),
            forall|i: int| 0 <= i < r@.len() ==> r@[i]@ == self.trades_view()[i],
    {
        self.ledger.list_all()
    }
}

} // verus!
