//! Per-identity accounts: profile, settings and aggregate trade statistics.
//!
//! A caller identity is a plain `u64` key; the boundary layer resolves
//! whatever opaque principal the hosting environment supplies into such a
//! key before calling in. All monetary and ratio quantities are fixed-point
//! integers counted in millionths of a unit, so additive profit accumulation
//! is exact.

use vstd::prelude::*;
use std::collections::HashMap;

verus! {

broadcast use vstd::std_specs::hash::group_hash_axioms;

/// Caller-supplied bot configuration. Values are stored verbatim; no range
/// is enforced. The three fixed-point fields are in millionths.
#[derive(Clone, Copy, PartialEq, Eq, Structural, Debug)]
pub struct BotSettings {
    pub min_profit_threshold: i64,
    pub max_trade_size: i64,
    pub slippage_tolerance: i64,
    pub auto_trading_enabled: bool,
}

/// The settings a freshly connected account starts with: a minimum profit
/// threshold of half a unit, a maximum trade size of a thousand units, a
/// slippage tolerance of one unit, and automatic trading switched off.
pub open spec fn spec_default_settings() -> BotSettings {
    BotSettings {
        min_profit_threshold: 500_000,
        max_trade_size: 1_000_000_000,
        slippage_tolerance: 1_000_000,
        auto_trading_enabled: false,
    }
}

impl Default for BotSettings {
    fn default() -> (s: BotSettings)
        ensures
            s == spec_default_settings(),
    {
        BotSettings {
            min_profit_threshold: 500_000,
            max_trade_size: 1_000_000_000,
            slippage_tolerance: 1_000_000,
            auto_trading_enabled: false,
        }
    }
}

/// One caller's account. `total_profit` is in millionths and wide enough to
/// hold the sum of every recordable trade's profit.
pub struct UserData {
    pub principal: u64,
    pub wallet_connected: bool,
    pub wallet_type: Option<String>,
    pub total_profit: i128,
    pub total_trades: u64,
    pub settings: BotSettings,
    pub created_at: u64,
}

/// The mathematical value of a `UserData`.
pub ghost struct UserDataView {
    pub principal: u64,
    pub wallet_connected: bool,
    pub wallet_type: Option<Seq<char>>,
    pub total_profit: int,
    pub total_trades: int,
    pub settings: BotSettings,
    pub created_at: u64,
}

impl View for UserData {
    type V = UserDataView;

    open spec fn view(&self) -> UserDataView {
        UserDataView {
            principal: self.principal,
            wallet_connected: self.wallet_connected,
            wallet_type: match self.wallet_type {
                Some(w) => Some(w@),
                None => None,
            },
            total_profit: self.total_profit as int,
            total_trades: self.total_trades as int,
            settings: self.settings,
            created_at: self.created_at,
        }
    }
}

impl Clone for UserData {
    fn clone(&self) -> (r: Self)
        ensures
            r@ == self@,
    {
        UserData {
            principal: self.principal,
            wallet_connected: self.wallet_connected,
            wallet_type: match &self.wallet_type {
                Some(w) => Some(w.clone()),
                None => None,
            },
            total_profit: self.total_profit,
            total_trades: self.total_trades,
            settings: self.settings,
            created_at: self.created_at,
        }
    }
}

/// `u` with its settings replaced and everything else kept.
pub open spec fn with_settings(u: UserDataView, settings: BotSettings) -> UserDataView {
    UserDataView {
        principal: u.principal,
        wallet_connected: u.wallet_connected,
        wallet_type: u.wallet_type,
        total_profit: u.total_profit,
        total_trades: u.total_trades,
        settings: settings,
        created_at: u.created_at,
    }
}

/// `u` after one more trade with the given profit.
pub open spec fn after_trade(u: UserDataView, profit: int) -> UserDataView {
    UserDataView {
        principal: u.principal,
        wallet_connected: u.wallet_connected,
        wallet_type: u.wallet_type,
        total_profit: u.total_profit + profit,
        total_trades: u.total_trades + 1,
        settings: u.settings,
        created_at: u.created_at,
    }
}

/// The account map after a trade by `identity`: the stats of that identity's
/// account grow if the account exists; an absent account is left absent — a
/// trade never creates one.
pub open spec fn accumulate_map(m: Map<u64, UserDataView>, identity: u64, profit: int) -> Map<
    u64,
    UserDataView,
> {
    if m.contains_key(identity) {
        m.insert(identity, after_trade(m[identity], profit))
    } else {
        m
    }
}

/// Keyed mapping from caller identity to that caller's account.
pub struct UserAccountStore {
    users: HashMap<u64, UserData>,
}

impl View for UserAccountStore {
    type V = Map<u64, UserDataView>;

    closed spec fn view(&self) -> Map<u64, UserDataView> {
        self.users@.map_values(|u: UserData| u@)
    }
}

proof fn lemma_view_insert(m: Map<u64, UserData>, k: u64, v: UserData)
    ensures
        m.insert(k, v).map_values(|u: UserData| u@) =~= m.map_values(|u: UserData| u@).insert(
            k,
            v@,
        ),
{
}

impl UserAccountStore {
    pub fn new() -> (s: UserAccountStore)
        ensures
            s@ == Map::<u64, UserDataView>::empty(),
    {
        let s = UserAccountStore { users: HashMap::new() };
        proof {
            assert(s@ =~= Map::<u64, UserDataView>::empty());
        }
        s
    }

    /// Inserts or fully replaces the account for `identity`; any stats the
    /// old account had accumulated are gone.
    pub fn upsert(&mut self, identity: u64, account: UserData)
        ensures
            final(self)@ == old(self)@.insert(identity, account@),
    {
        proof {
            lemma_view_insert(self.users@, identity, account);
        }
        self.users.insert(identity, account);
    }

    /// Pure read of the account for `identity`, if there is one.
    pub fn get(&self, identity: u64) -> (r: Option<&UserData>)
        ensures
            match r {
                Some(u) => self@.contains_key(identity) && u@ == self@[identity],
                None => !self@.contains_key(identity),
            },
    {
        self.users.get(&identity)
    }

    /// Replaces only the settings of an existing account; reports whether an
    /// account existed. No account is ever created here.
    pub fn update_settings(&mut self, identity: u64, settings: BotSettings) -> (found: bool)
        ensures
            found == old(self)@.contains_key(identity),
            found ==> final(self)@ == old(self)@.insert(
                identity,
                with_settings(old(self)@[identity], settings),
            ),
            !found ==> final(self)@ == old(self)@,
    {
        let current: Option<UserData> = match self.users.get(&identity) {
            Some(u) => Some(u.clone()),
            None => None,
        };
        match current {
            Some(u) => {
                let updated = UserData {
                    principal: u.principal,
                    wallet_connected: u.wallet_connected,
                    wallet_type: u.wallet_type,
                    total_profit: u.total_profit,
                    total_trades: u.total_trades,
                    settings: settings,
                    created_at: u.created_at,
                };
                proof {
                    lemma_view_insert(self.users@, identity, updated);
                }
                self.users.insert(identity, updated);
                true
            },
            None => false,
        }
    }

    /// Adds `profit_delta` to the profit and one to the trade count of the
    /// account for `identity`; silently does nothing when no such account
    /// exists.
    pub fn accumulate(&mut self, identity: u64, profit_delta: i64)
        requires
            old(self)@.contains_key(identity) ==> {
                &&& old(self)@[identity].total_trades < u64::MAX
                &&& i128::MIN <= old(self)@[identity].total_profit + profit_delta
                &&& old(self)@[identity].total_profit + profit_delta <= i128::MAX
            },
        ensures
            final(self)@ == accumulate_map(old(self)@, identity, profit_delta as int),
    {
        let current: Option<UserData> = match self.users.get(&identity) {
            Some(u) => Some(u.clone()),
            None => None,
        };
        match current {
            Some(u) => {
                let updated = UserData {
                    principal: u.principal,
                    wallet_connected: u.wallet_connected,
                    wallet_type: u.wallet_type,
                    total_profit: u.total_profit + profit_delta as i128,
                    total_trades: u.total_trades + 1,
                    settings: u.settings,
                    created_at: u.created_at,
                };
                proof {
                    lemma_view_insert(self.users@, identity, updated);
                }
                self.users.insert(identity, updated);
            },
            None => {},
        }
    }
}

} // verus!
