use open_arb_backend::accounts::BotSettings;
use open_arb_backend::ids::{id_string, IdentifierAllocator};
use open_arb_backend::service::AccountService;

#[test]
fn identifier_strings_are_formatted_decimals() {
    assert_eq!(id_string(0), "trade_0");
    assert_eq!(id_string(1), "trade_1");
    assert_eq!(id_string(9), "trade_9");
    assert_eq!(id_string(10), "trade_10");
    assert_eq!(id_string(12345), "trade_12345");
    assert_eq!(id_string(u64::MAX), "trade_18446744073709551615");
}

#[test]
fn allocator_never_repeats_and_counts_up() {
    let mut alloc = IdentifierAllocator::new();
    let mut seen: Vec<String> = Vec::new();
    for i in 1u64..=20 {
        let id = alloc.generate_id();
        assert_eq!(id, format!("trade_{}", i));
        assert!(!seen.contains(&id));
        seen.push(id);
    }
}

#[test]
fn connect_wallet_installs_defaults() {
    let mut s = AccountService::new();
    let r = s.connect_wallet(7, "metamask".to_string(), 100);
    assert_eq!(r, Ok(()));
    let u = s.get_user_data(7).unwrap();
    assert_eq!(u.principal, 7);
    assert!(u.wallet_connected);
    assert_eq!(u.wallet_type, Some("metamask".to_string()));
    assert_eq!(u.total_profit, 0);
    assert_eq!(u.total_trades, 0);
    assert_eq!(u.created_at, 100);
    assert_eq!(u.settings, BotSettings::default());
    assert_eq!(u.settings.min_profit_threshold, 500_000);
    assert_eq!(u.settings.max_trade_size, 1_000_000_000);
    assert_eq!(u.settings.slippage_tolerance, 1_000_000);
    assert!(!u.settings.auto_trading_enabled);
}

#[test]
fn trades_accumulate_profit_and_count() {
    let mut s = AccountService::new();
    s.connect_wallet(7, "metamask".to_string(), 100).unwrap();
    let id1 = s.record_trade(7, "ICP/USDC".to_string(), 2_500_000, 101).unwrap();
    let id2 = s.record_trade(7, "ckBTC/ICP".to_string(), -1_000_000, 102).unwrap();
    assert_eq!(id1, "trade_1");
    assert_eq!(id2, "trade_2");
    let u = s.get_user_data(7).unwrap();
    assert_eq!(u.total_profit, 1_500_000);
    assert_eq!(u.total_trades, 2);
}

#[test]
fn trade_without_account_is_kept_but_creates_none() {
    let mut s = AccountService::new();
    let id = s.record_trade(42, "ICP/USDC".to_string(), 777, 5).unwrap();
    assert_eq!(id, "trade_1");
    let history = s.get_trade_history();
    assert_eq!(history.len(), 1);
    assert_eq!(history[0].id, "trade_1");
    assert_eq!(history[0].token_pair, "ICP/USDC");
    assert_eq!(history[0].profit, 777);
    assert_eq!(history[0].timestamp, 5);
    assert_eq!(history[0].status, "completed");
    assert_eq!(s.get_user_data(42).err(), Some("User not found".to_string()));
}

#[test]
fn save_settings_without_account_fails_and_creates_none() {
    let mut s = AccountService::new();
    let settings = BotSettings {
        min_profit_threshold: 1,
        max_trade_size: 2,
        slippage_tolerance: 3,
        auto_trading_enabled: true,
    };
    let r = s.save_settings(9, settings);
    assert_eq!(r, Err("User not found".to_string()));
    assert_eq!(s.get_user_data(9).err(), Some("User not found".to_string()));
}

#[test]
fn save_settings_replaces_only_settings() {
    let mut s = AccountService::new();
    s.connect_wallet(3, "plug".to_string(), 50).unwrap();
    s.record_trade(3, "ICP/USDC".to_string(), 10, 51).unwrap();
    let settings = BotSettings {
        min_profit_threshold: 250_000,
        max_trade_size: 5_000_000,
        slippage_tolerance: 2_000_000,
        auto_trading_enabled: true,
    };
    assert_eq!(s.save_settings(3, settings), Ok(()));
    let u = s.get_user_data(3).unwrap();
    assert_eq!(u.settings, settings);
    assert_eq!(u.total_profit, 10);
    assert_eq!(u.total_trades, 1);
    assert_eq!(u.created_at, 50);
    assert_eq!(u.wallet_type, Some("plug".to_string()));
}

#[test]
fn trade_history_is_global_across_identities() {
    // The ledger read is deliberately not scoped to the caller: records from
    // both identities come back.
    let mut s = AccountService::new();
    s.connect_wallet(1, "metamask".to_string(), 10).unwrap();
    s.connect_wallet(2, "plug".to_string(), 11).unwrap();
    s.record_trade(1, "ICP/USDC".to_string(), 100, 12).unwrap();
    s.record_trade(2, "ckBTC/ICP".to_string(), 200, 13).unwrap();
    let history = s.get_trade_history();
    assert_eq!(history.len(), 2);
    assert_eq!(history[0].token_pair, "ICP/USDC");
    assert_eq!(history[1].token_pair, "ckBTC/ICP");
    assert_eq!(history[0].id, "trade_1");
    assert_eq!(history[1].id, "trade_2");
}

#[test]
fn reconnect_resets_stats_even_after_trades() {
    let mut s = AccountService::new();
    s.connect_wallet(7, "metamask".to_string(), 100).unwrap();
    s.record_trade(7, "ICP/USDC".to_string(), 2_500_000, 101).unwrap();
    s.record_trade(7, "ckBTC/ICP".to_string(), -1_000_000, 102).unwrap();
    s.connect_wallet(7, "plug".to_string(), 200).unwrap();
    let u = s.get_user_data(7).unwrap();
    assert_eq!(u.total_profit, 0);
    assert_eq!(u.total_trades, 0);
    assert_eq!(u.wallet_type, Some("plug".to_string()));
    assert_eq!(u.created_at, 200);
    assert_eq!(u.settings, BotSettings::default());
    let history = s.get_trade_history();
    assert_eq!(history.len(), 2);
}

#[test]
fn negative_profits_can_drive_total_below_zero() {
    let mut s = AccountService::new();
    s.connect_wallet(7, "metamask".to_string(), 1).unwrap();
    s.record_trade(7, "ICP/USDC".to_string(), -3_000_000, 2).unwrap();
    let u = s.get_user_data(7).unwrap();
    assert_eq!(u.total_profit, -3_000_000);
    assert_eq!(u.total_trades, 1);
}

#[test]
fn trade_count_tracks_history_length() {
    let mut s = AccountService::new();
    assert_eq!(s.trade_count(), 0);
    assert!(s.get_trade_history().is_empty());
    s.record_trade(1, "ICP/USDC".to_string(), 1, 1).unwrap();
    s.record_trade(2, "ckBTC/ICP".to_string(), 2, 2).unwrap();
    assert_eq!(s.trade_count(), 2);
    assert_eq!(s.get_trade_history().len(), 2);
}
