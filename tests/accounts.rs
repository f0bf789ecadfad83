use market_ledger::{normalize_symbol, EquityError, Ledger, Market, Outcome, User, ACTIVITY_REWARD, DEFAULT_LIQUIDITY, INITIAL_POINTS, MICROS_PER_POINT};

const M: u64 = MICROS_PER_POINT;

#[test]
fn activity_registers_then_credits() {
    let mut l = Ledger::new();
    assert_eq!(l.points(3), None);
    assert!(l.record_activity(3, "carol".to_string()));
    assert_eq!(l.points(3), Some(10 * M));
    assert_eq!(INITIAL_POINTS, 10_000_000);
    assert!(!l.record_activity(3, "carol".to_string()));
    assert_eq!(l.points(3), Some(10 * M + ACTIVITY_REWARD));
    assert_eq!(ACTIVITY_REWARD, 10_000);
}

#[test]
fn activity_credit_saturates() {
    let mut l = Ledger::new();
    l.put_user(User { id: 1, points: u64::MAX - 5, username: "rich".to_string() });
    assert!(!l.record_activity(1, "rich".to_string()));
    assert_eq!(l.points(1), Some(u64::MAX));
}

#[test]
fn new_markets_get_increasing_ids_and_zero_shares() {
    let mut l = Ledger::new();
    assert_eq!(l.next_market_id(), Some(1));
    let a = l.new_market("A".to_string(), "first".to_string()).unwrap();
    let b = l.new_market("B".to_string(), "second".to_string()).unwrap();
    assert_eq!((a, b), (1, 2));
    let s = l.load_market(b).unwrap();
    assert_eq!(s.liquidity, DEFAULT_LIQUIDITY);
    assert_eq!(s.market_volume, 0);
    assert_eq!(s.resolved, None);
    assert_eq!(l.outcome_shares(b, Outcome::Yes), 0);
    assert_eq!(l.outcome_shares(b, Outcome::No), 0);
    let rows = market_ledger::accounts::opening_shares(b);
    assert_eq!(rows.len(), 2);
    assert_eq!((rows[0].idx, rows[1].idx), (0, 1));
}

#[test]
fn market_ids_exhausted() {
    let mut l = Ledger::new();
    l.put_market(Market {
        id: i64::MAX,
        liquidity: 1,
        is_resolved: false,
        resolved_idx: None,
        market_volume: 0,
        title: "last".to_string(),
        description: String::new(),
    });
    assert_eq!(l.next_market_id(), None);
    assert_eq!(l.new_market("x".to_string(), "y".to_string()), None);
}

#[test]
fn markets_lists_only_unresolved() {
    let mut l = Ledger::new();
    l.new_market("A".to_string(), "first".to_string()).unwrap();
    l.put_market(Market {
        id: 2,
        liquidity: 1,
        is_resolved: true,
        resolved_idx: Some(0),
        market_volume: 0,
        title: "B".to_string(),
        description: "done".to_string(),
    });
    l.new_market("C".to_string(), "third".to_string()).unwrap();
    let ls = l.markets();
    let seen: Vec<(i64, String, String)> = ls.into_iter().map(|m| (m.id, m.title, m.description)).collect();
    assert_eq!(seen, vec![(1, "A".to_string(), "first".to_string()), (3, "C".to_string(), "third".to_string())]);
}

#[test]
fn outcome_enumeration() {
    assert_eq!(Outcome::from_bool(true), Outcome::Yes);
    assert_eq!(Outcome::from_bool(false), Outcome::No);
    assert_eq!(Outcome::Yes.index(), 0);
    assert_eq!(Outcome::No.index(), 1);
    assert_eq!(Outcome::from_index(1), Some(Outcome::No));
    assert_eq!(Outcome::from_index(2), None);
    assert_eq!(Outcome::from_index(-1), None);
    assert_eq!(Outcome::Yes.label(), "Yes");
    assert_eq!(Outcome::No.label(), "No");
}

#[test]
fn symbols_are_upper_cased() {
    assert_eq!(normalize_symbol("aapl"), "AAPL");
    assert_eq!(normalize_symbol("Brk.b"), "BRK.B");
}

#[test]
fn stock_purchase_averages_entry_price() {
    let mut l = Ledger::new();
    l.put_user(User { id: 1, points: 10 * M, username: "u".to_string() });
    let r = l.buy_stock(1, "AAPL".to_string(), 15000, 2).unwrap();
    assert_eq!(r.price_per_share, 1_500_000);
    assert_eq!(r.cost, 3 * M);
    assert_eq!(r.balance, 7 * M);
    assert_eq!((r.shares, r.avg_price), (2, 1_500_000));
    let r2 = l.buy_stock(1, "AAPL".to_string(), 30000, 2).unwrap();
    assert_eq!(r2.cost, 6 * M);
    assert_eq!(r2.balance, M);
    assert_eq!((r2.shares, r2.avg_price), (4, 2_250_000));
    let r3 = l.buy_stock(1, "TSLA".to_string(), 100, 3).unwrap();
    assert_eq!((r3.shares, r3.avg_price, r3.balance), (3, 10_000, M - 30_000));
}

#[test]
fn stock_purchase_errors() {
    let mut l = Ledger::new();
    l.put_user(User { id: 1, points: M, username: "u".to_string() });
    assert_eq!(l.buy_stock(2, "AAPL".to_string(), 100, 1), Err(EquityError::UnknownUser));
    assert_eq!(l.buy_stock(1, "NOPE".to_string(), 0, 1), Err(EquityError::InvalidSymbol));
    assert_eq!(l.buy_stock(1, "AAPL".to_string(), 10001, 1), Err(EquityError::InsufficientFunds));
    assert_eq!(l.buy_stock(1, "AAPL".to_string(), u64::MAX, u64::MAX), Err(EquityError::InsufficientFunds));
    assert_eq!(l.points(1), Some(M));
    l.put_equity(market_ledger::EquityPosition { user_id: 1, symbol: "X".to_string(), shares: u64::MAX, avg_price: 1 });
    assert_eq!(l.buy_stock(1, "X".to_string(), 1, 1), Err(EquityError::Overflow));
    assert_eq!(l.buy_stock(1, "Y".to_string(), u64::MAX, 0), Err(EquityError::Overflow));
    assert_eq!(l.points(1), Some(M));
}
