use market_ledger::{Ledger, Market, Outcome, OutcomeShares, Quote, ShareRow, TradeError, User, MICROS_PER_POINT};

const M: u64 = MICROS_PER_POINT;

/// Logarithmic market scoring rule cost function, in points.
fn lmsr_cost(yes: f64, no: f64, liquidity: f64) -> f64 {
    liquidity * ((yes / liquidity).exp() + (no / liquidity).exp()).ln()
}

/// Prices a trade the way a logarithmic market maker with liquidity 10 does,
/// in millionths of a point; the volume accumulates the amount traded.
fn lmsr_quote(state: &market_ledger::MarketState, outcome: Outcome, quantity: u64, buying: bool) -> Quote {
    let b = state.liquidity as f64 / M as f64;
    let (yes, no) = (state.shares.yes as f64, state.shares.no as f64);
    let q = quantity as f64;
    let before = lmsr_cost(yes, no, b);
    let (ny, nn) = match (outcome, buying) {
        (Outcome::Yes, true) => (yes + q, no),
        (Outcome::Yes, false) => (yes - q, no),
        (Outcome::No, true) => (yes, no + q),
        (Outcome::No, false) => (yes, no - q),
    };
    let after = lmsr_cost(ny, nn, b);
    let amount = ((after - before).abs() * M as f64).round() as u64;
    Quote {
        amount,
        shares: OutcomeShares { yes: ny as u64, no: nn as u64 },
        market_volume: state.market_volume + amount,
    }
}

fn ledger_with_user(points: u64) -> (Ledger, i64) {
    let mut l = Ledger::new();
    l.put_user(User { id: 42, points, username: "alice".to_string() });
    let id = l.new_market("Rain".to_string(), "Will it rain?".to_string()).unwrap();
    (l, id)
}

#[test]
fn scenario_buy_ten_yes_on_fresh_market() {
    let (mut l, m) = ledger_with_user(1000 * M);
    assert_eq!(l.outcome_shares(m, Outcome::Yes), 0);
    assert_eq!(l.outcome_shares(m, Outcome::No), 0);
    let state = l.prepare_buy(42, m).unwrap();
    let q = lmsr_quote(&state, Outcome::Yes, 10, true);
    let r = l.buy(42, m, Outcome::Yes, 10, Ok(q)).unwrap();
    assert!(r.amount > 0);
    assert_eq!(l.points(42), Some(1000 * M - r.amount));
    assert_eq!(r.balance, 1000 * M - r.amount);
    assert_eq!(l.outcome_shares(m, Outcome::Yes), 10);
    assert_eq!(l.outcome_shares(m, Outcome::No), 0);
    let snap = l.get_market(m).unwrap();
    assert!(snap.state.market_volume > 0);
    assert_eq!(snap.state.market_volume, r.market_volume);
    assert_eq!(l.held(42, m, Outcome::Yes), 10);
}

#[test]
fn buy_debits_exact_cost_and_adds_quantity() {
    let (mut l, m) = ledger_with_user(50 * M);
    let q1 = Quote { amount: 3 * M, shares: OutcomeShares { yes: 0, no: 4 }, market_volume: 3 * M };
    l.buy(42, m, Outcome::No, 4, Ok(q1)).unwrap();
    let q2 = Quote { amount: 2 * M, shares: OutcomeShares { yes: 0, no: 7 }, market_volume: 5 * M };
    let r = l.buy(42, m, Outcome::No, 3, Ok(q2)).unwrap();
    assert_eq!(r.balance, 45 * M);
    assert_eq!(r.position, 7);
    assert_eq!(l.points(42), Some(45 * M));
    assert_eq!(l.held(42, m, Outcome::No), 7);
    assert_eq!(l.held(42, m, Outcome::Yes), 0);
    assert_eq!(l.outcome_shares(m, Outcome::No), 7);
    assert_eq!(l.get_market(m).unwrap().state.market_volume, 5 * M);
}

#[test]
fn sell_credits_proceeds_and_keeps_zero_row() {
    let (mut l, m) = ledger_with_user(20 * M);
    let qb = Quote { amount: 6 * M, shares: OutcomeShares { yes: 5, no: 0 }, market_volume: 6 * M };
    l.buy(42, m, Outcome::Yes, 5, Ok(qb)).unwrap();
    let qs = Quote { amount: 2 * M, shares: OutcomeShares { yes: 3, no: 0 }, market_volume: 8 * M };
    let r = l.sell(42, m, Outcome::Yes, 2, Ok(qs)).unwrap();
    assert_eq!(r.balance, 16 * M);
    assert_eq!(r.position, 3);
    let qs2 = Quote { amount: 3 * M, shares: OutcomeShares { yes: 0, no: 0 }, market_volume: 11 * M };
    let r2 = l.sell(42, m, Outcome::Yes, 3, Ok(qs2)).unwrap();
    assert_eq!(r2.balance, 19 * M);
    assert_eq!(r2.position, 0);
    let p = l.position(42, m, Outcome::Yes).unwrap();
    assert_eq!(p.amount, 0);
    assert_eq!(l.outcome_shares(m, Outcome::Yes), 0);
    assert_eq!(l.get_market(m).unwrap().state.market_volume, 11 * M);
}

#[test]
fn round_trip_proceeds_do_not_exceed_cost() {
    let (mut l, m) = ledger_with_user(100 * M);
    let state = l.prepare_buy(42, m).unwrap();
    let qb = lmsr_quote(&state, Outcome::No, 25, true);
    let bought = l.buy(42, m, Outcome::No, 25, Ok(qb)).unwrap();
    let state = l.prepare_sell(42, m, Outcome::No, 25).unwrap();
    let qs = lmsr_quote(&state, Outcome::No, 25, false);
    let sold = l.sell(42, m, Outcome::No, 25, Ok(qs)).unwrap();
    assert!(sold.amount <= bought.amount);
    assert!(l.points(42).unwrap() <= 100 * M);
    assert_eq!(l.points(42).unwrap(), 100 * M - bought.amount + sold.amount);
    assert_eq!(l.held(42, m, Outcome::No), 0);
}

#[test]
fn oversell_fails_and_changes_nothing() {
    let (mut l, m) = ledger_with_user(20 * M);
    let qb = Quote { amount: 6 * M, shares: OutcomeShares { yes: 5, no: 0 }, market_volume: 6 * M };
    l.buy(42, m, Outcome::Yes, 5, Ok(qb)).unwrap();
    let before = (l.points(42), l.held(42, m, Outcome::Yes), l.get_market(m).unwrap().state, l.outcome_shares(m, Outcome::Yes));
    let qs = Quote { amount: 9 * M, shares: OutcomeShares { yes: 0, no: 0 }, market_volume: 1 };
    assert_eq!(l.sell(42, m, Outcome::Yes, 6, Ok(qs)), Err(TradeError::InsufficientShares));
    let after = (l.points(42), l.held(42, m, Outcome::Yes), l.get_market(m).unwrap().state, l.outcome_shares(m, Outcome::Yes));
    assert_eq!(before, after);
    assert_eq!(l.sell(42, m, Outcome::No, 1, Ok(qs)), Err(TradeError::InsufficientShares));
}

#[test]
fn unaffordable_buy_fails_and_changes_nothing() {
    let (mut l, m) = ledger_with_user(5 * M);
    let before = (l.points(42), l.position(42, m, Outcome::Yes), l.get_market(m).unwrap().state, l.outcome_shares(m, Outcome::Yes));
    let q = Quote { amount: 5 * M + 1, shares: OutcomeShares { yes: 10, no: 0 }, market_volume: 5 * M + 1 };
    assert_eq!(l.buy(42, m, Outcome::Yes, 10, Ok(q)), Err(TradeError::InsufficientFunds));
    let after = (l.points(42), l.position(42, m, Outcome::Yes), l.get_market(m).unwrap().state, l.outcome_shares(m, Outcome::Yes));
    assert_eq!(before, after);
    let exact = Quote { amount: 5 * M, ..q };
    assert_eq!(l.buy(42, m, Outcome::Yes, 10, Ok(exact)).unwrap().balance, 0);
}

#[test]
fn trade_errors_in_check_order() {
    let (mut l, m) = ledger_with_user(5 * M);
    let q = Quote { amount: M, shares: OutcomeShares { yes: 1, no: 0 }, market_volume: M };
    assert_eq!(l.buy(7, m, Outcome::Yes, 1, Ok(q)), Err(TradeError::UnknownUser));
    assert_eq!(l.buy(42, m + 1, Outcome::Yes, 1, Ok(q)), Err(TradeError::MarketNotFound));
    assert_eq!(
        l.buy(42, m, Outcome::Yes, 1, Err("InvalidQuantity".to_string())),
        Err(TradeError::EngineRejected("InvalidQuantity".to_string()))
    );
    assert_eq!(l.sell(7, m, Outcome::Yes, 1, Ok(q)), Err(TradeError::UnknownUser));
    assert_eq!(l.prepare_buy(7, m), Err(TradeError::UnknownUser));
    assert_eq!(l.prepare_buy(42, 99), Err(TradeError::MarketNotFound));
    assert_eq!(l.prepare_sell(42, m, Outcome::Yes, 1), Err(TradeError::InsufficientShares));
    l.buy(42, m, Outcome::Yes, 1, Ok(q)).unwrap();
    assert_eq!(
        l.sell(42, m, Outcome::Yes, 1, Err("engine".to_string())),
        Err(TradeError::EngineRejected("engine".to_string()))
    );
    assert_eq!(l.points(42), Some(4 * M));
}

#[test]
fn overflowing_position_or_balance_is_refused() {
    let mut l = Ledger::new();
    l.put_user(User { id: 1, points: u64::MAX - 1, username: "whale".to_string() });
    let m = l.new_market("t".to_string(), "d".to_string()).unwrap();
    l.put_position(market_ledger::Position { user_id: 1, market_id: m, outcome_idx: 0, amount: u64::MAX });
    let q = Quote { amount: 0, shares: OutcomeShares { yes: 1, no: 0 }, market_volume: 0 };
    assert_eq!(l.buy(1, m, Outcome::Yes, 1, Ok(q)), Err(TradeError::Overflow));
    let proceeds = Quote { amount: 2, ..q };
    assert_eq!(l.sell(1, m, Outcome::Yes, 1, Ok(proceeds)), Err(TradeError::Overflow));
    assert_eq!(l.held(1, m, Outcome::Yes), u64::MAX);
}

#[test]
fn missing_share_row_is_created_on_trade() {
    let mut l = Ledger::new();
    l.put_user(User { id: 1, points: 10 * M, username: "u".to_string() });
    l.put_market(Market {
        id: 3,
        liquidity: 10 * M,
        is_resolved: false,
        resolved_idx: None,
        market_volume: 0,
        title: "t".to_string(),
        description: "d".to_string(),
    });
    l.put_share(ShareRow { market_id: 3, idx: 0, amount: 4 });
    assert_eq!(l.outcome_shares(3, Outcome::No), 0);
    let q = Quote { amount: M, shares: OutcomeShares { yes: 4, no: 2 }, market_volume: M };
    l.buy(1, 3, Outcome::No, 2, Ok(q)).unwrap();
    assert_eq!(l.outcome_shares(3, Outcome::No), 2);
    assert_eq!(l.outcome_shares(3, Outcome::Yes), 4);
}
