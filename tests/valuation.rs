use market_ledger::{Holding, Ledger, Market, Outcome, OutcomeShares, Position, Quote, ShareRow, TradeError, User, MICROS_PER_POINT};

const M: u64 = MICROS_PER_POINT;

fn market(id: i64, resolved_idx: Option<i64>) -> Market {
    Market {
        id,
        liquidity: 10 * M,
        is_resolved: resolved_idx.is_some(),
        resolved_idx,
        market_volume: 7,
        title: format!("market {id}"),
        description: "about it".to_string(),
    }
}

#[test]
fn empty_portfolio_is_worth_the_balance() {
    let mut l = Ledger::new();
    l.put_user(User { id: 5, points: 1234 * M, username: "bob".to_string() });
    let p = l.portfolio(5, &Vec::new()).unwrap();
    assert_eq!(p.total_value, 0);
    assert_eq!(p.total_shares, 0);
    assert_eq!(p.net_worth, (1234 * M) as u128);
    assert_eq!(p.points, 1234 * M);
    assert!(p.entries.is_empty());
}

#[test]
fn zero_positions_count_as_none() {
    let mut l = Ledger::new();
    l.put_user(User { id: 5, points: 3 * M, username: "bob".to_string() });
    l.put_market(market(1, None));
    l.put_position(Position { user_id: 5, market_id: 1, outcome_idx: 0, amount: 0 });
    assert!(l.holdings(5).is_empty());
    let p = l.portfolio(5, &vec![Some(9)]).unwrap();
    assert_eq!(p.total_value, 0);
    assert_eq!(p.net_worth, (3 * M) as u128);
}

#[test]
fn holdings_skip_missing_markets_and_bad_indices() {
    let mut l = Ledger::new();
    l.put_user(User { id: 5, points: M, username: "bob".to_string() });
    l.put_user(User { id: 6, points: M, username: "eve".to_string() });
    l.put_market(market(1, None));
    l.put_market(market(2, None));
    l.put_position(Position { user_id: 5, market_id: 1, outcome_idx: 0, amount: 4 });
    l.put_position(Position { user_id: 5, market_id: 9, outcome_idx: 0, amount: 8 });
    l.put_position(Position { user_id: 5, market_id: 2, outcome_idx: 2, amount: 8 });
    l.put_position(Position { user_id: 6, market_id: 2, outcome_idx: 1, amount: 3 });
    l.put_position(Position { user_id: 5, market_id: 2, outcome_idx: 1, amount: 6 });
    let hs = l.holdings(5);
    assert_eq!(
        hs,
        vec![
            Holding { market_id: 1, outcome: Outcome::Yes, amount: 4 },
            Holding { market_id: 2, outcome: Outcome::No, amount: 6 },
        ]
    );
}

#[test]
fn portfolio_sums_values_and_shares() {
    let mut l = Ledger::new();
    l.put_user(User { id: 5, points: 10 * M, username: "bob".to_string() });
    l.put_market(market(1, None));
    l.put_market(market(2, None));
    l.put_position(Position { user_id: 5, market_id: 1, outcome_idx: 0, amount: 4 });
    l.put_position(Position { user_id: 5, market_id: 2, outcome_idx: 1, amount: 6 });
    let p = l.portfolio(5, &vec![Some(3 * M), Some(2 * M)]).unwrap();
    assert_eq!(p.total_shares, 10);
    assert_eq!(p.total_value, (5 * M) as u128);
    assert_eq!(p.net_worth, (15 * M) as u128);
    assert_eq!(p.entries.len(), 2);
    assert_eq!(p.entries[1].value, 2 * M);
    assert_eq!(p.entries[1].outcome, Outcome::No);
    let q = l.portfolio(5, &vec![None]).unwrap();
    assert_eq!(q.total_value, 0);
    assert_eq!(q.total_shares, 10);
    assert_eq!(q.entries[0].value, 0);
    assert_eq!(q.entries[1].value, 0);
}

#[test]
fn portfolio_of_unknown_user_fails() {
    let l = Ledger::new();
    assert!(matches!(l.portfolio(1, &Vec::new()), Err(TradeError::UnknownUser)));
}

#[test]
fn valuation_does_not_write() {
    let mut l = Ledger::new();
    l.put_user(User { id: 5, points: 10 * M, username: "bob".to_string() });
    let m = l.new_market("t".to_string(), "d".to_string()).unwrap();
    let q = Quote { amount: M, shares: OutcomeShares { yes: 2, no: 0 }, market_volume: M };
    l.buy(5, m, Outcome::Yes, 2, Ok(q)).unwrap();
    let state = l.load_market(m).unwrap();
    let _ = l.portfolio(5, &vec![Some(M / 2)]).unwrap();
    assert_eq!(l.load_market(m).unwrap(), state);
    assert_eq!(l.held(5, m, Outcome::Yes), 2);
    assert_eq!(l.points(5), Some(9 * M));
}

#[test]
fn load_market_orders_and_pads_shares() {
    let mut l = Ledger::new();
    l.put_market(market(4, Some(1)));
    l.put_share(ShareRow { market_id: 4, idx: 1, amount: 12 });
    l.put_share(ShareRow { market_id: 4, idx: 7, amount: 99 });
    let s = l.load_market(4).unwrap();
    assert_eq!(s.shares, OutcomeShares { yes: 0, no: 12 });
    assert_eq!(s.shares.to_vec(), vec![0, 12]);
    assert_eq!(s.resolved, Some(Outcome::No));
    assert_eq!(s.liquidity, 10 * M);
    assert_eq!(s.market_volume, 7);
    l.put_market(market(5, Some(3)));
    assert_eq!(l.load_market(5).unwrap().resolved, None);
    assert_eq!(l.load_market(6), None);
}

#[test]
fn get_market_carries_title_and_description() {
    let mut l = Ledger::new();
    l.put_market(market(4, None));
    let snap = l.get_market(4).unwrap();
    assert_eq!(snap.id, 4);
    assert_eq!(snap.title, "market 4");
    assert_eq!(snap.description, "about it");
    assert!(!snap.is_resolved);
    assert!(l.get_market(3).is_none());
}
