//! The portfolio valuator: a user's holdings, each valued at the engine's
//! read-only sell quote, and the totals over them.
use vstd::prelude::*;

use crate::ledger::{Ledger, LedgerView, Position};
use crate::outcome::{outcome_at, Outcome};
use crate::trade::TradeError;

verus! {

/// A non-zero position whose market exists and whose outcome index resolves.
#[derive(Clone, Copy, Debug, PartialEq, Eq, Structural)]
pub struct Holding {
    pub market_id: i64,
    pub outcome: Outcome,
    pub amount: u64,
}

/// A holding with its liquidation value.
#[derive(Clone, Copy, Debug, PartialEq, Eq, Structural)]
pub struct PortfolioEntry {
    pub market_id: i64,
    pub outcome: Outcome,
    pub amount: u64,
    pub value: u64,
}

/// A user's valued holdings and totals.
pub struct Portfolio {
    pub user_id: i64,
    pub entries: Vec<PortfolioEntry>,
    pub total_shares: u128,
    pub total_value: u128,
    pub points: u64,
    /// Total value plus point balance.
    pub net_worth: u128,
}

/// The holding a position row of `user_id` stands for, or `None` where it is
/// skipped: another user's row, a zero count, a missing market, or an index that
/// names no outcome.
pub open spec fn holding_of(v: LedgerView, user_id: i64, p: Position) -> Option<Holding> {
    if p.user_id == user_id && p.amount != 0 && v.has_market(p.market_id) && outcome_at(
        p.outcome_idx as int,
    ) is Some {
        Some(
            Holding {
                market_id: p.market_id,
                outcome: outcome_at(p.outcome_idx as int)->Some_0,
                amount: p.amount,
            },
        )
    } else {
        None
    }
}

/// The holdings of `user_id` among `rows`, in row order.
pub open spec fn holdings_of(v: LedgerView, user_id: i64, rows: Seq<Position>) -> Seq<Holding>
    decreases rows.len(),
{
    if rows.len() == 0 {
        Seq::empty()
    } else {
        let prev = holdings_of(v, user_id, rows.drop_last());
        match holding_of(v, user_id, rows.last()) {
            Some(h) => prev.push(h),
            None => prev,
        }
    }
}

/// The value given for holding `i`; 0 where none was given.
pub open spec fn value_at(values: Seq<Option<u64>>, i: int) -> u64 {
    if 0 <= i < values.len() && values[i] is Some {
        values[i]->Some_0
    } else {
        0
    }
}

/// The holdings paired with their values.
pub open spec fn entries_of(hs: Seq<Holding>, values: Seq<Option<u64>>) -> Seq<PortfolioEntry> {
    Seq::new(
        hs.len(),
        |i: int|
            PortfolioEntry {
                market_id: hs[i].market_id,
                outcome: hs[i].outcome,
                amount: hs[i].amount,
                value: value_at(values, i),
            },
    )
}

pub open spec fn sum_shares(es: Seq<PortfolioEntry>) -> nat
    decreases es.len(),
{
    if es.len() == 0 {
        0
    } else {
        (sum_shares(es.drop_last()) + es.last().amount) as nat
    }
}

pub open spec fn sum_values(es: Seq<PortfolioEntry>) -> nat
    decreases es.len(),
{
    if es.len() == 0 {
        0
    } else {
        (sum_values(es.drop_last()) + es.last().value) as nat
    }
}

/// A user none of whose position rows holds a share has no holdings, whatever
/// values are given, and so a total value and share count of 0.
pub proof fn lemma_empty_portfolio(v: LedgerView, user_id: i64, values: Seq<Option<u64>>)
    requires
        forall|i: int|
            0 <= i < v.positions.len() && #[trigger] v.positions[i].user_id == user_id
                ==> v.positions[i].amount == 0,
    ensures
        holdings_of(v, user_id, v.positions).len() == 0,
        sum_shares(entries_of(holdings_of(v, user_id, v.positions), values)) == 0,
        sum_values(entries_of(holdings_of(v, user_id, v.positions), values)) == 0,
{
    lemma_no_holdings(v, user_id, v.positions);
    assert(entries_of(holdings_of(v, user_id, v.positions), values).len() == 0);
}

proof fn lemma_no_holdings(v: LedgerView, user_id: i64, rows: Seq<Position>)
    requires
        forall|i: int|
            0 <= i < rows.len() && #[trigger] rows[i].user_id == user_id ==> rows[i].amount == 0,
    ensures
        holdings_of(v, user_id, rows).len() == 0,
    decreases rows.len(),
{
    if rows.len() > 0 {
        let prev = rows.drop_last();
        assert forall|i: int|
            0 <= i < prev.len() && #[trigger] prev[i].user_id == user_id implies prev[i].amount == 0 by {
            assert(rows[i] == prev[i]);
        }
        lemma_no_holdings(v, user_id, prev);
        assert(rows.last() == rows[rows.len() - 1]);
    }
}

impl Ledger {
    /// The holdings of `user_id`, in storage order: every position row of the
    /// user with a non-zero count, whose market exists and whose index names an
    /// outcome. Rows that fail these are skipped, never reported as errors.
    pub fn holdings(&self, user_id: i64) -> (r: Vec<Holding>)
        requires
            self@.wf(),
        ensures
            r@ == holdings_of(self@, user_id, self@.positions),
    {
        let mut r: Vec<Holding> = Vec::new();
        let n = self.num_positions();
        let mut i: usize = 0;
        while i < n
            invariant
                self@.wf(),
                n == self@.positions.len(),
                i <= n,
                r@ == holdings_of(self@, user_id, self@.positions.subrange(0, i as int)),
            decreases n - i,
        {
            let p = self.position_at(i);
            proof {
                assert(self@.positions.subrange(0, i + 1).drop_last() == self@.positions.subrange(
                    0,
                    i as int,
                ));
            }
            if p.user_id == user_id && p.amount != 0 {
                if self.find_market(p.market_id).is_some() {
                    match Outcome::from_index(p.outcome_idx) {
                        Some(o) => {
                            r.push(Holding { market_id: p.market_id, outcome: o, amount: p.amount });
                        },
                        None => {},
                    }
                }
            }
            i = i + 1;
        }
        assert(self@.positions.subrange(0, n as int) == self@.positions);
        r
    }

    /// Values the portfolio of `user_id`: its holdings, holding `i` worth
    /// `values[i]` (the engine's sell quote for the whole holding; a missing or
    /// `None` value counts 0), the totals over them, and the balance.
    pub fn portfolio(&self, user_id: i64, values: &Vec<Option<u64>>) -> (r: Result<Portfolio, TradeError>)
        requires
            self@.wf(),
        ensures
            match r {
                Ok(p) => {
                    &&& self@.has_user(user_id)
                    &&& p.user_id == user_id
                    &&& p.entries@ == entries_of(
                        holdings_of(self@, user_id, self@.positions),
                        values@,
                    )
                    &&& p.total_shares == sum_shares(p.entries@)
                    &&& p.total_value == sum_values(p.entries@)
                    &&& p.points == self@.balance(user_id)
                    &&& p.net_worth == p.total_value + p.points
                    &&& (forall|i: int|
                        0 <= i < self@.positions.len() && #[trigger] self@.positions[i].user_id
                            == user_id ==> self@.positions[i].amount == 0) ==> p.total_value == 0
                        && p.total_shares == 0 && p.net_worth == p.points
                },
                Err(e) => !self@.has_user(user_id) && e == TradeError::UnknownUser,
            },
    {
        let ui = match self.find_user(user_id) {
            Some(i) => i,
            None => {
                return Err(TradeError::UnknownUser);
            },
        };
        let points = self.user_at(ui).points;
        let hs = self.holdings(user_id);
        let ghost target = entries_of(hs@, values@);
        let mut entries: Vec<PortfolioEntry> = Vec::new();
        let mut total_shares: u128 = 0;
        let mut total_value: u128 = 0;
        let mut i: usize = 0;
        while i < hs.len()
            invariant
                i <= hs@.len(),
                target == entries_of(hs@, values@),
                entries@ == target.subrange(0, i as int),
                total_shares == sum_shares(entries@),
                total_value == sum_values(entries@),
                total_shares <= i * (u64::MAX as int),
                total_value <= i * (u64::MAX as int),
            decreases hs@.len() - i,
        {
            let h = hs[i];
            let value: u64 = if i < values.len() {
                match values[i] {
                    Some(x) => x,
                    None => 0,
                }
            } else {
                0
            };
            proof {
                assert(i + 1 <= usize::MAX + 1);
                assert((i + 1) * (u64::MAX as int) <= (usize::MAX + 1) * (u64::MAX as int))
                    by (nonlinear_arith)
                    requires
                        i + 1 <= usize::MAX + 1,
                ;
                assert((i + 1) * (u64::MAX as int) == i * (u64::MAX as int) + u64::MAX)
                    by (nonlinear_arith);
            }
            let e = PortfolioEntry { market_id: h.market_id, outcome: h.outcome, amount: h.amount, value };
            entries.push(e);
            total_shares = total_shares + h.amount as u128;
            total_value = total_value + value as u128;
            proof {
                assert(entries@.drop_last() == target.subrange(0, i as int));
                assert(entries@ == target.subrange(0, i + 1));
            }
            i = i + 1;
        }
        assert(entries@ == target);
        proof {
            assert(hs@.len() * (u64::MAX as int) + u64::MAX <= (usize::MAX + 1) * (u64::MAX as int))
                by (nonlinear_arith)
                requires
                    hs@.len() <= usize::MAX,
            ;
        }
        proof {
            if forall|i: int|
                0 <= i < self@.positions.len() && #[trigger] self@.positions[i].user_id == user_id
                    ==> self@.positions[i].amount == 0 {
                lemma_empty_portfolio(self@, user_id, values@);
            }
        }
        let net_worth = total_value + points as u128;
        Ok(Portfolio { user_id, entries, total_shares, total_value, points, net_worth })
    }
}

} // verus!
