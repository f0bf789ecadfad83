//! The trade orchestrator: checks a trade against the ledger and the engine's
//! quote, then writes the post-trade state to every affected table at once.
use vstd::prelude::*;

use crate::codec::{state_of, MarketState, OutcomeShares};
use crate::ledger::{position_key, share_key, Ledger, LedgerView, Market, Position, ShareRow, User};
use crate::outcome::{outcome_index, Outcome};
use crate::table::{lemma_upsert, upsert};

verus! {

/// What the pricing engine reports for a trade priced against a loaded state:
/// the cost (buy) or proceeds (sell), and the engine's state after the trade.
#[derive(Clone, Copy, Debug, PartialEq, Eq, Structural)]
pub struct Quote {
    pub amount: u64,
    pub shares: OutcomeShares,
    pub market_volume: u64,
}

/// Why a trade was not carried out.
#[derive(Debug, PartialEq, Eq)]
pub enum TradeError {
    UnknownUser,
    MarketNotFound,
    /// The pricing engine refused the trade, for the reason it gave.
    EngineRejected(String),
    InsufficientFunds,
    InsufficientShares,
    /// A balance or a share count would leave the range of `u64`.
    Overflow,
}

/// The values a completed trade wrote.
#[derive(Clone, Copy, Debug, PartialEq, Eq, Structural)]
pub struct TradeReceipt {
    pub user_id: i64,
    pub market_id: i64,
    pub outcome: Outcome,
    pub quantity: u64,
    /// Cost paid (buy) or proceeds received (sell).
    pub amount: u64,
    /// The user's balance after the trade.
    pub balance: u64,
    /// The market's volume after the trade.
    pub market_volume: u64,
    /// The traded outcome's share row after the trade.
    pub outcome_shares: u64,
    /// The user's position in the traded outcome after the trade.
    pub position: u64,
}

/// The user holds a position row in this outcome.
pub open spec fn has_position(v: LedgerView, user_id: i64, market_id: i64, outcome: Outcome) -> bool {
    v.position_map().contains_key(position_key(user_id, market_id, outcome))
}

/// The error a buy ends with, in the order the checks are made; `None` when it succeeds.
pub open spec fn buy_error(
    v: LedgerView,
    user_id: i64,
    market_id: i64,
    outcome: Outcome,
    quantity: u64,
    priced: Result<Quote, String>,
) -> Option<TradeError> {
    if !v.has_user(user_id) {
        Some(TradeError::UnknownUser)
    } else if !v.has_market(market_id) {
        Some(TradeError::MarketNotFound)
    } else {
        match priced {
            Err(reason) => Some(TradeError::EngineRejected(reason)),
            Ok(q) => if q.amount > v.balance(user_id) {
                Some(TradeError::InsufficientFunds)
            } else if v.held(user_id, market_id, outcome) + quantity > u64::MAX {
                Some(TradeError::Overflow)
            } else {
                None
            },
        }
    }
}

/// The error a sell ends with, in the order the checks are made; `None` when it succeeds.
pub open spec fn sell_error(
    v: LedgerView,
    user_id: i64,
    market_id: i64,
    outcome: Outcome,
    quantity: u64,
    priced: Result<Quote, String>,
) -> Option<TradeError> {
    if !v.has_user(user_id) {
        Some(TradeError::UnknownUser)
    } else if !has_position(v, user_id, market_id, outcome) || v.held(user_id, market_id, outcome)
        < quantity {
        Some(TradeError::InsufficientShares)
    } else if !v.has_market(market_id) {
        Some(TradeError::MarketNotFound)
    } else {
        match priced {
            Err(reason) => Some(TradeError::EngineRejected(reason)),
            Ok(q) => if v.balance(user_id) + q.amount > u64::MAX {
                Some(TradeError::Overflow)
            } else {
                None
            },
        }
    }
}

/// The market row with the engine's post-trade volume.
pub open spec fn market_after(v: LedgerView, market_id: i64, q: Quote) -> Market {
    Market { market_volume: q.market_volume, ..v.market_map()[market_id] }
}

/// The traded outcome's share row with the engine's post-trade count.
pub open spec fn share_after(market_id: i64, outcome: Outcome, q: Quote) -> ShareRow {
    ShareRow { market_id, idx: outcome_index(outcome) as i64, amount: q.shares.at(outcome) }
}

/// The user's row with a new balance.
pub open spec fn user_after(v: LedgerView, user_id: i64, points: int) -> User {
    User { points: points as u64, ..v.user_map()[user_id] }
}

/// The user's position row with a new share count.
pub open spec fn position_after(user_id: i64, market_id: i64, outcome: Outcome, amount: int) -> Position {
    Position {
        user_id,
        market_id,
        outcome_idx: outcome_index(outcome) as i64,
        amount: amount as u64,
    }
}

/// The ledger after a successful buy: market volume, the traded outcome's share
/// row, the debited balance and the incremented position, all from one quote.
pub open spec fn after_buy(
    v: LedgerView,
    user_id: i64,
    market_id: i64,
    outcome: Outcome,
    quantity: u64,
    q: Quote,
) -> LedgerView {
    LedgerView {
        markets: upsert(v.markets, market_after(v, market_id, q)),
        shares: upsert(v.shares, share_after(market_id, outcome, q)),
        users: upsert(v.users, user_after(v, user_id, v.balance(user_id) - q.amount)),
        positions: upsert(
            v.positions,
            position_after(user_id, market_id, outcome, v.held(user_id, market_id, outcome) + quantity),
        ),
        ..v
    }
}

/// The ledger after a successful sell: the decremented position, market volume,
/// the traded outcome's share row and the credited balance, all from one quote.
pub open spec fn after_sell(
    v: LedgerView,
    user_id: i64,
    market_id: i64,
    outcome: Outcome,
    quantity: u64,
    q: Quote,
) -> LedgerView {
    LedgerView {
        positions: upsert(
            v.positions,
            position_after(user_id, market_id, outcome, v.held(user_id, market_id, outcome) - quantity),
        ),
        markets: upsert(v.markets, market_after(v, market_id, q)),
        shares: upsert(v.shares, share_after(market_id, outcome, q)),
        users: upsert(v.users, user_after(v, user_id, v.balance(user_id) + q.amount)),
        ..v
    }
}

/// What a trade changes, read through the table maps: the user's balance and
/// position, the market's volume and the traded outcome's share row; every other
/// user, market, share row and position is as before.
pub open spec fn trade_effect(
    v: LedgerView,
    w: LedgerView,
    user_id: i64,
    market_id: i64,
    outcome: Outcome,
    q: Quote,
    balance: int,
    position: int,
) -> bool {
    &&& w.wf()
    &&& w.has_user(user_id)
    &&& w.has_market(market_id)
    &&& has_position(w, user_id, market_id, outcome)
    &&& w.balance(user_id) == balance
    &&& w.held(user_id, market_id, outcome) == position
    &&& w.volume(market_id) == q.market_volume
    &&& w.outcome_shares(market_id, outcome) == q.shares.at(outcome)
    &&& w.user_map() == v.user_map().insert(user_id, user_after(v, user_id, balance))
    &&& w.market_map() == v.market_map().insert(market_id, market_after(v, market_id, q))
    &&& w.share_map() == v.share_map().insert(
        share_key(market_id, outcome),
        share_after(market_id, outcome, q),
    )
    &&& w.position_map() == v.position_map().insert(
        position_key(user_id, market_id, outcome),
        position_after(user_id, market_id, outcome, position),
    )
    &&& w.equities == v.equities
}

/// Reads the effect of a buy through the table maps.
pub proof fn lemma_after_buy(
    v: LedgerView,
    user_id: i64,
    market_id: i64,
    outcome: Outcome,
    quantity: u64,
    q: Quote,
)
    requires
        v.wf(),
        buy_error(v, user_id, market_id, outcome, quantity, Ok(q)) is None,
    ensures
        trade_effect(
            v,
            after_buy(v, user_id, market_id, outcome, quantity, q),
            user_id,
            market_id,
            outcome,
            q,
            v.balance(user_id) - q.amount,
            v.held(user_id, market_id, outcome) + quantity,
        ),
{
    lemma_upsert(v.markets, market_after(v, market_id, q));
    lemma_upsert(v.shares, share_after(market_id, outcome, q));
    lemma_upsert(v.users, user_after(v, user_id, v.balance(user_id) - q.amount));
    lemma_upsert(
        v.positions,
        position_after(user_id, market_id, outcome, v.held(user_id, market_id, outcome) + quantity),
    );
}

/// Reads the effect of a sell through the table maps.
pub proof fn lemma_after_sell(
    v: LedgerView,
    user_id: i64,
    market_id: i64,
    outcome: Outcome,
    quantity: u64,
    q: Quote,
)
    requires
        v.wf(),
        sell_error(v, user_id, market_id, outcome, quantity, Ok(q)) is None,
    ensures
        trade_effect(
            v,
            after_sell(v, user_id, market_id, outcome, quantity, q),
            user_id,
            market_id,
            outcome,
            q,
            v.balance(user_id) + q.amount,
            v.held(user_id, market_id, outcome) - quantity,
        ),
{
    lemma_upsert(v.positions, position_after(user_id, market_id, outcome, v.held(user_id, market_id, outcome) - quantity));
    lemma_upsert(v.markets, market_after(v, market_id, q));
    lemma_upsert(v.shares, share_after(market_id, outcome, q));
    lemma_upsert(v.users, user_after(v, user_id, v.balance(user_id) + q.amount));
}

/// Buying `quantity` shares of an outcome and then selling the same quantity of
/// it, with no trade in between, restores the position exactly and moves the
/// balance by the sell proceeds minus the buy cost; the user ends with no more
/// points than before exactly when the proceeds do not exceed the cost.
pub proof fn lemma_round_trip(
    v: LedgerView,
    user_id: i64,
    market_id: i64,
    outcome: Outcome,
    quantity: u64,
    bought: Quote,
    sold: Quote,
)
    requires
        v.wf(),
        buy_error(v, user_id, market_id, outcome, quantity, Ok(bought)) is None,
    ensures
        ({
            let w = after_buy(v, user_id, market_id, outcome, quantity, bought);
            &&& sell_error(w, user_id, market_id, outcome, quantity, Ok(sold)) is None
                <==> v.balance(user_id) - bought.amount + sold.amount <= u64::MAX
            &&& sell_error(w, user_id, market_id, outcome, quantity, Ok(sold)) is None ==> {
                let x = after_sell(w, user_id, market_id, outcome, quantity, sold);
                &&& x.held(user_id, market_id, outcome) == v.held(user_id, market_id, outcome)
                &&& x.balance(user_id) == v.balance(user_id) - bought.amount + sold.amount
                &&& (x.balance(user_id) <= v.balance(user_id) <==> sold.amount <= bought.amount)
            }
        }),
{
    let w = after_buy(v, user_id, market_id, outcome, quantity, bought);
    lemma_after_buy(v, user_id, market_id, outcome, quantity, bought);
    if sell_error(w, user_id, market_id, outcome, quantity, Ok(sold)) is None {
        lemma_after_sell(w, user_id, market_id, outcome, quantity, sold);
    }
}

impl Ledger {
    /// The shares `user_id` holds in an outcome; 0 where no position row exists.
    pub fn held(&self, user_id: i64, market_id: i64, outcome: Outcome) -> (r: u64)
        requires
            self@.wf(),
        ensures
            r == self@.held(user_id, market_id, outcome),
    {
        match self.find_position(user_id, market_id, outcome.index()) {
            Some(i) => self.position_at(i).amount,
            None => 0,
        }
    }

    /// The position row of `user_id` in an outcome, if there is one.
    pub fn position(&self, user_id: i64, market_id: i64, outcome: Outcome) -> (r: Option<Position>)
        requires
            self@.wf(),
        ensures
            r == (if has_position(self@, user_id, market_id, outcome) {
                Some(self@.position_map()[position_key(user_id, market_id, outcome)])
            } else {
                None
            }),
    {
        match self.find_position(user_id, market_id, outcome.index()) {
            Some(i) => Some(self.position_at(i)),
            None => None,
        }
    }

    /// The checks a buy makes before it is priced: the user and the market exist.
    /// On success, the market state the engine prices the buy against.
    pub fn prepare_buy(&self, user_id: i64, market_id: i64) -> (r: Result<MarketState, TradeError>)
        requires
            self@.wf(),
        ensures
            r == (if !self@.has_user(user_id) {
                Err(TradeError::UnknownUser)
            } else if !self@.has_market(market_id) {
                Err(TradeError::MarketNotFound)
            } else {
                Ok(state_of(self@, market_id))
            }),
    {
        if self.find_user(user_id).is_none() {
            return Err(TradeError::UnknownUser);
        }
        match self.load_market(market_id) {
            Some(state) => Ok(state),
            None => Err(TradeError::MarketNotFound),
        }
    }

    /// The checks a sell makes before it is priced: the user exists, holds at
    /// least `quantity` shares of the outcome, and the market exists. On success,
    /// the market state the engine prices the sell against.
    pub fn prepare_sell(&self, user_id: i64, market_id: i64, outcome: Outcome, quantity: u64) -> (r:
        Result<MarketState, TradeError>)
        requires
            self@.wf(),
        ensures
            r == (if !self@.has_user(user_id) {
                Err(TradeError::UnknownUser)
            } else if !has_position(self@, user_id, market_id, outcome) || self@.held(
                user_id,
                market_id,
                outcome,
            ) < quantity {
                Err(TradeError::InsufficientShares)
            } else if !self@.has_market(market_id) {
                Err(TradeError::MarketNotFound)
            } else {
                Ok(state_of(self@, market_id))
            }),
    {
        if self.find_user(user_id).is_none() {
            return Err(TradeError::UnknownUser);
        }
        match self.find_position(user_id, market_id, outcome.index()) {
            None => {
                return Err(TradeError::InsufficientShares);
            },
            Some(p) => {
                if self.position_at(p).amount < quantity {
                    return Err(TradeError::InsufficientShares);
                }
            },
        }
        match self.load_market(market_id) {
            Some(state) => Ok(state),
            None => Err(TradeError::MarketNotFound),
        }
    }

    /// Buys `quantity` shares of `outcome` at the engine's quote `priced`.
    ///
    /// Fails, writing nothing, with the first of: the user is unknown, the market
    /// is unknown, the engine rejected the trade, the cost exceeds the balance, the
    /// position would overflow. Otherwise writes the market volume, the outcome's
    /// share row, the debited balance and the incremented position, all from `priced`.
    pub fn buy(
        &mut self,
        user_id: i64,
        market_id: i64,
        outcome: Outcome,
        quantity: u64,
        priced: Result<Quote, String>,
    ) -> (r: Result<TradeReceipt, TradeError>)
        requires
            old(self)@.wf(),
        ensures
            final(self)@.wf(),
            match buy_error(old(self)@, user_id, market_id, outcome, quantity, priced) {
                Some(e) => r == Err::<TradeReceipt, TradeError>(e) && final(self)@ == old(self)@,
                None => {
                    let q = priced->Ok_0;
                    &&& final(self)@ == after_buy(old(self)@, user_id, market_id, outcome, quantity, q)
                    &&& r == Ok::<TradeReceipt, TradeError>(
                        TradeReceipt {
                            user_id,
                            market_id,
                            outcome,
                            quantity,
                            amount: q.amount,
                            balance: (old(self)@.balance(user_id) - q.amount) as u64,
                            market_volume: q.market_volume,
                            outcome_shares: q.shares.at(outcome),
                            position: (old(self)@.held(user_id, market_id, outcome) + quantity) as u64,
                        },
                    )
                },
            },
            r is Ok ==> trade_effect(
                old(self)@,
                final(self)@,
                user_id,
                market_id,
                outcome,
                priced->Ok_0,
                old(self)@.balance(user_id) - priced->Ok_0.amount,
                old(self)@.held(user_id, market_id, outcome) + quantity,
            ),
            r is Ok && priced->Ok_0.amount > 0 ==> final(self)@.balance(user_id) < old(
                self,
            )@.balance(user_id),
    {
        let ui = match self.find_user(user_id) {
            Some(i) => i,
            None => {
                return Err(TradeError::UnknownUser);
            },
        };
        let mi = match self.find_market(market_id) {
            Some(i) => i,
            None => {
                return Err(TradeError::MarketNotFound);
            },
        };
        let q = match priced {
            Ok(q) => q,
            Err(reason) => {
                return Err(TradeError::EngineRejected(reason));
            },
        };
        let points = self.user_at(ui).points;
        if q.amount > points {
            return Err(TradeError::InsufficientFunds);
        }
        let held = self.held(user_id, market_id, outcome);
        if held > u64::MAX - quantity {
            return Err(TradeError::Overflow);
        }
        let ghost v = self@;
        let balance = points - q.amount;
        let position = held + quantity;
        let outcome_shares = q.shares.get(outcome);
        self.set_volume(mi, q.market_volume);
        self.put_share(ShareRow { market_id, idx: outcome.index(), amount: outcome_shares });
        self.set_points(ui, balance);
        self.put_position(
            Position { user_id, market_id, outcome_idx: outcome.index(), amount: position },
        );
        proof {
            lemma_after_buy(v, user_id, market_id, outcome, quantity, q);
        }
        Ok(
            TradeReceipt {
                user_id,
                market_id,
                outcome,
                quantity,
                amount: q.amount,
                balance,
                market_volume: q.market_volume,
                outcome_shares,
                position,
            },
        )
    }

    /// Sells `quantity` shares of `outcome` at the engine's quote `priced`.
    ///
    /// Fails, writing nothing, with the first of: the user is unknown, the user
    /// holds no position or fewer than `quantity` shares, the market is unknown,
    /// the engine rejected the trade, the balance would overflow. Otherwise writes
    /// the decremented position (a row at 0 stays), the market volume, the
    /// outcome's share row and the credited balance, all from `priced`.
    pub fn sell(
        &mut self,
        user_id: i64,
        market_id: i64,
        outcome: Outcome,
        quantity: u64,
        priced: Result<Quote, String>,
    ) -> (r: Result<TradeReceipt, TradeError>)
        requires
            old(self)@.wf(),
        ensures
            final(self)@.wf(),
            match sell_error(old(self)@, user_id, market_id, outcome, quantity, priced) {
                Some(e) => r == Err::<TradeReceipt, TradeError>(e) && final(self)@ == old(self)@,
                None => {
                    let q = priced->Ok_0;
                    &&& final(self)@ == after_sell(old(self)@, user_id, market_id, outcome, quantity, q)
                    &&& r == Ok::<TradeReceipt, TradeError>(
                        TradeReceipt {
                            user_id,
                            market_id,
                            outcome,
                            quantity,
                            amount: q.amount,
                            balance: (old(self)@.balance(user_id) + q.amount) as u64,
                            market_volume: q.market_volume,
                            outcome_shares: q.shares.at(outcome),
                            position: (old(self)@.held(user_id, market_id, outcome) - quantity) as u64,
                        },
                    )
                },
            },
            r is Ok ==> trade_effect(
                old(self)@,
                final(self)@,
                user_id,
                market_id,
                outcome,
                priced->Ok_0,
                old(self)@.balance(user_id) + priced->Ok_0.amount,
                old(self)@.held(user_id, market_id, outcome) - quantity,
            ),
    {
        let ui = match self.find_user(user_id) {
            Some(i) => i,
            None => {
                return Err(TradeError::UnknownUser);
            },
        };
        let held = match self.find_position(user_id, market_id, outcome.index()) {
            Some(p) => self.position_at(p).amount,
            None => {
                return Err(TradeError::InsufficientShares);
            },
        };
        if held < quantity {
            return Err(TradeError::InsufficientShares);
        }
        let mi = match self.find_market(market_id) {
            Some(i) => i,
            None => {
                return Err(TradeError::MarketNotFound);
            },
        };
        let q = match priced {
            Ok(q) => q,
            Err(reason) => {
                return Err(TradeError::EngineRejected(reason));
            },
        };
        let points = self.user_at(ui).points;
        if points > u64::MAX - q.amount {
            return Err(TradeError::Overflow);
        }
        let ghost v = self@;
        let balance = points + q.amount;
        let position = held - quantity;
        let outcome_shares = q.shares.get(outcome);
        self.put_position(
            Position { user_id, market_id, outcome_idx: outcome.index(), amount: position },
        );
        self.set_volume(mi, q.market_volume);
        self.put_share(ShareRow { market_id, idx: outcome.index(), amount: outcome_shares });
        self.set_points(ui, balance);
        proof {
            lemma_after_sell(v, user_id, market_id, outcome, quantity, q);
        }
        Ok(
            TradeReceipt {
                user_id,
                market_id,
                outcome,
                quantity,
                amount: q.amount,
                balance,
                market_volume: q.market_volume,
                outcome_shares,
                position,
            },
        )
    }
}

} // verus!
