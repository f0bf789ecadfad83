//! Virtual equity purchases: a quoted share price bought with points, kept as a
//! position with a volume-weighted average entry price.
use vstd::prelude::*;

use crate::ledger::{EquityPosition, Ledger, LedgerView, User};
use crate::table::{lemma_upsert, upsert};

verus! {

/// Millionths of a point that one cent of a quoted share price costs: a share
/// quoted at `c` dollars costs `c / 100` points.
pub const MICROS_PER_CENT: u64 = 100;

/// What `str::to_uppercase` returns for a string.
pub uninterp spec fn upper_of(s: Seq<char>) -> Seq<char>;

/// Relies on `str::to_uppercase`: the upper-case mapping of the characters, a
/// function of them alone.
#[verifier::external_body]
fn uppercase(s: &str) -> (r: String)
    ensures
        r@ == upper_of(s@),
{
    s.to_uppercase()
}

/// The form a symbol is quoted and stored under: its upper-case mapping.
pub fn normalize_symbol(symbol: &str) -> (r: String)
    ensures
        r@ == upper_of(symbol@),
{
    uppercase(symbol)
}

/// Why an equity purchase was not carried out.
#[derive(Clone, Copy, Debug, PartialEq, Eq, Structural)]
pub enum EquityError {
    UnknownUser,
    /// The quote source gave no positive price for the symbol.
    InvalidSymbol,
    InsufficientFunds,
    /// The share count or the average price would leave the range of `u64`.
    Overflow,
}

/// The values a completed equity purchase wrote.
#[derive(Clone, Copy, Debug, PartialEq, Eq, Structural)]
pub struct EquityReceipt {
    pub price_per_share: u64,
    pub cost: u64,
    pub balance: u64,
    pub shares: u64,
    pub avg_price: u64,
}

/// Price per share, in millionths of a point, of a quote in cents.
pub open spec fn share_price(price_cents: u64) -> int {
    price_cents * MICROS_PER_CENT
}

/// Total cost of `shares` shares at a quote in cents.
pub open spec fn equity_cost(price_cents: u64, shares: u64) -> int {
    share_price(price_cents) * shares
}

/// The shares of `symbol` the user holds; 0 without a position.
pub open spec fn equity_held(v: LedgerView, user_id: i64, symbol: Seq<char>) -> int {
    if v.equity_map().contains_key((user_id, symbol)) {
        v.equity_map()[(user_id, symbol)].shares as int
    } else {
        0
    }
}

/// The average price after the purchase: the value paid for the shares held
/// and for the new ones, over the new share count (rounded down); the quoted
/// price on a first purchase or where no shares are held at all.
pub open spec fn avg_after(v: LedgerView, user_id: i64, symbol: Seq<char>, price_cents: u64, shares: u64) -> int {
    let total = equity_held(v, user_id, symbol) + shares;
    if v.equity_map().contains_key((user_id, symbol)) && total != 0 {
        let e = v.equity_map()[(user_id, symbol)];
        (e.shares * e.avg_price + equity_cost(price_cents, shares)) / total
    } else {
        share_price(price_cents)
    }
}

/// The error an equity purchase ends with, in the order the checks are made;
/// `None` when it succeeds.
pub open spec fn equity_error(
    v: LedgerView,
    user_id: i64,
    symbol: Seq<char>,
    price_cents: u64,
    shares: u64,
) -> Option<EquityError> {
    if !v.has_user(user_id) {
        Some(EquityError::UnknownUser)
    } else if price_cents == 0 {
        Some(EquityError::InvalidSymbol)
    } else if equity_cost(price_cents, shares) > v.balance(user_id) {
        Some(EquityError::InsufficientFunds)
    } else if equity_held(v, user_id, symbol) + shares > u64::MAX || avg_after(
        v,
        user_id,
        symbol,
        price_cents,
        shares,
    ) > u64::MAX {
        Some(EquityError::Overflow)
    } else {
        None
    }
}

/// The ledger after a successful purchase: the debited balance and the
/// position with the new share count and average price.
pub open spec fn after_equity_buy(
    v: LedgerView,
    user_id: i64,
    symbol: String,
    price_cents: u64,
    shares: u64,
) -> LedgerView {
    LedgerView {
        users: upsert(
            v.users,
            User {
                points: (v.balance(user_id) - equity_cost(price_cents, shares)) as u64,
                ..v.user_map()[user_id]
            },
        ),
        equities: upsert(
            v.equities,
            EquityPosition {
                user_id,
                symbol,
                shares: (equity_held(v, user_id, symbol@) + shares) as u64,
                avg_price: avg_after(v, user_id, symbol@, price_cents, shares) as u64,
            },
        ),
        ..v
    }
}

impl Ledger {
    /// Buys `shares` shares of `symbol` (already normalized) quoted at
    /// `price_cents` cents a share.
    ///
    /// Fails, writing nothing, with the first of: the user is unknown, the price
    /// is 0, the cost exceeds the balance, the position would overflow. Otherwise
    /// debits the cost and adds the shares to the position, updating its average
    /// price, or creates the position at the quoted price.
    pub fn buy_stock(&mut self, user_id: i64, symbol: String, price_cents: u64, shares: u64) -> (r:
        Result<EquityReceipt, EquityError>)
        requires
            old(self)@.wf(),
        ensures
            final(self)@.wf(),
            match equity_error(old(self)@, user_id, symbol@, price_cents, shares) {
                Some(e) => r == Err::<EquityReceipt, EquityError>(e) && final(self)@ == old(self)@,
                None => {
                    &&& final(self)@ == after_equity_buy(
                        old(self)@,
                        user_id,
                        symbol,
                        price_cents,
                        shares,
                    )
                    &&& r == Ok::<EquityReceipt, EquityError>(
                        EquityReceipt {
                            price_per_share: share_price(price_cents) as u64,
                            cost: equity_cost(price_cents, shares) as u64,
                            balance: (old(self)@.balance(user_id) - equity_cost(
                                price_cents,
                                shares,
                            )) as u64,
                            shares: (equity_held(old(self)@, user_id, symbol@) + shares) as u64,
                            avg_price: avg_after(
                                old(self)@,
                                user_id,
                                symbol@,
                                price_cents,
                                shares,
                            ) as u64,
                        },
                    )
                },
            },
            r is Ok ==> {
                &&& final(self)@.user_map() == old(self)@.user_map().insert(
                    user_id,
                    User {
                        points: (old(self)@.balance(user_id) - equity_cost(price_cents, shares)) as u64,
                        ..old(self)@.user_map()[user_id]
                    },
                )
                &&& final(self)@.balance(user_id) == old(self)@.balance(user_id) - equity_cost(
                    price_cents,
                    shares,
                )
                &&& final(self)@.equity_map().contains_key((user_id, symbol@))
                &&& equity_held(final(self)@, user_id, symbol@) == equity_held(
                    old(self)@,
                    user_id,
                    symbol@,
                ) + shares
                &&& final(self)@.equity_map()[(user_id, symbol@)].avg_price == avg_after(
                    old(self)@,
                    user_id,
                    symbol@,
                    price_cents,
                    shares,
                )
                &&& final(self)@.equity_map() == old(self)@.equity_map().insert(
                    (user_id, symbol@),
                    final(self)@.equity_map()[(user_id, symbol@)],
                )
            },
    {
        let ui = match self.find_user(user_id) {
            Some(i) => i,
            None => {
                return Err(EquityError::UnknownUser);
            },
        };
        if price_cents == 0 {
            return Err(EquityError::InvalidSymbol);
        }
        let points = self.user_at(ui).points;
        let price: u128 = price_cents as u128 * MICROS_PER_CENT as u128;
        let cost: u128 = match price.checked_mul(shares as u128) {
            Some(c) => c,
            None => {
                return Err(EquityError::InsufficientFunds);
            },
        };
        if cost > points as u128 {
            return Err(EquityError::InsufficientFunds);
        }
        let existing = self.find_equity(user_id, &symbol);
        let (held, avg): (u64, u128) = match existing {
            Some(i) => {
                let e = self.equity_at(i);
                let held = e.shares;
                let total: u128 = held as u128 + shares as u128;
                if total == 0 {
                    (held, price)
                } else {
                    proof {
                        assert(held * e.avg_price <= u64::MAX * u64::MAX) by (nonlinear_arith)
                            requires
                                held <= u64::MAX,
                                e.avg_price <= u64::MAX,
                        ;
                    }
                    let value: u128 = held as u128 * e.avg_price as u128 + cost;
                    (held, value / total)
                }
            },
            None => (0, price),
        };
        if held > u64::MAX - shares || avg > u64::MAX as u128 {
            return Err(EquityError::Overflow);
        }
        let cost = cost as u64;
        let balance = points - cost;
        let total_shares = held + shares;
        let avg_price = avg as u64;
        proof {
            lemma_upsert(
                self@.users,
                User { points: balance, ..self@.users[ui as int] },
            );
        }
        self.set_points(ui, balance);
        self.put_equity(EquityPosition { user_id, symbol, shares: total_shares, avg_price });
        Ok(EquityReceipt { price_per_share: price as u64, cost, balance, shares: total_shares, avg_price })
    }
}

} // verus!
