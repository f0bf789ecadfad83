//! The ledger store: users, markets, outcome share rows, positions and equity
//! positions, each a table of rows with a unique key.
use vstd::prelude::*;

use crate::outcome::{outcome_index, Outcome};
use crate::table::{has_key, keyed, lemma_index_of_unique, lemma_upsert, lemma_upsert_at, unique_keys, upsert, Keyed};

verus! {

/// Millionths of a point in one point.
pub const MICROS_PER_POINT: u64 = 1_000_000;

/// A participant and their point balance.
pub struct User {
    pub id: i64,
    pub points: u64,
    pub username: String,
}

/// A market's metadata row.
pub struct Market {
    pub id: i64,
    pub liquidity: u64,
    pub is_resolved: bool,
    pub resolved_idx: Option<i64>,
    pub market_volume: u64,
    pub title: String,
    pub description: String,
}

/// The pricing engine's share count for one outcome of one market; the row's
/// label is the label of the outcome at `idx`.
#[derive(Clone, Copy, Debug, PartialEq, Eq, Structural)]
pub struct ShareRow {
    pub market_id: i64,
    pub idx: i64,
    pub amount: u64,
}

/// Shares a user holds in one outcome of one market.
#[derive(Clone, Copy, Debug, PartialEq, Eq, Structural)]
pub struct Position {
    pub user_id: i64,
    pub market_id: i64,
    pub outcome_idx: i64,
    pub amount: u64,
}

/// Shares of an outside symbol a user holds, with the average price paid per share.
pub struct EquityPosition {
    pub user_id: i64,
    pub symbol: String,
    pub shares: u64,
    pub avg_price: u64,
}

impl Keyed<i64> for User {
    open spec fn key(&self) -> i64 {
        self.id
    }
}

impl Keyed<i64> for Market {
    open spec fn key(&self) -> i64 {
        self.id
    }
}

impl Keyed<(i64, i64)> for ShareRow {
    open spec fn key(&self) -> (i64, i64) {
        (self.market_id, self.idx)
    }
}

impl Keyed<(i64, i64, i64)> for Position {
    open spec fn key(&self) -> (i64, i64, i64) {
        (self.user_id, self.market_id, self.outcome_idx)
    }
}

impl Keyed<(i64, Seq<char>)> for EquityPosition {
    open spec fn key(&self) -> (i64, Seq<char>) {
        (self.user_id, self.symbol@)
    }
}

/// The key of the share row of `outcome` in market `market_id`.
pub open spec fn share_key(market_id: i64, outcome: Outcome) -> (i64, i64) {
    (market_id, outcome_index(outcome) as i64)
}

/// The key of `user_id`'s position in `outcome` of market `market_id`.
pub open spec fn position_key(user_id: i64, market_id: i64, outcome: Outcome) -> (i64, i64, i64) {
    (user_id, market_id, outcome_index(outcome) as i64)
}

/// The ledger's tables, each in storage order.
pub struct LedgerView {
    pub users: Seq<User>,
    pub markets: Seq<Market>,
    pub shares: Seq<ShareRow>,
    pub positions: Seq<Position>,
    pub equities: Seq<EquityPosition>,
}

impl LedgerView {
    /// Every table has unique keys.
    pub open spec fn wf(self) -> bool {
        &&& unique_keys(self.users)
        &&& unique_keys(self.markets)
        &&& unique_keys(self.shares)
        &&& unique_keys(self.positions)
        &&& unique_keys(self.equities)
    }

    pub open spec fn user_map(self) -> Map<i64, User> {
        keyed(self.users)
    }

    pub open spec fn market_map(self) -> Map<i64, Market> {
        keyed(self.markets)
    }

    pub open spec fn share_map(self) -> Map<(i64, i64), ShareRow> {
        keyed(self.shares)
    }

    pub open spec fn position_map(self) -> Map<(i64, i64, i64), Position> {
        keyed(self.positions)
    }

    pub open spec fn equity_map(self) -> Map<(i64, Seq<char>), EquityPosition> {
        keyed(self.equities)
    }

    pub open spec fn has_user(self, user_id: i64) -> bool {
        self.user_map().contains_key(user_id)
    }

    pub open spec fn has_market(self, market_id: i64) -> bool {
        self.market_map().contains_key(market_id)
    }

    /// The point balance of a known user.
    pub open spec fn balance(self, user_id: i64) -> u64 {
        self.user_map()[user_id].points
    }

    /// The market volume of a known market.
    pub open spec fn volume(self, market_id: i64) -> u64 {
        self.market_map()[market_id].market_volume
    }

    /// The share count stored for an outcome of a market; 0 where the row is missing.
    pub open spec fn outcome_shares(self, market_id: i64, outcome: Outcome) -> u64 {
        if self.share_map().contains_key(share_key(market_id, outcome)) {
            self.share_map()[share_key(market_id, outcome)].amount
        } else {
            0
        }
    }

    /// The shares a user holds in an outcome; 0 where no position row exists.
    pub open spec fn held(self, user_id: i64, market_id: i64, outcome: Outcome) -> u64 {
        if self.position_map().contains_key(position_key(user_id, market_id, outcome)) {
            self.position_map()[position_key(user_id, market_id, outcome)].amount
        } else {
            0
        }
    }
}

/// The ledger store held in memory.
pub struct Ledger {
    users: Vec<User>,
    markets: Vec<Market>,
    shares: Vec<ShareRow>,
    positions: Vec<Position>,
    equities: Vec<EquityPosition>,
}

impl View for Ledger {
    type V = LedgerView;

    closed spec fn view(&self) -> LedgerView {
        LedgerView {
            users: self.users@,
            markets: self.markets@,
            shares: self.shares@,
            positions: self.positions@,
            equities: self.equities@,
        }
    }
}

impl Ledger {
    /// An empty ledger.
    pub fn new() -> (l: Ledger)
        ensures
            l@.wf(),
            l@.users.len() == 0,
            l@.markets.len() == 0,
            l@.shares.len() == 0,
            l@.positions.len() == 0,
            l@.equities.len() == 0,
    {
        Ledger {
            users: Vec::new(),
            markets: Vec::new(),
            shares: Vec::new(),
            positions: Vec::new(),
            equities: Vec::new(),
        }
    }

    /// Index of the user row with id `user_id`.
    pub(crate) fn find_user(&self, user_id: i64) -> (r: Option<usize>)
        requires
            self@.wf(),
        ensures
            match r {
                Some(i) => i < self@.users.len() && self@.users[i as int].id == user_id
                    && self@.has_user(user_id) && self@.user_map()[user_id] == self@.users[i as int],
                None => !self@.has_user(user_id),
            },
    {
        let mut i: usize = 0;
        while i < self.users.len()
            invariant
                self@.wf(),
                i <= self.users@.len(),
                forall|j: int| 0 <= j < i ==> self.users@[j].id != user_id,
            decreases self.users@.len() - i,
        {
            if self.users[i].id == user_id {
                proof {
                    lemma_index_of_unique(self@.users, i as int);
                }
                return Some(i);
            }
            i = i + 1;
        }
        assert(!has_key(self@.users, user_id)) by {
            if has_key(self@.users, user_id) {
                let j = choose|j: int| 0 <= j < self@.users.len() && #[trigger] self@.users[j].key() == user_id;
                assert(self.users@[j].id == user_id);
            }
        }
        None
    }

    /// Index of the market row with id `market_id`.
    pub(crate) fn find_market(&self, market_id: i64) -> (r: Option<usize>)
        requires
            self@.wf(),
        ensures
            match r {
                Some(i) => i < self@.markets.len() && self@.markets[i as int].id == market_id
                    && self@.has_market(market_id) && self@.market_map()[market_id]
                    == self@.markets[i as int],
                None => !self@.has_market(market_id),
            },
    {
        let mut i: usize = 0;
        while i < self.markets.len()
            invariant
                self@.wf(),
                i <= self.markets@.len(),
                forall|j: int| 0 <= j < i ==> self.markets@[j].id != market_id,
            decreases self.markets@.len() - i,
        {
            if self.markets[i].id == market_id {
                proof {
                    lemma_index_of_unique(self@.markets, i as int);
                }
                return Some(i);
            }
            i = i + 1;
        }
        assert(!has_key(self@.markets, market_id)) by {
            if has_key(self@.markets, market_id) {
                let j = choose|j: int| 0 <= j < self@.markets.len() && #[trigger] self@.markets[j].key() == market_id;
                assert(self.markets@[j].id == market_id);
            }
        }
        None
    }

    /// Index of the share row with key `(market_id, idx)`.
    pub(crate) fn find_share(&self, market_id: i64, idx: i64) -> (r: Option<usize>)
        requires
            self@.wf(),
        ensures
            match r {
                Some(i) => i < self@.shares.len() && self@.shares[i as int].market_id == market_id
                    && self@.shares[i as int].idx == idx && self@.share_map().contains_key(
                    (market_id, idx),
                ) && self@.share_map()[(market_id, idx)] == self@.shares[i as int],
                None => !self@.share_map().contains_key((market_id, idx)),
            },
    {
        let mut i: usize = 0;
        while i < self.shares.len()
            invariant
                self@.wf(),
                i <= self.shares@.len(),
                forall|j: int|
                    0 <= j < i ==> !(self.shares@[j].market_id == market_id && self.shares@[j].idx
                        == idx),
            decreases self.shares@.len() - i,
        {
            if self.shares[i].market_id == market_id && self.shares[i].idx == idx {
                proof {
                    lemma_index_of_unique(self@.shares, i as int);
                }
                return Some(i);
            }
            i = i + 1;
        }
        assert(!has_key(self@.shares, (market_id, idx))) by {
            if has_key(self@.shares, (market_id, idx)) {
                let j = choose|j: int|
                    0 <= j < self@.shares.len() && #[trigger] self@.shares[j].key() == (
                        market_id,
                        idx,
                    );
                assert(self.shares@[j].market_id == market_id && self.shares@[j].idx == idx);
            }
        }
        None
    }

    /// Index of the position row with key `(user_id, market_id, outcome_idx)`.
    pub(crate) fn find_position(&self, user_id: i64, market_id: i64, outcome_idx: i64) -> (r:
        Option<usize>)
        requires
            self@.wf(),
        ensures
            match r {
                Some(i) => i < self@.positions.len() && self@.positions[i as int].key() == (
                    user_id,
                    market_id,
                    outcome_idx,
                ) && self@.position_map().contains_key((user_id, market_id, outcome_idx))
                    && self@.position_map()[(user_id, market_id, outcome_idx)]
                    == self@.positions[i as int],
                None => !self@.position_map().contains_key((user_id, market_id, outcome_idx)),
            },
    {
        let mut i: usize = 0;
        while i < self.positions.len()
            invariant
                self@.wf(),
                i <= self.positions@.len(),
                forall|j: int|
                    0 <= j < i ==> #[trigger] self.positions@[j].key() != (
                        user_id,
                        market_id,
                        outcome_idx,
                    ),
            decreases self.positions@.len() - i,
        {
            let p = self.positions[i];
            if p.user_id == user_id && p.market_id == market_id && p.outcome_idx == outcome_idx {
                proof {
                    lemma_index_of_unique(self@.positions, i as int);
                }
                return Some(i);
            }
            i = i + 1;
        }
        None
    }

    /// Index of the equity position of `user_id` in `symbol`.
    pub(crate) fn find_equity(&self, user_id: i64, symbol: &String) -> (r: Option<usize>)
        requires
            self@.wf(),
        ensures
            match r {
                Some(i) => i < self@.equities.len() && self@.equities[i as int].key() == (
                    user_id,
                    symbol@,
                ) && self@.equity_map().contains_key((user_id, symbol@))
                    && self@.equity_map()[(user_id, symbol@)] == self@.equities[i as int],
                None => !self@.equity_map().contains_key((user_id, symbol@)),
            },
    {
        let mut i: usize = 0;
        while i < self.equities.len()
            invariant
                self@.wf(),
                i <= self.equities@.len(),
                forall|j: int|
                    0 <= j < i ==> #[trigger] self.equities@[j].key() != (user_id, symbol@),
            decreases self.equities@.len() - i,
        {
            if self.equities[i].user_id == user_id && self.equities[i].symbol == *symbol {
                proof {
                    lemma_index_of_unique(self@.equities, i as int);
                }
                return Some(i);
            }
            i = i + 1;
        }
        None
    }

    pub(crate) fn user_at(&self, i: usize) -> (u: &User)
        requires
            i < self@.users.len(),
        ensures
            *u == self@.users[i as int],
    {
        &self.users[i]
    }

    pub(crate) fn market_at(&self, i: usize) -> (m: &Market)
        requires
            i < self@.markets.len(),
        ensures
            *m == self@.markets[i as int],
    {
        &self.markets[i]
    }

    pub(crate) fn share_at(&self, i: usize) -> (s: ShareRow)
        requires
            i < self@.shares.len(),
        ensures
            s == self@.shares[i as int],
    {
        self.shares[i]
    }

    pub(crate) fn position_at(&self, i: usize) -> (p: Position)
        requires
            i < self@.positions.len(),
        ensures
            p == self@.positions[i as int],
    {
        self.positions[i]
    }

    pub(crate) fn equity_at(&self, i: usize) -> (e: &EquityPosition)
        requires
            i < self@.equities.len(),
        ensures
            *e == self@.equities[i as int],
    {
        &self.equities[i]
    }

    pub(crate) fn num_positions(&self) -> (n: usize)
        ensures
            n == self@.positions.len(),
    {
        self.positions.len()
    }

    pub(crate) fn num_markets(&self) -> (n: usize)
        ensures
            n == self@.markets.len(),
    {
        self.markets.len()
    }

    /// Sets the balance of the user row at `i`.
    pub(crate) fn set_points(&mut self, i: usize, points: u64)
        requires
            old(self)@.wf(),
            i < old(self)@.users.len(),
        ensures
            final(self)@ == (LedgerView {
                users: upsert(old(self)@.users, User { points, ..old(self)@.users[i as int] }),
                ..old(self)@
            }),
            final(self)@.wf(),
    {
        proof {
            lemma_upsert_at(self@.users, i as int, User { points, ..self@.users[i as int] });
            lemma_upsert(self@.users, User { points, ..self@.users[i as int] });
        }
        self.users[i].points = points;
    }

    /// Sets the market volume of the market row at `i`.
    pub(crate) fn set_volume(&mut self, i: usize, market_volume: u64)
        requires
            old(self)@.wf(),
            i < old(self)@.markets.len(),
        ensures
            final(self)@ == (LedgerView {
                markets: upsert(
                    old(self)@.markets,
                    Market { market_volume, ..old(self)@.markets[i as int] },
                ),
                ..old(self)@
            }),
            final(self)@.wf(),
    {
        proof {
            lemma_upsert_at(
                self@.markets,
                i as int,
                Market { market_volume, ..self@.markets[i as int] },
            );
            lemma_upsert(self@.markets, Market { market_volume, ..self@.markets[i as int] });
        }
        self.markets[i].market_volume = market_volume;
    }

    /// Writes a user row, replacing the row with the same id.
    pub fn put_user(&mut self, row: User)
        requires
            old(self)@.wf(),
        ensures
            final(self)@ == (LedgerView { users: upsert(old(self)@.users, row), ..old(self)@ }),
            final(self)@.user_map() == old(self)@.user_map().insert(row.id, row),
            final(self)@.wf(),
    {
        proof {
            lemma_upsert(self@.users, row);
        }
        match self.find_user(row.id) {
            Some(i) => {
                proof {
                    lemma_upsert_at(self@.users, i as int, row);
                }
                self.users.set(i, row);
            },
            None => {
                self.users.push(row);
            },
        }
    }

    /// Writes a market row, replacing the row with the same id.
    pub fn put_market(&mut self, row: Market)
        requires
            old(self)@.wf(),
        ensures
            final(self)@ == (LedgerView { markets: upsert(old(self)@.markets, row), ..old(self)@ }),
            final(self)@.market_map() == old(self)@.market_map().insert(row.id, row),
            final(self)@.wf(),
    {
        proof {
            lemma_upsert(self@.markets, row);
        }
        match self.find_market(row.id) {
            Some(i) => {
                proof {
                    lemma_upsert_at(self@.markets, i as int, row);
                }
                self.markets.set(i, row);
            },
            None => {
                self.markets.push(row);
            },
        }
    }

    /// Writes a share row, replacing the row with the same market and index.
    pub fn put_share(&mut self, row: ShareRow)
        requires
            old(self)@.wf(),
        ensures
            final(self)@ == (LedgerView { shares: upsert(old(self)@.shares, row), ..old(self)@ }),
            final(self)@.share_map() == old(self)@.share_map().insert((row.market_id, row.idx), row),
            final(self)@.wf(),
    {
        proof {
            lemma_upsert(self@.shares, row);
        }
        match self.find_share(row.market_id, row.idx) {
            Some(i) => {
                proof {
                    lemma_upsert_at(self@.shares, i as int, row);
                }
                self.shares.set(i, row);
            },
            None => {
                self.shares.push(row);
            },
        }
    }

    /// Writes a position row, replacing the row with the same user, market and outcome.
    pub fn put_position(&mut self, row: Position)
        requires
            old(self)@.wf(),
        ensures
            final(self)@ == (LedgerView {
                positions: upsert(old(self)@.positions, row),
                ..old(self)@
            }),
            final(self)@.position_map() == old(self)@.position_map().insert((row.user_id, row.market_id, row.outcome_idx), row),
            final(self)@.wf(),
    {
        proof {
            lemma_upsert(self@.positions, row);
        }
        match self.find_position(row.user_id, row.market_id, row.outcome_idx) {
            Some(i) => {
                proof {
                    lemma_upsert_at(self@.positions, i as int, row);
                }
                self.positions.set(i, row);
            },
            None => {
                self.positions.push(row);
            },
        }
    }

    /// Writes an equity position row, replacing the row with the same user and symbol.
    pub fn put_equity(&mut self, row: EquityPosition)
        requires
            old(self)@.wf(),
        ensures
            final(self)@ == (LedgerView {
                equities: upsert(old(self)@.equities, row),
                ..old(self)@
            }),
            final(self)@.equity_map() == old(self)@.equity_map().insert((row.user_id, row.symbol@), row),
            final(self)@.wf(),
    {
        proof {
            lemma_upsert(self@.equities, row);
        }
        match self.find_equity(row.user_id, &row.symbol) {
            Some(i) => {
                proof {
                    lemma_upsert_at(self@.equities, i as int, row);
                }
                self.equities.set(i, row);
            },
            None => {
                self.equities.push(row);
            },
        }
    }
}

} // verus!
