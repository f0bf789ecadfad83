//! Users' balances, passive activity credit, and market creation and listing.
use vstd::prelude::*;

use crate::ledger::{Ledger, LedgerView, Market, ShareRow, User, MICROS_PER_POINT};
use crate::outcome::Outcome;
use crate::table::{lemma_upsert, upsert, Keyed};

verus! {

/// Balance a user starts with: 10 points.
pub const INITIAL_POINTS: u64 = 10 * MICROS_PER_POINT;

/// Credit for each observed activity: 0.01 points.
pub const ACTIVITY_REWARD: u64 = MICROS_PER_POINT / 100;

/// Liquidity a new market is created with: 10 points.
pub const DEFAULT_LIQUIDITY: u64 = 10 * MICROS_PER_POINT;

/// An unresolved market as listed to users.
pub struct MarketListing {
    pub id: i64,
    pub title: String,
    pub description: String,
}

impl MarketListing {
    pub open spec fn as_tuple(self) -> (i64, Seq<char>, Seq<char>) {
        (self.id, self.title@, self.description@)
    }
}

/// The unresolved markets among `rows`, in storage order.
pub open spec fn open_listings(rows: Seq<Market>) -> Seq<(i64, Seq<char>, Seq<char>)>
    decreases rows.len(),
{
    if rows.len() == 0 {
        Seq::empty()
    } else {
        let prev = open_listings(rows.drop_last());
        let m = rows.last();
        if m.is_resolved {
            prev
        } else {
            prev.push((m.id, m.title@, m.description@))
        }
    }
}

/// The largest market id among `rows`, and 0 when there is none larger.
pub open spec fn max_market_id(rows: Seq<Market>) -> int
    decreases rows.len(),
{
    if rows.len() == 0 {
        0
    } else {
        let prev = max_market_id(rows.drop_last());
        if rows.last().id > prev {
            rows.last().id as int
        } else {
            prev
        }
    }
}

/// The share rows a new market opens with: one per outcome, in index order, at 0.
pub open spec fn opening_rows(market_id: i64) -> Seq<ShareRow> {
    seq![
        ShareRow { market_id, idx: 0, amount: 0 },
        ShareRow { market_id, idx: 1, amount: 0 },
    ]
}

proof fn lemma_max_market_id(rows: Seq<Market>)
    ensures
        forall|i: int| 0 <= i < rows.len() ==> #[trigger] rows[i].id <= max_market_id(rows),
        0 <= max_market_id(rows) <= i64::MAX,
    decreases rows.len(),
{
    if rows.len() > 0 {
        let prev = rows.drop_last();
        lemma_max_market_id(prev);
        assert forall|i: int| 0 <= i < rows.len() implies #[trigger] rows[i].id <= max_market_id(rows) by {
            if i < rows.len() - 1 {
                assert(rows[i] == prev[i]);
            }
        }
    }
}

/// The share rows a new market opens with.
pub fn opening_shares(market_id: i64) -> (r: Vec<ShareRow>)
    ensures
        r@ == opening_rows(market_id),
{
    let mut r: Vec<ShareRow> = Vec::new();
    r.push(ShareRow { market_id, idx: 0, amount: 0 });
    r.push(ShareRow { market_id, idx: 1, amount: 0 });
    r
}

impl Ledger {
    /// The balance of `user_id`; `None` for an unknown user.
    pub fn points(&self, user_id: i64) -> (r: Option<u64>)
        requires
            self@.wf(),
        ensures
            r == (if self@.has_user(user_id) {
                Some(self@.balance(user_id))
            } else {
                None
            }),
    {
        match self.find_user(user_id) {
            Some(i) => Some(self.user_at(i).points),
            None => None,
        }
    }

    /// Records an activity of `user_id`: a known user is credited
    /// `ACTIVITY_REWARD` (the balance stays at `u64::MAX` rather than pass it);
    /// an unknown one is registered with `INITIAL_POINTS`. Returns whether the
    /// user was registered.
    pub fn record_activity(&mut self, user_id: i64, username: String) -> (registered: bool)
        requires
            old(self)@.wf(),
        ensures
            final(self)@.wf(),
            registered == !old(self)@.has_user(user_id),
            final(self)@ == (LedgerView {
                users: upsert(
                    old(self)@.users,
                    if registered {
                        User { id: user_id, points: INITIAL_POINTS, username }
                    } else {
                        User {
                            points: if old(self)@.balance(user_id) + ACTIVITY_REWARD > u64::MAX {
                                u64::MAX
                            } else {
                                (old(self)@.balance(user_id) + ACTIVITY_REWARD) as u64
                            },
                            ..old(self)@.user_map()[user_id]
                        }
                    },
                ),
                ..old(self)@
            }),
            final(self)@.has_user(user_id),
            final(self)@.balance(user_id) == (if registered {
                INITIAL_POINTS
            } else if old(self)@.balance(user_id) + ACTIVITY_REWARD > u64::MAX {
                u64::MAX
            } else {
                (old(self)@.balance(user_id) + ACTIVITY_REWARD) as u64
            }),
    {
        match self.find_user(user_id) {
            Some(i) => {
                let points = self.user_at(i).points;
                let credited = if points > u64::MAX - ACTIVITY_REWARD {
                    u64::MAX
                } else {
                    points + ACTIVITY_REWARD
                };
                proof {
                    lemma_upsert(self@.users, User { points: credited, ..self@.users[i as int] });
                }
                self.set_points(i, credited);
                false
            },
            None => {
                self.put_user(User { id: user_id, points: INITIAL_POINTS, username });
                true
            },
        }
    }

    /// The id the next market gets: one more than the largest in use (1 for the
    /// first); `None` when the ids are exhausted.
    pub fn next_market_id(&self) -> (r: Option<i64>)
        requires
            self@.wf(),
        ensures
            r == (if max_market_id(self@.markets) < i64::MAX {
                Some((max_market_id(self@.markets) + 1) as i64)
            } else {
                None
            }),
            r matches Some(id) ==> !self@.has_market(id) && id > 0,
    {
        let n = self.num_markets();
        let mut max: i64 = 0;
        let mut i: usize = 0;
        while i < n
            invariant
                n == self@.markets.len(),
                i <= n,
                max == max_market_id(self@.markets.subrange(0, i as int)),
            decreases n - i,
        {
            proof {
                assert(self@.markets.subrange(0, i + 1).drop_last() == self@.markets.subrange(
                    0,
                    i as int,
                ));
            }
            let id = self.market_at(i).id;
            if id > max {
                max = id;
            }
            i = i + 1;
        }
        assert(self@.markets.subrange(0, n as int) == self@.markets);
        proof {
            lemma_max_market_id(self@.markets);
        }
        if max == i64::MAX {
            None
        } else {
            let id = max + 1;
            assert(!self@.has_market(id)) by {
                if self@.has_market(id) {
                    let j = choose|j: int|
                        0 <= j < self@.markets.len() && #[trigger] self@.markets[j].key() == id;
                    assert(self@.markets[j].id <= max);
                }
            }
            Some(id)
        }
    }

    /// Creates an unresolved market with `DEFAULT_LIQUIDITY`, zero volume and a
    /// share row at 0 for each outcome, under the next market id. `None`, with
    /// nothing written, when the ids are exhausted.
    pub fn new_market(&mut self, title: String, description: String) -> (r: Option<i64>)
        requires
            old(self)@.wf(),
        ensures
            final(self)@.wf(),
            match r {
                Some(id) => {
                    &&& max_market_id(old(self)@.markets) < i64::MAX
                    &&& id == max_market_id(old(self)@.markets) + 1
                    &&& !old(self)@.has_market(id)
                    &&& final(self)@ == (LedgerView {
                        markets: old(self)@.markets.push(
                            Market {
                                id,
                                liquidity: DEFAULT_LIQUIDITY,
                                is_resolved: false,
                                resolved_idx: None,
                                market_volume: 0,
                                title,
                                description,
                            },
                        ),
                        shares: upsert(
                            upsert(old(self)@.shares, opening_rows(id)[0]),
                            opening_rows(id)[1],
                        ),
                        ..old(self)@
                    })
                    &&& final(self)@.has_market(id)
                    &&& final(self)@.volume(id) == 0
                    &&& final(self)@.outcome_shares(id, Outcome::Yes) == 0
                    &&& final(self)@.outcome_shares(id, Outcome::No) == 0
                    &&& final(self)@.user_map() == old(self)@.user_map()
                    &&& final(self)@.position_map() == old(self)@.position_map()
                },
                None => max_market_id(old(self)@.markets) == i64::MAX && final(self)@ == old(self)@,
            },
    {
        proof {
            lemma_max_market_id(self@.markets);
        }
        let id = match self.next_market_id() {
            Some(id) => id,
            None => {
                return None;
            },
        };
        let row = Market {
            id,
            liquidity: DEFAULT_LIQUIDITY,
            is_resolved: false,
            resolved_idx: None,
            market_volume: 0,
            title,
            description,
        };
        proof {
            assert(!crate::table::has_key(self@.markets, id));
            assert(upsert(self@.markets, row) == self@.markets.push(row));
        }
        self.put_market(row);
        let rows = opening_shares(id);
        self.put_share(rows[0]);
        self.put_share(rows[1]);
        assert(self@.share_map().contains_key((id, 0)) && self@.share_map().contains_key((id, 1)));
        Some(id)
    }

    /// The unresolved markets, in storage order.
    pub fn markets(&self) -> (r: Vec<MarketListing>)
        requires
            self@.wf(),
        ensures
            r@.map_values(|l: MarketListing| l.as_tuple()) == open_listings(self@.markets),
    {
        let n = self.num_markets();
        let mut r: Vec<MarketListing> = Vec::new();
        let mut i: usize = 0;
        while i < n
            invariant
                n == self@.markets.len(),
                i <= n,
                r@.map_values(|l: MarketListing| l.as_tuple()) == open_listings(
                    self@.markets.subrange(0, i as int),
                ),
            decreases n - i,
        {
            proof {
                assert(self@.markets.subrange(0, i + 1).drop_last() == self@.markets.subrange(
                    0,
                    i as int,
                ));
            }
            let m = self.market_at(i);
            if !m.is_resolved {
                let l = MarketListing {
                    id: m.id,
                    title: m.title.clone(),
                    description: m.description.clone(),
                };
                let ghost before = r@;
                r.push(l);
                proof {
                    assert(r@.map_values(|l: MarketListing| l.as_tuple()) == before.map_values(
                        |l: MarketListing| l.as_tuple(),
                    ).push(l.as_tuple()));
                }
            }
            i = i + 1;
        }
        assert(self@.markets.subrange(0, n as int) == self@.markets);
        r
    }
}

} // verus!
