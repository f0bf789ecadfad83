//! Reconstruction of the pricing engine's market state from the stored rows.
use vstd::prelude::*;

use crate::ledger::{Ledger, LedgerView};
use crate::outcome::{outcome_at, Outcome};

verus! {

/// Share counts of the two outcomes.
#[derive(Clone, Copy, Debug, PartialEq, Eq, Structural)]
pub struct OutcomeShares {
    pub yes: u64,
    pub no: u64,
}

impl OutcomeShares {
    pub open spec fn at(self, o: Outcome) -> u64 {
        match o {
            Outcome::Yes => self.yes,
            Outcome::No => self.no,
        }
    }

    /// The share count of outcome `o`.
    pub fn get(&self, o: Outcome) -> (r: u64)
        ensures
            r == self.at(o),
    {
        match o {
            Outcome::Yes => self.yes,
            Outcome::No => self.no,
        }
    }

    /// The share counts ordered by outcome index, as the engine takes them.
    pub fn to_vec(&self) -> (v: Vec<u64>)
        ensures
            v@ == seq![self.yes, self.no],
    {
        let mut v: Vec<u64> = Vec::new();
        v.push(self.yes);
        v.push(self.no);
        v
    }
}

/// What the pricing engine is constructed from.
#[derive(Clone, Copy, Debug, PartialEq, Eq, Structural)]
pub struct MarketState {
    pub shares: OutcomeShares,
    pub liquidity: u64,
    pub resolved: Option<Outcome>,
    pub market_volume: u64,
}

/// A market's state and descriptive fields.
pub struct MarketSnapshot {
    pub id: i64,
    pub title: String,
    pub description: String,
    pub is_resolved: bool,
    pub state: MarketState,
}

/// The outcome a stored resolution index names, if any.
pub open spec fn resolved_outcome(resolved_idx: Option<i64>) -> Option<Outcome> {
    match resolved_idx {
        Some(i) => outcome_at(i as int),
        None => None,
    }
}

/// The engine state of a stored market: share counts by outcome index (0 for a
/// missing row), the fixed liquidity, the resolved outcome and the volume.
pub open spec fn state_of(v: LedgerView, market_id: i64) -> MarketState {
    let m = v.market_map()[market_id];
    MarketState {
        shares: OutcomeShares {
            yes: v.outcome_shares(market_id, Outcome::Yes),
            no: v.outcome_shares(market_id, Outcome::No),
        },
        liquidity: m.liquidity,
        resolved: resolved_outcome(m.resolved_idx),
        market_volume: m.market_volume,
    }
}

impl Ledger {
    /// The stored share count of one outcome; 0 where its row is missing.
    pub fn outcome_shares(&self, market_id: i64, outcome: Outcome) -> (r: u64)
        requires
            self@.wf(),
        ensures
            r == self@.outcome_shares(market_id, outcome),
    {
        match self.find_share(market_id, outcome.index()) {
            Some(i) => self.share_at(i).amount,
            None => 0,
        }
    }

    /// Loads a market's engine state; `None` when the market row is absent.
    pub fn load_market(&self, market_id: i64) -> (r: Option<MarketState>)
        requires
            self@.wf(),
        ensures
            r == (if self@.has_market(market_id) {
                Some(state_of(self@, market_id))
            } else {
                None
            }),
    {
        match self.find_market(market_id) {
            None => None,
            Some(i) => {
                let m = self.market_at(i);
                let resolved = match m.resolved_idx {
                    Some(idx) => Outcome::from_index(idx),
                    None => None,
                };
                let shares = OutcomeShares {
                    yes: self.outcome_shares(market_id, Outcome::Yes),
                    no: self.outcome_shares(market_id, Outcome::No),
                };
                Some(
                    MarketState {
                        shares,
                        liquidity: m.liquidity,
                        resolved,
                        market_volume: m.market_volume,
                    },
                )
            },
        }
    }

    /// A market's state with its title and description; `None` when absent.
    pub fn get_market(&self, market_id: i64) -> (r: Option<MarketSnapshot>)
        requires
            self@.wf(),
        ensures
            match r {
                Some(s) => {
                    &&& self@.has_market(market_id)
                    &&& s.id == market_id
                    &&& s.title@ == self@.market_map()[market_id].title@
                    &&& s.description@ == self@.market_map()[market_id].description@
                    &&& s.is_resolved == self@.market_map()[market_id].is_resolved
                    &&& s.state == state_of(self@, market_id)
                },
                None => !self@.has_market(market_id),
            },
    {
        match self.load_market(market_id) {
            None => None,
            Some(state) => {
                let i = self.find_market(market_id).unwrap();
                let m = self.market_at(i);
                Some(
                    MarketSnapshot {
                        id: market_id,
                        title: m.title.clone(),
                        description: m.description.clone(),
                        is_resolved: m.is_resolved,
                        state,
                    },
                )
            },
        }
    }
}

} // verus!
