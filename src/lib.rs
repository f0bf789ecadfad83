//! A points ledger for binary prediction markets and virtual equity holdings.
//!
//! Market pricing is done by an automated market maker outside this crate; the
//! ledger reconstructs the state the pricing engine needs, takes the engine's
//! quote back as a value, checks it against balances and holdings, and applies
//! the resulting state to every affected table as one unit.
//!
//! All point amounts are fixed-point integers counting millionths of a point.
use vstd::prelude::*;

pub mod outcome;
pub mod table;
pub mod ledger;
pub mod codec;
pub mod trade;
pub mod portfolio;
pub mod equity;
pub mod accounts;

pub use accounts::{MarketListing, ACTIVITY_REWARD, DEFAULT_LIQUIDITY, INITIAL_POINTS};
pub use codec::{MarketSnapshot, MarketState, OutcomeShares};
pub use equity::{normalize_symbol, EquityError, EquityReceipt, MICROS_PER_CENT};
pub use ledger::{EquityPosition, Ledger, Market, Position, ShareRow, User, MICROS_PER_POINT};
pub use outcome::Outcome;
pub use portfolio::{Holding, Portfolio, PortfolioEntry};
pub use trade::{Quote, TradeError, TradeReceipt};
