//! A minimal multi-tenant loyalty-points ledger.
//!
//! Brands register themselves and receive dense, monotonically assigned ids;
//! brands issue points to users; users exchange points between two brands at
//! a fixed 1:1 rate. The engine is a closed-world balance ledger keyed by
//! (user, brand): every mutating operation validates first and writes only
//! when every check has passed, so a rejected call leaves the state exactly
//! as it was. How the engine is hosted (persistence, caller authentication,
//! logging, record retention) is the surrounding program's concern; the
//! engine receives the outcome of the authentication check as a plain value.

mod brand;
mod errors;
mod exchange;
mod ledger;
mod registry;

pub use brand::Brand;
pub use brand::BrandBook;
pub use brand::BrandView;
pub use brand::sentinel_view;
pub use errors::Error;
pub use exchange::LoyaltyTokenExchange;
pub use exchange::lemma_balances_nonnegative;
pub use exchange::lemma_brand_ids_sequential;
pub use exchange::lemma_default_balance;
pub use exchange::lemma_exchange_conserves_total;
pub use exchange::spec_exchange_applied;
pub use ledger::UserBalance;
