//! DMarket: request budgets, signing, and the trading rules on its listings.
pub mod rate_limiter;
pub mod schema;
pub mod client;
pub mod trader;
pub mod sign;
