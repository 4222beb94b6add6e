//! The BitSkins buying bot: which listings are candidates, why to buy, and which deal.
pub mod signals;
pub mod trader;
