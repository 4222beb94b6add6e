//! BitSkins: endpoints, request pacing, and the rules of the trader and updater.
pub mod endpoint;
pub mod http;
pub mod db;
pub mod trader;
pub mod update;
pub mod conversion;
