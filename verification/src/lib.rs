pub mod text;
pub mod paging;
pub mod pacing;
pub mod dmarket;
pub mod bitskins;
pub mod api;
pub mod bot;
pub mod lower_prices;
pub mod plotter;
pub mod json_fields;
