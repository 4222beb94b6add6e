pub mod ws;
pub mod db;
pub mod update;
