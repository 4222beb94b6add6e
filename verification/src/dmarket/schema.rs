//! DMarket API records, as plain values.
use vstd::prelude::*;

verus! {

/// A market listing's lifecycle state.
#[derive(Clone, Copy, Debug, PartialEq, Eq)]
pub enum ItemStatus {
    Default,
    Active,
    Inactive,
    InTransfer,
    Sold,
    Recalled,
    Unavailable,
    Locked,
}

/// What a market object is.
#[derive(Clone, Copy, Debug, PartialEq, Eq)]
pub enum ItemType {
    Item,
    Offer,
    Target,
    Class,
    Airdrop,
    Sale,
    Product,
}

/// A price in US dollars, as the API writes it.
#[derive(Debug)]
pub struct Price {
    pub usd: String,
}

/// Counters that come with a market-items page.
#[derive(Debug)]
pub struct Total {
    pub closed_targets: Option<usize>,
    pub completed_offers: Option<usize>,
    pub items: usize,
    pub offers: usize,
    pub targets: usize,
}

/// A game and an item title within it: the key of all per-item data.
#[derive(Debug, PartialEq, Eq, Hash, Default)]
pub struct GameTitle {
    pub game_id: String,
    pub title: String,
}

impl Clone for GameTitle {
    fn clone(&self) -> (r: GameTitle)
        ensures
            r == *self,
    {
        GameTitle { game_id: self.game_id.clone(), title: self.title.clone() }
    }
}

/// One past sale of an item, with the title it was recorded under.
#[derive(Debug)]
pub struct Sale {
    pub price: String,
    pub date: String,
    pub tx_operation_type: String,
    pub id: i64,
    pub game_title: GameTitle,
}

impl Clone for Sale {
    fn clone(&self) -> (r: Sale)
        ensures
            r == *self,
    {
        Sale {
            price: self.price.clone(),
            date: self.date.clone(),
            tx_operation_type: self.tx_operation_type.clone(),
            id: self.id,
            game_title: self.game_title.clone(),
        }
    }
}

impl Sale {
    /// This sale, recorded under `game_title`.
    pub fn with_game_title(self, game_title: &GameTitle) -> (r: Sale)
        ensures
            r == (Sale { game_title: *game_title, ..self }),
    {
        let mut s = self;
        s.game_title = game_title.clone();
        s
    }
}

/// The default listing fee of a game.
#[derive(Debug)]
pub struct ListDefaultFee {
    pub fraction: String,
    pub min_amount: i64,
}

/// A reduced listing fee for one title, valid until `expires_at`.
#[derive(Debug)]
pub struct ListPersonalFee {
    pub expires_at: i64,
    pub fraction: String,
    pub max_price: i64,
    pub min_price: i64,
    pub title: String,
}

/// The fee schedule of a game.
#[derive(Debug)]
pub struct ListFeeResponse {
    pub default_fee: ListDefaultFee,
    pub reduced_fees: Vec<ListPersonalFee>,
}

/// The account balance in US dollars.
#[derive(Debug)]
pub struct Balance {
    pub usd: String,
    pub usd_available_to_withdraw: String,
}

/// The best price on one side of the book and how many orders stand there.
#[derive(Debug)]
pub struct BestPrice {
    pub best_price: String,
    pub count: i32,
}

/// Best offer and best order of one title.
#[derive(Debug)]
pub struct BestPrices {
    pub market_hash_name: String,
    pub offers: BestPrice,
    pub orders: BestPrice,
}

/// A page of aggregated best prices and the total number of titles.
#[derive(Debug)]
pub struct BestPricesResponse {
    pub error: Option<String>,
    pub total: String,
    pub aggregated_titles: Vec<BestPrices>,
}

/// The outcome of buying offers.
#[derive(Debug)]
pub struct BuyOffersResponse {
    pub order_id: String,
    pub status: String,
    pub tx_id: String,
}

/// An amount of money in a currency, written as text.
#[derive(Debug)]
pub struct OfferMoney {
    pub amount: String,
    pub currency: String,
}

/// Attributes a buy order is restricted to.
#[derive(Debug)]
pub struct TargetAttribute {
    pub float_value: Option<String>,
    pub paint_seed: Option<String>,
    pub float_part_value: Option<String>,
    pub is_advanced: Option<String>,
    pub phase_title: Option<String>,
}

/// A buy order (target) standing on the market.
#[derive(Debug)]
pub struct Target {
    pub amount: String,
    pub price: String,
    pub liquidity: String,
    pub attributes: Vec<TargetAttribute>,
    pub advanced_amount: String,
}

/// The targets of a title, on both sides.
#[derive(Debug)]
pub struct GetTargetsResponse {
    pub updated_at: String,
    pub offers: Vec<Target>,
    pub orders: Vec<Target>,
}

/// An error the market reports for one element of a batch.
#[derive(Debug)]
pub struct MarketError {
    pub code: String,
    pub message: String,
}

/// A cursor-paginated list.
#[derive(Debug)]
pub struct PaginatedResponse<T> {
    pub items: Vec<T>,
    pub total: String,
    pub cursor: String,
}

/// Attributes a new target is restricted to.
#[derive(Debug, Default)]
pub struct TargetAttrs {
    pub paint_seed: Option<i32>,
    pub phase: Option<String>,
    pub float_part_value: Option<String>,
}

/// A target to delete.
#[derive(Debug)]
pub struct DeleteTarget {
    pub target_id: String,
}

/// The outcome of deleting one target.
#[derive(Debug)]
pub struct DeleteTargetResponse {
    pub delete_target: DeleteTarget,
    pub successful: bool,
    pub error: Option<MarketError>,
}

/// The outcome of deleting targets.
#[derive(Debug)]
pub struct DeleteTargetsResponse {
    pub result: Vec<DeleteTargetResponse>,
}

/// An offer to withdraw.
#[derive(Debug)]
pub struct DeleteOffer {
    pub item_id: String,
    pub offer_id: String,
    pub price: OfferMoney,
}

/// An offer the market created while withdrawing others.
#[derive(Debug)]
pub struct CreatedOffer {
    pub asset_id: String,
    pub offer_id: String,
}

/// The outcome of withdrawing one batch of offers.
#[derive(Debug)]
pub struct DeleteOfferResponse {
    pub created: Vec<CreatedOffer>,
    pub fail: Vec<String>,
    pub locked: Vec<String>,
    pub success: Vec<String>,
}

/// The outcome of withdrawing offers.
#[derive(Debug)]
pub struct DeleteOffersResponse {
    pub result: Vec<DeleteOfferResponse>,
}

} // verus!
