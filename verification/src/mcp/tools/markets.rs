use vstd::prelude::*;

verus! {

/// The arguments of the `kalshi_get_markets` tool (list prediction markets from Kalshi).
#[derive(Debug)]
pub struct KalshiGetMarketsRequest {
    pub limit: Option<u32>,
    pub cursor: Option<String>,
    pub status: Option<String>,
}

/// The arguments of the `kalshi_get_market` tool (get a specific Kalshi market by ticker).
#[derive(Debug)]
pub struct KalshiGetMarketRequest {
    pub ticker: String,
}

/// The arguments of the `kalshi_get_orderbook` tool (get the orderbook for a Kalshi market).
#[derive(Debug)]
pub struct KalshiGetOrderbookRequest {
    pub ticker: String,
}

/// The arguments of the `kalshi_create_order` tool (create an order on Kalshi).
#[derive(Debug)]
pub struct KalshiCreateOrderRequest {
    pub ticker: String,
    pub side: String,
    pub action: String,
    pub count: u32,
    pub price: Option<u32>,
}

/// The arguments of the `kalshi_get_positions` tool (get your positions on Kalshi).
#[derive(Debug)]
pub struct KalshiGetPositionsRequest {}

/// The arguments of the `polymarket_get_markets` tool (list prediction markets from Polymarket).
#[derive(Debug)]
pub struct PolymarketGetMarketsRequest {
    pub limit: Option<u32>,
    pub offset: Option<u32>,
}

/// The arguments of the `polymarket_get_market` tool (get a specific Polymarket market).
#[derive(Debug)]
pub struct PolymarketGetMarketRequest {
    pub condition_id: String,
}

/// The arguments of the `polymarket_search_markets` tool (search Polymarket markets).
#[derive(Debug)]
pub struct PolymarketSearchMarketsRequest {
    pub query: String,
    pub limit: Option<u32>,
}

} // verus!
