//! Venue order types: environments, order requests, order state, fills.

use vstd::prelude::*;

use crate::spec_sat_add;
use crate::text::spec_u64_string;
use crate::text::str_eq;
use crate::text::u64_string;

verus! {

// =============================================================================
// Trading environment
// =============================================================================

/// Demo or production venue endpoints.
#[derive(Clone, Copy, PartialEq, Eq, Structural, Debug)]
pub enum TradingEnvironment {
    Demo,
    Production,
}

impl TradingEnvironment {
    /// REST API base URL.
    pub fn api_base_url(&self) -> (r: &'static str)
        ensures
            r@ == if self is Demo {
                "https://demo-api.kalshi.co/trade-api/v2"@
            } else {
                "https://api.elections.kalshi.com/trade-api/v2"@
            },
    {
        match self {
            TradingEnvironment::Demo => "https://demo-api.kalshi.co/trade-api/v2",
            TradingEnvironment::Production => "https://api.elections.kalshi.com/trade-api/v2",
        }
    }

    /// WebSocket URL.
    pub fn ws_url(&self) -> (r: &'static str)
        ensures
            r@ == if self is Demo {
                "wss://demo-api.kalshi.co/trade-api/ws/v2"@
            } else {
                "wss://api.elections.kalshi.com/trade-api/ws/v2"@
            },
    {
        match self {
            TradingEnvironment::Demo => "wss://demo-api.kalshi.co/trade-api/ws/v2",
            TradingEnvironment::Production => "wss://api.elections.kalshi.com/trade-api/ws/v2",
        }
    }

    /// Host header for the WebSocket connection.
    pub fn ws_host(&self) -> (r: &'static str)
        ensures
            r@ == if self is Demo {
                "demo-api.kalshi.co"@
            } else {
                "api.elections.kalshi.com"@
            },
    {
        match self {
            TradingEnvironment::Demo => "demo-api.kalshi.co",
            TradingEnvironment::Production => "api.elections.kalshi.com",
        }
    }

    /// Environment variable prefix for credentials.
    pub fn env_key_prefix(&self) -> (r: &'static str)
        ensures
            r@ == if self is Demo {
                "KALSHI_DEMO"@
            } else {
                "KALSHI_PROD"@
            },
    {
        match self {
            TradingEnvironment::Demo => "KALSHI_DEMO",
            TradingEnvironment::Production => "KALSHI_PROD",
        }
    }

    /// Display name.
    pub fn name(&self) -> (r: &'static str)
        ensures
            r@ == if self is Demo {
                "DEMO"@
            } else {
                "PRODUCTION"@
            },
    {
        match self {
            TradingEnvironment::Demo => "DEMO",
            TradingEnvironment::Production => "PRODUCTION",
        }
    }
}

// =============================================================================
// Order enums
// =============================================================================

/// Buy or sell.
#[derive(Clone, Copy, PartialEq, Eq, Structural, Debug)]
pub enum OrderAction {
    Buy,
    Sell,
}

impl OrderAction {
    pub fn as_str(&self) -> (r: &'static str)
        ensures
            r@ == if self is Buy {
                "buy"@
            } else {
                "sell"@
            },
    {
        match self {
            OrderAction::Buy => "buy",
            OrderAction::Sell => "sell",
        }
    }
}

/// YES or NO side of a binary contract.
#[derive(Clone, Copy, PartialEq, Eq, Structural, Debug)]
pub enum OrderSide {
    Yes,
    No,
}

impl OrderSide {
    pub fn as_str(&self) -> (r: &'static str)
        ensures
            r@ == if self is Yes {
                "yes"@
            } else {
                "no"@
            },
    {
        match self {
            OrderSide::Yes => "yes",
            OrderSide::No => "no",
        }
    }
}

/// Limit or market order.
#[derive(Clone, Copy, PartialEq, Eq, Structural, Debug)]
pub enum OrderType {
    Limit,
    Market,
}

/// How long an order stays alive.
#[derive(Clone, Copy, PartialEq, Eq, Structural, Debug)]
pub enum TimeInForce {
    Gtc,
    Ioc,
    Gtd,
}

/// Lifecycle state of an order: `Pending -> Resting -> Executed | Canceled`,
/// with a direct `Pending -> Executed` for immediate-or-cancel orders.
#[derive(Clone, Copy, PartialEq, Eq, Structural, Debug)]
pub enum OrderStatus {
    Resting,
    Executed,
    Canceled,
    Pending,
    Unknown,
}

// =============================================================================
// Order requests
// =============================================================================

/// Relies on std::time::SystemTime: nanoseconds of wall-clock time since
/// the epoch. The result depends on the clock, so nothing is promised of it.
#[verifier::external_body]
fn clock_nanos() -> u64 {
    std::time::SystemTime::now().duration_since(std::time::UNIX_EPOCH).map(
        |d| d.as_nanos() as u64,
    ).unwrap_or(0)
}

/// A client order id: the `km_` prefix over a fresh nanosecond clock
/// reading. Distinct calls give distinct ids as long as the clock moved
/// between them; nothing more can be promised of a clock reading.
pub fn generate_client_order_id() -> (r: String)
    ensures
        r@.len() > 3,
        r@.subrange(0, 3) == "km_"@,
{
    let mut s = "km_".to_owned();
    let n = u64_string(clock_nanos());
    s.append(n.as_str());
    proof {
        reveal_strlit("km_");
        lemma_u64_string_nonempty(n@);
        assert(s@.subrange(0, 3) =~= "km_"@);
    }
    s
}

/// A rendered number has at least one digit.
proof fn lemma_u64_string_nonempty(s: Seq<char>)
    requires
        exists|n: int| 0 <= n && s == spec_u64_string(n),
    ensures
        s.len() >= 1,
{
    let n = choose|n: int| 0 <= n && s == spec_u64_string(n);
    lemma_u64_string_len(n);
}

proof fn lemma_u64_string_len(n: int)
    requires
        n >= 0,
    ensures
        spec_u64_string(n).len() >= 1,
    decreases n,
{
    if n >= 10 {
        lemma_u64_string_len(n / 10);
    }
}

/// Request to create a new order.
pub struct CreateOrderRequest {
    pub ticker: String,
    pub action: OrderAction,
    pub side: OrderSide,
    pub order_type: OrderType,
    pub count: i64,
    pub yes_price: Option<i64>,
    pub no_price: Option<i64>,
    pub client_order_id: String,
    pub time_in_force: Option<TimeInForce>,
    pub expiration_ts: Option<i64>,
}

/// The fields a limit order request must carry: the price goes on the field
/// of its side, the other price field stays empty.
pub open spec fn limit_request_ok(
    r: &CreateOrderRequest,
    ticker: Seq<char>,
    action: OrderAction,
    side: OrderSide,
    price_cents: i64,
    count: i64,
) -> bool {
    &&& r.ticker@ == ticker
    &&& r.action == action
    &&& r.side == side
    &&& r.order_type == OrderType::Limit
    &&& r.count == count
    &&& r.yes_price == if side is Yes {
        Some(price_cents)
    } else {
        None::<i64>
    }
    &&& r.no_price == if side is No {
        Some(price_cents)
    } else {
        None::<i64>
    }
    &&& r.expiration_ts is None
}

impl CreateOrderRequest {
    /// Limit buy that rests on the book.
    pub fn limit_buy(ticker: &str, side: OrderSide, price_cents: i64, count: i64) -> (r: Self)
        ensures
            limit_request_ok(&r, ticker@, OrderAction::Buy, side, price_cents, count),
            r.time_in_force is None,
    {
        let (yes_price, no_price) = match side {
            OrderSide::Yes => (Some(price_cents), None),
            OrderSide::No => (None, Some(price_cents)),
        };
        CreateOrderRequest {
            ticker: ticker.to_owned(),
            action: OrderAction::Buy,
            side,
            order_type: OrderType::Limit,
            count,
            yes_price,
            no_price,
            client_order_id: generate_client_order_id(),
            time_in_force: None,
            expiration_ts: None,
        }
    }

    /// Limit sell that rests on the book.
    pub fn limit_sell(ticker: &str, side: OrderSide, price_cents: i64, count: i64) -> (r: Self)
        ensures
            limit_request_ok(&r, ticker@, OrderAction::Sell, side, price_cents, count),
            r.time_in_force is None,
    {
        let (yes_price, no_price) = match side {
            OrderSide::Yes => (Some(price_cents), None),
            OrderSide::No => (None, Some(price_cents)),
        };
        CreateOrderRequest {
            ticker: ticker.to_owned(),
            action: OrderAction::Sell,
            side,
            order_type: OrderType::Limit,
            count,
            yes_price,
            no_price,
            client_order_id: generate_client_order_id(),
            time_in_force: None,
            expiration_ts: None,
        }
    }

    /// Immediate-or-cancel buy.
    pub fn ioc_buy(ticker: &str, side: OrderSide, price_cents: i64, count: i64) -> (r: Self)
        ensures
            limit_request_ok(&r, ticker@, OrderAction::Buy, side, price_cents, count),
            r.time_in_force == Some(TimeInForce::Ioc),
    {
        let mut req = Self::limit_buy(ticker, side, price_cents, count);
        req.time_in_force = Some(TimeInForce::Ioc);
        req
    }

    /// Immediate-or-cancel sell.
    pub fn ioc_sell(ticker: &str, side: OrderSide, price_cents: i64, count: i64) -> (r: Self)
        ensures
            limit_request_ok(&r, ticker@, OrderAction::Sell, side, price_cents, count),
            r.time_in_force == Some(TimeInForce::Ioc),
    {
        let mut req = Self::limit_sell(ticker, side, price_cents, count);
        req.time_in_force = Some(TimeInForce::Ioc);
        req
    }
}

/// Request to amend an existing order's price or count.
pub struct AmendOrderRequest {
    pub price: Option<i64>,
    pub count: Option<i64>,
}

// =============================================================================
// Orders as the venue reports them
// =============================================================================

/// Order details returned by the venue.
pub struct Order {
    pub order_id: String,
    pub ticker: String,
    pub status: OrderStatus,
    pub action: String,
    pub side: String,
    pub order_type: String,
    pub yes_price: Option<i64>,
    pub no_price: Option<i64>,
    pub count: Option<i64>,
    pub remaining_count: Option<i64>,
    pub taker_fill_count: Option<i64>,
    pub maker_fill_count: Option<i64>,
    pub taker_fill_cost: Option<i64>,
    pub maker_fill_cost: Option<i64>,
    pub created_time: Option<String>,
    pub client_order_id: Option<String>,
}

/// The value of an optional count, zero when absent.
pub open spec fn spec_opt_count(v: Option<i64>) -> i64 {
    match v {
        Some(x) => x,
        None => 0i64,
    }
}

impl Order {
    /// Contracts filled so far, over both taker and maker executions.
    pub fn filled_count(&self) -> (r: i64)
        ensures
            r == spec_sat_add(
                spec_opt_count(self.taker_fill_count),
                spec_opt_count(self.maker_fill_count),
            ),
    {
        let t = match self.taker_fill_count {
            Some(x) => x,
            None => 0,
        };
        let m = match self.maker_fill_count {
            Some(x) => x,
            None => 0,
        };
        match t.checked_add(m) {
            Some(x) => x,
            None => if m > 0 {
                i64::MAX
            } else {
                i64::MIN
            },
        }
    }

    /// Cost of fills so far, over both taker and maker executions.
    pub fn fill_cost(&self) -> (r: i64)
        ensures
            r == spec_sat_add(
                spec_opt_count(self.taker_fill_cost),
                spec_opt_count(self.maker_fill_cost),
            ),
    {
        let t = match self.taker_fill_cost {
            Some(x) => x,
            None => 0,
        };
        let m = match self.maker_fill_cost {
            Some(x) => x,
            None => 0,
        };
        match t.checked_add(m) {
            Some(x) => x,
            None => if m > 0 {
                i64::MAX
            } else {
                i64::MIN
            },
        }
    }

    /// An order is filled when executed or nothing remains.
    pub fn is_filled(&self) -> (r: bool)
        ensures
            r == (self.status == OrderStatus::Executed || self.remaining_count == Some(0i64)),
    {
        match self.status {
            OrderStatus::Executed => true,
            _ => self.remaining_count == Some(0),
        }
    }

    /// An order is resting while it sits on the book.
    pub fn is_resting(&self) -> (r: bool)
        ensures
            r == (self.status == OrderStatus::Resting),
    {
        match self.status {
            OrderStatus::Resting => true,
            _ => false,
        }
    }

    /// The price on whichever side the order carries.
    pub fn price_cents(&self) -> (r: Option<i64>)
        ensures
            r == if self.yes_price is Some {
                self.yes_price
            } else {
                self.no_price
            },
    {
        match self.yes_price {
            Some(p) => Some(p),
            None => self.no_price,
        }
    }
}

// =============================================================================
// Portfolio responses
// =============================================================================

/// Response carrying one order.
pub struct OrderResponse {
    pub order: Order,
}

/// Response listing orders.
pub struct OrdersResponse {
    pub orders: Vec<Order>,
    pub cursor: Option<String>,
}

/// Market position as the venue reports it.
pub struct Position {
    pub ticker: String,
    pub market_exposure: i64,
    pub total_traded: i64,
    pub realized_pnl: i64,
    pub resting_orders_count: i64,
}

/// Response listing positions.
pub struct PositionsResponse {
    pub market_positions: Vec<Position>,
    pub cursor: Option<String>,
}

/// Account balance.
pub struct Balance {
    pub balance: i64,
    pub portfolio_value: i64,
}

/// Response carrying the account balance.
pub struct BalanceResponse {
    pub balance: Balance,
}

// =============================================================================
// Fills
// =============================================================================

/// One execution against our order.
pub struct FillUpdate {
    pub order_id: String,
    pub ticker: String,
    pub side: OrderSide,
    pub action: OrderAction,
    /// Fill price in cents, strictly between 0 and 100.
    pub price_cents: i64,
    /// Contracts filled, positive.
    pub count: i64,
    /// Epoch milliseconds when the fill was seen.
    pub timestamp_ms: i64,
}

/// Body of a fill message from the venue, before validation.
pub struct FillMessageBody {
    pub order_id: Option<String>,
    pub market_ticker: Option<String>,
    pub action: Option<String>,
    pub side: Option<String>,
    pub count: Option<i64>,
    pub yes_price: Option<i64>,
    pub no_price: Option<i64>,
    pub trade_id: Option<String>,
}

/// A fill message is accepted when it carries an order id and ticker, a
/// recognised action and side, a positive count, and a price strictly inside
/// (0, 100) on the side it names.
pub open spec fn spec_fill_accepted(body: &FillMessageBody, filter: Option<&str>) -> bool {
    &&& body.order_id is Some
    &&& body.market_ticker is Some
    &&& (match filter {
        Some(f) => body.market_ticker->Some_0@ == f@,
        None => true,
    })
    &&& (match body.action {
        Some(a) => a@ == "buy"@ || a@ == "sell"@,
        None => false,
    })
    &&& (match body.side {
        Some(s) => s@ == "yes"@ || s@ == "no"@,
        None => false,
    })
    &&& spec_opt_count(body.count) > 0
    &&& {
        let side_is_yes = body.side->Some_0@ == "yes"@;
        let p = if side_is_yes {
            spec_opt_count(body.yes_price)
        } else {
            spec_opt_count(body.no_price)
        };
        0 < p < 100
    }
}

/// The fill a valid message describes.
pub open spec fn spec_fill_of(body: &FillMessageBody, ts_ms: i64, fill: &FillUpdate) -> bool {
    &&& fill.order_id@ == body.order_id->Some_0@
    &&& fill.ticker@ == body.market_ticker->Some_0@
    &&& fill.action == (if body.action->Some_0@ == "buy"@ {
        OrderAction::Buy
    } else {
        OrderAction::Sell
    })
    &&& fill.side == (if body.side->Some_0@ == "yes"@ {
        OrderSide::Yes
    } else {
        OrderSide::No
    })
    &&& fill.count == spec_opt_count(body.count)
    &&& fill.price_cents == (if body.side->Some_0@ == "yes"@ {
        spec_opt_count(body.yes_price)
    } else {
        spec_opt_count(body.no_price)
    })
    &&& fill.timestamp_ms == ts_ms
}

/// Validate a fill message body, discarding malformed fills and, when a
/// filter ticker is given, fills for other markets.
pub fn validate_fill(body: &FillMessageBody, filter: Option<&str>, ts_ms: i64) -> (r: Option<
    FillUpdate,
>)
    ensures
        r is Some <==> spec_fill_accepted(body, filter),
        match r {
            Some(fill) => spec_fill_of(body, ts_ms, &fill),
            None => true,
        },
{
    let order_id = match &body.order_id {
        Some(id) => id.clone(),
        None => {
            return None;
        },
    };
    let ticker = match &body.market_ticker {
        Some(t) => t.clone(),
        None => {
            return None;
        },
    };
    if let Some(f) = filter {
        if !str_eq(ticker.as_str(), f) {
            return None;
        }
    }
    let action = match &body.action {
        Some(a) => {
            if str_eq(a.as_str(), "buy") {
                OrderAction::Buy
            } else if str_eq(a.as_str(), "sell") {
                OrderAction::Sell
            } else {
                return None;
            }
        },
        None => {
            return None;
        },
    };
    let side = match &body.side {
        Some(s) => {
            if str_eq(s.as_str(), "yes") {
                OrderSide::Yes
            } else if str_eq(s.as_str(), "no") {
                OrderSide::No
            } else {
                return None;
            }
        },
        None => {
            return None;
        },
    };
    let count = match body.count {
        Some(c) => c,
        None => 0,
    };
    if count <= 0 {
        return None;
    }
    let price_cents = match side {
        OrderSide::Yes => match body.yes_price {
            Some(p) => p,
            None => 0,
        },
        OrderSide::No => match body.no_price {
            Some(p) => p,
            None => 0,
        },
    };
    if price_cents <= 0 || price_cents >= 100 {
        return None;
    }
    Some(
        FillUpdate {
            order_id,
            ticker,
            side,
            action,
            price_cents,
            count,
            timestamp_ms: ts_ms,
        },
    )
}

// =============================================================================
// REST paths
// =============================================================================

/// Path of the order endpoint for one order id.
pub fn order_path(order_id: &str) -> (r: String)
    ensures
        r@ == "/portfolio/orders/"@ + order_id@,
{
    let mut s = "/portfolio/orders/".to_owned();
    s.append(order_id);
    s
}

/// Path listing resting orders, optionally for one ticker.
pub fn resting_orders_path(ticker: Option<&str>) -> (r: String)
    ensures
        r@ == match ticker {
            Some(t) => "/portfolio/orders?ticker="@ + t@ + "&status=resting"@,
            None => "/portfolio/orders?status=resting"@,
        },
{
    match ticker {
        Some(t) => {
            let mut s = "/portfolio/orders?ticker=".to_owned();
            s.append(t);
            s.append("&status=resting");
            s
        },
        None => "/portfolio/orders?status=resting".to_owned(),
    }
}

/// Path of the positions endpoint, optionally for one ticker.
pub fn positions_path(ticker: Option<&str>) -> (r: String)
    ensures
        r@ == match ticker {
            Some(t) => "/portfolio/positions?ticker="@ + t@,
            None => "/portfolio/positions"@,
        },
{
    match ticker {
        Some(t) => {
            let mut s = "/portfolio/positions?ticker=".to_owned();
            s.append(t);
            s
        },
        None => "/portfolio/positions".to_owned(),
    }
}

/// Exponential backoff after a rate-limit response: `2000 * 2^retry`
/// milliseconds.
pub open spec fn spec_pow2(n: nat) -> int
    decreases n,
{
    if n == 0 {
        1
    } else {
        2 * spec_pow2((n - 1) as nat)
    }
}

/// Backoff delay in milliseconds before the given retry.
pub fn backoff_ms(retry: u32) -> (r: u64)
    requires
        retry <= 16,
    ensures
        r == 2000 * spec_pow2(retry as nat),
{
    let mut ms: u64 = 2000;
    let mut i: u32 = 0;
    while i < retry
        invariant
            0 <= i <= retry,
            retry <= 16,
            ms == 2000 * spec_pow2(i as nat),
        decreases retry - i,
    {
        proof {
            lemma_pow2_bound(retry as nat);
            lemma_pow2_monotone((i + 1) as nat, retry as nat);
        }
        ms = ms * 2;
        i += 1;
    }
    ms
}

proof fn lemma_pow2_monotone(a: nat, b: nat)
    requires
        a <= b,
    ensures
        spec_pow2(a) <= spec_pow2(b),
        spec_pow2(a) >= 1,
    decreases b,
{
    if a == b {
        if a > 0 {
            lemma_pow2_monotone((a - 1) as nat, (a - 1) as nat);
        }
    } else {
        lemma_pow2_monotone(a, (b - 1) as nat);
    }
}

proof fn lemma_pow2_bound(n: nat)
    requires
        n <= 16,
    ensures
        spec_pow2(n) <= 65536,
{
    lemma_pow2_monotone(n, 16);
    reveal_with_fuel(spec_pow2, 17);
    assert(spec_pow2(16) == 65536);
}

} // verus!
