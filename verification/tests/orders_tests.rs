use kalshi_monitor::orders::backoff_ms;
use kalshi_monitor::orders::order_path;
use kalshi_monitor::orders::positions_path;
use kalshi_monitor::orders::resting_orders_path;
use kalshi_monitor::orders::validate_fill;
use kalshi_monitor::orders::CreateOrderRequest;
use kalshi_monitor::orders::FillMessageBody;
use kalshi_monitor::orders::Order;
use kalshi_monitor::orders::OrderAction;
use kalshi_monitor::orders::OrderSide;
use kalshi_monitor::orders::OrderStatus;
use kalshi_monitor::orders::OrderType;
use kalshi_monitor::orders::TimeInForce;
use kalshi_monitor::orders::TradingEnvironment;

#[test]
fn test_environment_urls() {
    let demo = TradingEnvironment::Demo;
    let prod = TradingEnvironment::Production;
    assert_eq!(demo.api_base_url(), "https://demo-api.kalshi.co/trade-api/v2");
    assert_eq!(prod.api_base_url(), "https://api.elections.kalshi.com/trade-api/v2");
    assert_eq!(demo.ws_url(), "wss://demo-api.kalshi.co/trade-api/ws/v2");
    assert_eq!(prod.ws_url(), "wss://api.elections.kalshi.com/trade-api/ws/v2");
    assert_eq!(demo.ws_host(), "demo-api.kalshi.co");
    assert_eq!(prod.ws_host(), "api.elections.kalshi.com");
    assert_eq!(demo.env_key_prefix(), "KALSHI_DEMO");
    assert_eq!(prod.env_key_prefix(), "KALSHI_PROD");
    assert_eq!(demo.name(), "DEMO");
    assert_eq!(prod.name(), "PRODUCTION");
}

#[test]
fn test_action_and_side_text() {
    assert_eq!(OrderAction::Buy.as_str(), "buy");
    assert_eq!(OrderAction::Sell.as_str(), "sell");
    assert_eq!(OrderSide::Yes.as_str(), "yes");
    assert_eq!(OrderSide::No.as_str(), "no");
}

#[test]
fn test_limit_buy_request() {
    let req = CreateOrderRequest::limit_buy("TEST", OrderSide::Yes, 55, 10);
    assert_eq!(req.ticker, "TEST");
    assert_eq!(req.action, OrderAction::Buy);
    assert_eq!(req.side, OrderSide::Yes);
    assert_eq!(req.order_type, OrderType::Limit);
    assert_eq!(req.count, 10);
    assert_eq!(req.yes_price, Some(55));
    assert_eq!(req.no_price, None);
    assert!(req.time_in_force.is_none());
    assert!(req.client_order_id.starts_with("km_"));
}

#[test]
fn test_limit_sell_no_side() {
    let req = CreateOrderRequest::limit_sell("TEST", OrderSide::No, 42, 5);
    assert_eq!(req.action, OrderAction::Sell);
    assert_eq!(req.yes_price, None);
    assert_eq!(req.no_price, Some(42));
}

#[test]
fn test_ioc_requests() {
    let buy = CreateOrderRequest::ioc_buy("TEST", OrderSide::Yes, 55, 10);
    assert_eq!(buy.time_in_force, Some(TimeInForce::Ioc));
    let sell = CreateOrderRequest::ioc_sell("TEST", OrderSide::No, 42, 5);
    assert_eq!(sell.time_in_force, Some(TimeInForce::Ioc));
    assert_eq!(sell.no_price, Some(42));
}

fn empty_order() -> Order {
    Order {
        order_id: "o1".to_string(),
        ticker: "TEST".to_string(),
        status: OrderStatus::Resting,
        action: "buy".to_string(),
        side: "yes".to_string(),
        order_type: "limit".to_string(),
        yes_price: None,
        no_price: None,
        count: None,
        remaining_count: None,
        taker_fill_count: None,
        maker_fill_count: None,
        taker_fill_cost: None,
        maker_fill_cost: None,
        created_time: None,
        client_order_id: None,
    }
}

#[test]
fn test_order_helpers() {
    let mut order = empty_order();
    assert_eq!(order.filled_count(), 0);
    assert_eq!(order.fill_cost(), 0);
    assert!(order.is_resting());
    assert!(!order.is_filled());
    assert_eq!(order.price_cents(), None);

    order.taker_fill_count = Some(3);
    order.maker_fill_count = Some(4);
    order.taker_fill_cost = Some(150);
    order.maker_fill_cost = Some(200);
    order.yes_price = Some(55);
    assert_eq!(order.filled_count(), 7);
    assert_eq!(order.fill_cost(), 350);
    assert_eq!(order.price_cents(), Some(55));

    order.status = OrderStatus::Executed;
    assert!(order.is_filled());
    assert!(!order.is_resting());

    order.status = OrderStatus::Pending;
    order.remaining_count = Some(0);
    assert!(order.is_filled());
}

fn good_fill_body() -> FillMessageBody {
    FillMessageBody {
        order_id: Some("o1".to_string()),
        market_ticker: Some("TEST".to_string()),
        action: Some("buy".to_string()),
        side: Some("yes".to_string()),
        count: Some(10),
        yes_price: Some(55),
        no_price: None,
        trade_id: Some("t1".to_string()),
    }
}

#[test]
fn test_validate_fill_accepts_good_fill() {
    let fill = validate_fill(&good_fill_body(), Some("TEST"), 123).unwrap();
    assert_eq!(fill.order_id, "o1");
    assert_eq!(fill.ticker, "TEST");
    assert_eq!(fill.action, OrderAction::Buy);
    assert_eq!(fill.side, OrderSide::Yes);
    assert_eq!(fill.price_cents, 55);
    assert_eq!(fill.count, 10);
    assert_eq!(fill.timestamp_ms, 123);
}

#[test]
fn test_validate_fill_rejects_bad_fills() {
    let mut b = good_fill_body();
    b.order_id = None;
    assert!(validate_fill(&b, None, 0).is_none());

    // Wrong market under a filter.
    assert!(validate_fill(&good_fill_body(), Some("OTHER"), 0).is_none());

    let mut b = good_fill_body();
    b.action = Some("hold".to_string());
    assert!(validate_fill(&b, None, 0).is_none());

    let mut b = good_fill_body();
    b.side = Some("both".to_string());
    assert!(validate_fill(&b, None, 0).is_none());

    let mut b = good_fill_body();
    b.count = Some(0);
    assert!(validate_fill(&b, None, 0).is_none());

    let mut b = good_fill_body();
    b.yes_price = Some(0);
    assert!(validate_fill(&b, None, 0).is_none());

    let mut b = good_fill_body();
    b.yes_price = Some(100);
    assert!(validate_fill(&b, None, 0).is_none());

    // The NO side reads the NO price.
    let mut b = good_fill_body();
    b.side = Some("no".to_string());
    b.no_price = Some(45);
    let fill = validate_fill(&b, None, 0).unwrap();
    assert_eq!(fill.side, OrderSide::No);
    assert_eq!(fill.price_cents, 45);
}

#[test]
fn test_rest_paths() {
    assert_eq!(order_path("abc"), "/portfolio/orders/abc");
    assert_eq!(resting_orders_path(None), "/portfolio/orders?status=resting");
    assert_eq!(
        resting_orders_path(Some("TEST")),
        "/portfolio/orders?ticker=TEST&status=resting"
    );
    assert_eq!(positions_path(None), "/portfolio/positions");
    assert_eq!(positions_path(Some("TEST")), "/portfolio/positions?ticker=TEST");
}

#[test]
fn test_backoff_doubles() {
    assert_eq!(backoff_ms(0), 2_000);
    assert_eq!(backoff_ms(1), 4_000);
    assert_eq!(backoff_ms(5), 64_000);
}
