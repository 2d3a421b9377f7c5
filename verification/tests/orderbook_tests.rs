use kalshi_monitor::orderbook::process_orderbook_message;
use kalshi_monitor::orderbook::OrderbookState;
use kalshi_monitor::orderbook::WsMessage;
use kalshi_monitor::orderbook::WsMessageBody;

fn snapshot_body(yes: Vec<Vec<i64>>, no: Vec<Vec<i64>>) -> WsMessageBody {
    WsMessageBody {
        market_ticker: Some("TEST".to_string()),
        yes: Some(yes),
        no: Some(no),
        price: None,
        delta: None,
        side: None,
    }
}

fn delta_body(side: &str, price: i64, delta: i64) -> WsMessageBody {
    WsMessageBody {
        market_ticker: Some("TEST".to_string()),
        yes: None,
        no: None,
        price: Some(price),
        delta: Some(delta),
        side: Some(side.to_string()),
    }
}

#[test]
fn test_snapshot_caches_top_of_book() {
    let mut book = OrderbookState::new();
    assert!(!book.is_valid());

    // Prices at one cent or below are synthetic and dropped, as are
    // non-positive quantities.
    let body = snapshot_body(
        vec![vec![55, 100], vec![54, 200], vec![1, 999], vec![40, 0]],
        vec![vec![42, 300], vec![43, -5]],
    );
    book.update_from_snapshot(&body);

    assert_eq!(book.yes_bid, 55);
    assert_eq!(book.yes_qty, 100);
    assert_eq!(book.no_bid, 42);
    assert_eq!(book.no_qty, 300);
    assert!(book.is_valid());
}

#[test]
fn test_snapshot_replaces_whole_side() {
    let mut book = OrderbookState::new();
    book.update_from_snapshot(&snapshot_body(vec![vec![55, 100]], vec![vec![42, 300]]));
    book.update_from_snapshot(&snapshot_body(vec![vec![30, 10]], vec![vec![20, 5]]));
    assert_eq!(book.yes_bid, 30);
    assert_eq!(book.yes_qty, 10);
    assert_eq!(book.no_bid, 20);
    assert_eq!(book.no_qty, 5);
}

#[test]
fn test_delta_moves_and_erases_levels() {
    let mut book = OrderbookState::new();
    book.update_from_snapshot(&snapshot_body(vec![vec![55, 100]], vec![vec![42, 300]]));

    // Adding quantity at a higher price moves the top.
    book.update_from_delta(&delta_body("yes", 56, 50));
    assert_eq!(book.yes_bid, 56);
    assert_eq!(book.yes_qty, 50);

    // Draining it below zero erases the level and the top falls back.
    book.update_from_delta(&delta_body("yes", 56, -80));
    assert_eq!(book.yes_bid, 55);
    assert_eq!(book.yes_qty, 100);

    // Synthetic prices are ignored.
    book.update_from_delta(&delta_body("no", 1, 500));
    assert_eq!(book.no_bid, 42);

    // Unknown sides are ignored.
    book.update_from_delta(&delta_body("maybe", 60, 10));
    assert_eq!(book.yes_bid, 55);
    assert_eq!(book.no_bid, 42);
}

#[test]
fn test_monitor_emits_only_on_top_change() {
    let mut book = OrderbookState::new();
    let snap = WsMessage {
        msg_type: "orderbook_snapshot".to_string(),
        sid: None,
        seq: Some(1),
        msg: Some(snapshot_body(vec![vec![55, 100]], vec![vec![42, 300]])),
    };
    let update = process_orderbook_message(&mut book, &snap, "TEST", 1_000).unwrap();
    assert_eq!(update.market_ticker, "TEST");
    assert_eq!(update.yes_bid, 55);
    assert_eq!(update.no_bid, 42);
    assert_eq!(update.yes_prob_micro, 550_000);
    assert_eq!(update.no_prob_micro, 420_000);
    assert_eq!(update.timestamp_ms, 1_000);

    // A delta below the top changes no best bid: nothing is emitted.
    let quiet = WsMessage {
        msg_type: "orderbook_delta".to_string(),
        sid: None,
        seq: Some(2),
        msg: Some(delta_body("yes", 50, 10)),
    };
    assert!(process_orderbook_message(&mut book, &quiet, "TEST", 1_001).is_none());

    // A delta that moves the top is published.
    let loud = WsMessage {
        msg_type: "orderbook_delta".to_string(),
        sid: None,
        seq: Some(3),
        msg: Some(delta_body("yes", 60, 10)),
    };
    let update = process_orderbook_message(&mut book, &loud, "TEST", 1_002).unwrap();
    assert_eq!(update.yes_bid, 60);
    assert_eq!(update.yes_qty, 10);
}

#[test]
fn test_monitor_filters_other_markets() {
    let mut book = OrderbookState::new();
    let other = WsMessage {
        msg_type: "orderbook_snapshot".to_string(),
        sid: None,
        seq: None,
        msg: Some(snapshot_body(vec![vec![55, 100]], vec![])),
    };
    assert!(process_orderbook_message(&mut book, &other, "OTHER", 0).is_none());
    assert_eq!(book.yes_bid, 0);

    let unknown = WsMessage {
        msg_type: "subscribed".to_string(),
        sid: Some(1),
        seq: None,
        msg: None,
    };
    assert!(process_orderbook_message(&mut book, &unknown, "TEST", 0).is_none());
}

#[test]
fn test_snapshot_clears_absent_side() {
    let mut book = OrderbookState::new();
    book.update_from_snapshot(&snapshot_body(vec![vec![55, 100]], vec![vec![42, 300]]));
    assert_eq!(book.no_bid, 42);

    // A fresh snapshot naming only the YES side empties the NO side.
    let yes_only = WsMessageBody {
        market_ticker: Some("TEST".to_string()),
        yes: Some(vec![vec![60, 10]]),
        no: None,
        price: None,
        delta: None,
        side: None,
    };
    book.update_from_snapshot(&yes_only);
    assert_eq!(book.yes_bid, 60);
    assert_eq!(book.no_bid, 0);
    assert_eq!(book.no_qty, 0);
}
