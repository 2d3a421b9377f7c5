use kalshi_monitor::edge::EdgeCalculation;
use kalshi_monitor::edge::TradeAction;
use kalshi_monitor::fees::ProductType;
use kalshi_monitor::orders::OrderSide;

#[test]
fn test_edge_calculation() {
    // No maker fees for this test.
    let edge = EdgeCalculation::calculate(600_000, 55, 42, false, ProductType::Standard);

    assert_eq!(edge.fair_prob, 600_000);
    assert_eq!(edge.market_yes_bid, 550_000);
    assert_eq!(edge.market_no_bid, 420_000);

    // YES ask = 1 - NO bid = 1 - 0.42 = 0.58.
    assert_eq!(edge.market_yes_ask, 580_000);

    // YES buy raw edge = fair - ask = 0.60 - 0.58 = 0.02.
    assert_eq!(edge.yes_buy_edge_raw, 20_000);

    // YES sell raw edge = bid - fair = 0.55 - 0.60 = -0.05.
    assert_eq!(edge.yes_sell_edge_raw, -50_000);

    // Net edge subtracts the taker fee, which rounds up to 2 cents at 0.58.
    assert!(edge.yes_buy_edge_net < edge.yes_buy_edge_raw);
    assert!(edge.yes_buy_edge_net < 10_000);
    assert_eq!(edge.yes_buy_edge_net, 0);

    // Maker fee is zero here, so maker edges equal the raw edges.
    assert_eq!(edge.yes_buy_edge_maker, edge.yes_buy_edge_raw);
}

#[test]
fn test_best_action_picks_largest_positive() {
    let edge = EdgeCalculation::calculate(700_000, 55, 42, false, ProductType::Standard);
    // Buying YES at the implied 0.58 ask and selling NO into the 0.42 bid
    // are the same trade and net the same 0.10; the tie goes to the action
    // later in the fixed order, selling NO.
    assert_eq!(edge.edge_for_action(TradeAction::BuyYes), 100_000);
    assert_eq!(edge.edge_for_action(TradeAction::SellNo), 100_000);
    assert_eq!(edge.best_action(), Some(TradeAction::SellNo));
    assert_eq!(edge.best_edge_net(), 100_000);
    assert_eq!(edge.best_edge_raw(), 120_000);
}

#[test]
fn test_best_action_none_without_edge() {
    // Fair sits exactly between the bid and the implied ask: raw edges are
    // non-positive and fees only hurt.
    let edge = EdgeCalculation::calculate(565_000, 55, 42, false, ProductType::Standard);
    assert_eq!(edge.best_action(), None);
    assert_eq!(edge.best_edge_net(), 0);
}

#[test]
fn test_trade_action_side_and_direction() {
    assert_eq!(TradeAction::BuyYes.side(), OrderSide::Yes);
    assert_eq!(TradeAction::SellYes.side(), OrderSide::Yes);
    assert_eq!(TradeAction::BuyNo.side(), OrderSide::No);
    assert_eq!(TradeAction::SellNo.side(), OrderSide::No);
    assert!(TradeAction::BuyYes.is_buy());
    assert!(TradeAction::BuyNo.is_buy());
    assert!(!TradeAction::SellYes.is_buy());
    assert!(!TradeAction::SellNo.is_buy());
}
