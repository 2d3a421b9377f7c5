use kalshi_monitor::orders::OrderSide;
use kalshi_monitor::position::PositionState;

#[test]
fn test_position_max_loss_long() {
    let mut pos = PositionState::new();
    pos.yes_position = 100;
    pos.cost_basis = 50_000_000; // paid $50 for 100 contracts at 50 cents

    // Max loss = what we paid.
    assert_eq!(pos.max_loss(), 50_000_000);
}

#[test]
fn test_position_max_loss_short() {
    let mut pos = PositionState::new();
    pos.yes_position = -100; // short 100 YES
    pos.cost_basis = -30_000_000; // received $30 premium (selling at 30 cents)

    // Max loss = contracts * $1 - premium received = 100 - 30 = 70.
    assert_eq!(pos.max_loss(), 70_000_000);
}

#[test]
fn test_max_contracts_to_add() {
    let pos = PositionState::new();

    // With a $100 loss budget, buying at 50 cents allows 200 contracts.
    let max = pos.max_contracts_to_add(500_000, 100_000_000, OrderSide::Yes, true);
    assert_eq!(max, 200);

    // Buying at 25 cents allows 400 contracts.
    let max = pos.max_contracts_to_add(250_000, 100_000_000, OrderSide::Yes, true);
    assert_eq!(max, 400);
}

#[test]
fn test_position_round_trip_realizes_pnl() {
    let mut pos = PositionState::new();
    // Buy 100 YES at 50 cents.
    pos.update_from_fill(OrderSide::Yes, true, 100, 500_000);
    assert_eq!(pos.yes_position, 100);
    assert_eq!(pos.cost_basis, 50_000_000);
    assert_eq!(pos.avg_entry_price, 500_000);
    assert_eq!(pos.max_loss(), 50_000_000);

    // Sell all 100 at 40 cents: realized = 100 * (0.40 - 0.50) = -$10.
    pos.update_from_fill(OrderSide::Yes, false, 100, 400_000);
    assert_eq!(pos.yes_position, 0);
    assert_eq!(pos.cost_basis, 0);
    assert_eq!(pos.realized_pnl, -10_000_000);
    assert_eq!(pos.max_loss(), 0);
}

#[test]
fn test_position_short_from_fills() {
    let mut pos = PositionState::new();
    // Buy 100 NO at 30 cents: short 100 YES, premium magnitude $30.
    pos.update_from_fill(OrderSide::No, true, 100, 300_000);
    assert_eq!(pos.yes_position, -100);
    assert_eq!(pos.cost_basis, 30_000_000);
    assert_eq!(pos.max_loss(), 70_000_000);

    // Close 40 of them at 25 cents: profit per contract 5 cents.
    pos.update_from_fill(OrderSide::No, false, 40, 250_000);
    assert_eq!(pos.yes_position, -60);
    assert_eq!(pos.cost_basis, 18_000_000);
    assert_eq!(pos.realized_pnl, 2_000_000);
}

#[test]
fn test_position_flip_clears_basis() {
    let mut pos = PositionState::new();
    pos.update_from_fill(OrderSide::Yes, true, 10, 500_000);
    // Sell 25 YES at 60 cents: closes 10 (realizing $1) and flips short 15.
    pos.update_from_fill(OrderSide::Yes, false, 25, 600_000);
    assert_eq!(pos.yes_position, -15);
    assert_eq!(pos.cost_basis, 0);
    assert_eq!(pos.realized_pnl, 1_000_000);
    assert!(pos.max_loss() >= 0);
}

#[test]
fn test_unrealized_pnl() {
    let mut pos = PositionState::new();
    pos.update_from_fill(OrderSide::Yes, true, 100, 500_000);
    // Fair moved to 0.60: up $10.
    assert_eq!(pos.unrealized_pnl(600_000), 10_000_000);
    // Fair at 0.40: down $10.
    assert_eq!(pos.unrealized_pnl(400_000), -10_000_000);
    // Flat position carries nothing.
    let flat = PositionState::new();
    assert_eq!(flat.unrealized_pnl(600_000), 0);
}

#[test]
fn test_max_loss_never_negative_over_fills() {
    let mut pos = PositionState::new();
    let fills = [
        (OrderSide::Yes, true, 100i64, 500_000i64),
        (OrderSide::Yes, false, 30, 400_000),
        (OrderSide::No, true, 200, 300_000),
        (OrderSide::No, false, 50, 990_000),
        (OrderSide::Yes, true, 500, 10_000),
        (OrderSide::Yes, false, 600, 990_000),
    ];
    for (side, is_buy, count, price) in fills {
        pos.update_from_fill(side, is_buy, count, price);
        assert!(pos.max_loss() >= 0);
    }
}
