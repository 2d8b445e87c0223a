use stonks_terminal::orders::{Order, OrderAction, OrderType, StatusType};

#[test]
fn order_type_names_read_back() {
    for t in [
        OrderType::EQ,
        OrderType::OPTN,
        OrderType::SPREADS,
        OrderType::BUY_WRITES,
        OrderType::BUTTERFLY,
        OrderType::IRON_BUTTERFLY,
        OrderType::CONDOR,
        OrderType::IRON_CONDOR,
        OrderType::MF,
        OrderType::MMF,
    ] {
        assert_eq!(OrderType::parse(t.as_str()), Some(t));
    }
    assert_eq!(OrderType::IRON_CONDOR.as_str(), "IRON_CONDOR");
    assert_eq!(OrderType::parse("EQ"), Some(OrderType::EQ));
    assert_eq!(OrderType::parse("eq"), None);
    assert_eq!(OrderType::parse(""), None);
}

#[test]
fn order_action_names_read_back() {
    assert_eq!(OrderAction::parse("BUY"), Some(OrderAction::BUY));
    assert_eq!(OrderAction::parse("SELL_SHORT"), Some(OrderAction::SELL_SHORT));
    assert_eq!(OrderAction::BUY_TO_COVER.as_str(), "BUY_TO_COVER");
    assert_eq!(OrderAction::parse("BUY "), None);
    assert_eq!(OrderAction::parse(OrderAction::EXCHANGE.as_str()), Some(OrderAction::EXCHANGE));
}

#[test]
fn status_names() {
    assert_eq!(StatusType::DONE_TRADE_EXECUTED.as_str(), "DONE_TRADE_EXECUTED");
    assert_eq!(StatusType::OPEN.as_str(), "OPEN");
}

#[test]
fn default_order_is_all_or_none_and_empty() {
    let o = Order::default();
    assert!(o.all_or_none);
    assert!(o.instrument.is_empty());
    assert_eq!(o.account_id, "");
    assert_eq!(o.estimated_commission, "");
}
