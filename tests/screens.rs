#[test]
fn account_list_test() {}

#[test]
fn home_test() {}

#[test]
fn notification_test() {}

#[test]
fn portfolio_test() {}

#[test]
fn search_results_test() {}

#[test]
fn ticker_detail_test() {}
