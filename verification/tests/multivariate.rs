use kalshi_trade_rs::json::{Json, JsonNumber};
use kalshi_trade_rs::models::market::MveSelectedLeg;
use kalshi_trade_rs::models::multivariate::{CreateMarketInCollectionRequest, LookupTickersRequest};

fn number(n: i64) -> Json {
    Json::Number(JsonNumber { text: n.to_string(), as_u64: u64::try_from(n).ok(), as_i64: Some(n) })
}

fn names(vars: &[(String, Json)]) -> Vec<&str> {
    vars.iter().map(|(k, _)| k.as_str()).collect()
}

#[test]
fn test_create_market_in_collection_variables() {
    let req = CreateMarketInCollectionRequest::empty()
        .variable("strike", number(100))
        .variable("date", Json::String("2025-01-01".to_string()))
        .variable("strike", number(105));
    let vars = req.variables.as_ref().unwrap();
    assert_eq!(names(vars), vec!["strike", "date"]);
    assert_eq!(vars[0].1.as_i64(), Some(105));
    assert_eq!(vars[1].1.as_str(), Some("2025-01-01"));
    assert!(req.selected_markets.is_none());
}

#[test]
fn test_variable_on_selected_markets_request() {
    let leg = MveSelectedLeg {
        event_ticker: "EV".to_string(),
        market_ticker: "MK".to_string(),
        side: "yes".to_string(),
    };
    let req = LookupTickersRequest::with_selected_markets(vec![leg]).variable("x", number(1));
    assert_eq!(names(req.variables.as_ref().unwrap()), vec!["x"]);
    assert_eq!(req.selected_markets.as_ref().unwrap()[0].market_ticker, "MK");
}

#[test]
fn test_lookup_tickers_new_and_empty() {
    let req = LookupTickersRequest::new(vec![("a".to_string(), Json::Bool(true))]);
    assert_eq!(names(req.variables.as_ref().unwrap()), vec!["a"]);
    assert!(req.selected_markets.is_none());
    let empty = LookupTickersRequest::empty();
    assert!(empty.variables.unwrap().is_empty());
    let sel = CreateMarketInCollectionRequest::with_selected_markets(Vec::new());
    assert!(sel.variables.is_none());
    assert!(sel.selected_markets.unwrap().is_empty());
}

#[test]
fn test_create_market_request_builder() {
    let request = CreateMarketInCollectionRequest::empty()
        .variable("date", Json::String("2025-01-15".to_string()))
        .variable("strike", number(50000));

    let vars = request.variables.as_ref().unwrap();
    assert_eq!(vars.len(), 2);
    let date = vars.iter().find(|(k, _)| k == "date").map(|(_, v)| v).unwrap();
    assert_eq!(date.as_str(), Some("2025-01-15"));
}
