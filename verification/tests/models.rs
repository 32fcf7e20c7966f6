use kalshi_trade_rs::error::Error;
use kalshi_trade_rs::models::api_key::{CreateApiKeyRequest, GenerateApiKeyRequest};
use kalshi_trade_rs::models::common::{Action, OrderStatus, Side};
use kalshi_trade_rs::models::communications::{AcceptQuoteRequest, CreateQuoteRequest, CreateRfqRequest};
use kalshi_trade_rs::models::event::{
    EventStatus, ForecastPeriod, GetEventCandlesticksParams, GetEventForecastPercentileHistoryParams,
    GetEventParams, GetEventsParams, GetMultivariateEventsParams,
};
use kalshi_trade_rs::models::fcm::{GetFcmOrdersParams, GetFcmPositionsParams, SettlementStatus};
use kalshi_trade_rs::models::fill::GetFillsParams;
use kalshi_trade_rs::models::historical::{
    GetHistoricalCandlesticksParams, GetHistoricalFillsParams, GetHistoricalMarketsParams,
    GetHistoricalOrdersParams,
};
use kalshi_trade_rs::models::live_data::GetBatchLiveDataParams;
use kalshi_trade_rs::models::market::{
    CandlestickPeriod, GetBatchCandlesticksParams, GetCandlesticksParams, GetMarketsParams,
    GetTradesParams, MarketFilterStatus,
};
use kalshi_trade_rs::models::milestone::GetMilestonesParams;
use kalshi_trade_rs::models::multivariate::GetMultivariateCollectionsParams;
use kalshi_trade_rs::models::order::{
    AmendOrderRequest, BatchCancelOrderItem, BatchCancelOrdersRequest, BatchCreateOrdersRequest,
    CreateOrderRequest, GetOrdersParams, GetQueuePositionsParams,
};
use kalshi_trade_rs::models::order_group::GetOrderGroupsParams;
use kalshi_trade_rs::models::position::GetPositionsParams;
use kalshi_trade_rs::models::series::GetFeeChangesParams;
use kalshi_trade_rs::models::settlement::GetSettlementsParams;
use kalshi_trade_rs::models::structured_target::GetStructuredTargetsParams;
use kalshi_trade_rs::models::subaccount::{
    CreateSubaccountRequest, GetSubaccountTransfersParams, TransferBetweenSubaccountsRequest,
};

#[test]
fn test_create_request() {
    let request = CreateApiKeyRequest::new("My Key", "-----BEGIN PUBLIC KEY-----...");
    assert_eq!(request.name, "My Key");
    assert!(request.public_key.contains("BEGIN PUBLIC KEY"));
}

#[test]
fn test_generate_request() {
    let request = GenerateApiKeyRequest::new("My Key");
    assert_eq!(request.name, "My Key");
}

#[test]
fn test_display_side() {
    assert_eq!(Side::Yes.to_string(), "YES");
    assert_eq!(Side::No.to_string(), "NO");
}

#[test]
fn test_display_action() {
    assert_eq!(Action::Buy.to_string(), "BUY");
    assert_eq!(Action::Sell.to_string(), "SELL");
}

#[test]
fn test_create_rfq_with_contracts() {
    let rfq = CreateRfqRequest::with_contracts("TICKER", 10, true);
    assert_eq!(rfq.market_ticker, "TICKER");
    assert_eq!(rfq.contracts, Some(10));
    assert!(rfq.target_cost_centi_cents.is_none());
    assert!(rfq.rest_remainder);
}

#[test]
fn test_create_rfq_with_target_cost() {
    let rfq = CreateRfqRequest::with_target_cost("TICKER", 500000, false);
    assert_eq!(rfq.market_ticker, "TICKER");
    assert!(rfq.contracts.is_none());
    assert_eq!(rfq.target_cost_centi_cents, Some(500000));
    assert!(!rfq.rest_remainder);
}

#[test]
fn test_create_quote_new() {
    let quote = CreateQuoteRequest::new("RFQ123", "0.5600", "0.4400", true);
    assert_eq!(quote.rfq_id, "RFQ123");
    assert_eq!(quote.yes_bid, "0.5600");
    assert_eq!(quote.no_bid, "0.4400");
    assert!(quote.rest_remainder);
}

#[test]
fn test_create_quote_from_cents() {
    let quote = CreateQuoteRequest::from_cents("RFQ123", 56, false);
    assert_eq!(quote.rfq_id, "RFQ123");
    assert_eq!(quote.yes_bid, "0.5600");
    assert_eq!(quote.no_bid, "0.4400");
    assert!(!quote.rest_remainder);
}

#[test]
fn test_create_quote_from_cents_boundary_values() {
    let quote = CreateQuoteRequest::from_cents("RFQ123", 1, false);
    assert_eq!(quote.yes_bid, "0.0100");
    assert_eq!(quote.no_bid, "0.9900");

    let quote = CreateQuoteRequest::from_cents("RFQ123", 99, false);
    assert_eq!(quote.yes_bid, "0.9900");
    assert_eq!(quote.no_bid, "0.0100");
}

#[test]
fn test_accept_quote() {
    let accept = AcceptQuoteRequest::new(Side::Yes);
    assert_eq!(accept.accepted_side, "yes");

    let accept = AcceptQuoteRequest::new(Side::No);
    assert_eq!(accept.accepted_side, "no");

    let accept = AcceptQuoteRequest::yes();
    assert_eq!(accept.accepted_side, "yes");

    let accept = AcceptQuoteRequest::no();
    assert_eq!(accept.accepted_side, "no");
}

#[test]
fn test_get_events_query_string() {
    let params = GetEventsParams::new()
        .status(EventStatus::Open)
        .limit(50)
        .with_nested_markets(true);
    let qs = params.to_query_string();
    assert!(qs.contains("status=open"));
    assert!(qs.contains("limit=50"));
    assert!(qs.contains("with_nested_markets=true"));
}

#[test]
fn test_get_event_query_string() {
    let params = GetEventParams::new().with_nested_markets(true);
    assert_eq!(params.to_query_string(), "?with_nested_markets=true");
}

#[test]
fn test_get_multivariate_events_query_string() {
    let params = GetMultivariateEventsParams::new()
        .collection_ticker("COLL-123")
        .limit(50)
        .with_nested_markets(true);
    let qs = params.to_query_string();
    assert!(qs.contains("collection_ticker=COLL-123"));
    assert!(qs.contains("limit=50"));
    assert!(qs.contains("with_nested_markets=true"));
}

#[test]
fn test_get_multivariate_events_limit_clamping() {
    let params = GetMultivariateEventsParams::new().limit(0);
    assert_eq!(params.limit, Some(1));

    let params = GetMultivariateEventsParams::new().limit(500);
    assert_eq!(params.limit, Some(200));

    let params = GetMultivariateEventsParams::new().limit(100);
    assert_eq!(params.limit, Some(100));
}

#[test]
fn test_get_event_candlesticks_query_string() {
    let params = GetEventCandlesticksParams::new(1000, 2000, CandlestickPeriod::OneHour);
    let qs = params.to_query_string();
    assert!(qs.contains("start_ts=1000"));
    assert!(qs.contains("end_ts=2000"));
    assert!(qs.contains("period_interval=60"));
}

#[test]
fn test_get_event_candlesticks_validation() {
    let result = GetEventCandlesticksParams::try_new(2000, 1000, CandlestickPeriod::OneHour);
    assert!(result.is_err());

    let result = GetEventCandlesticksParams::try_new(1000, 2000, CandlestickPeriod::OneHour);
    assert!(result.is_ok());
}

#[test]
fn test_forecast_period_values() {
    assert_eq!(ForecastPeriod::FiveSeconds.as_minutes(), 0);
    assert_eq!(ForecastPeriod::OneMinute.as_minutes(), 1);
    assert_eq!(ForecastPeriod::OneHour.as_minutes(), 60);
    assert_eq!(ForecastPeriod::OneDay.as_minutes(), 1440);
}

#[test]
fn test_get_forecast_percentile_history_query_string() {
    let params = GetEventForecastPercentileHistoryParams::new(
        vec![2500, 5000, 7500],
        1000,
        2000,
        ForecastPeriod::OneHour,
    );
    let qs = params.to_query_string();
    assert!(qs.contains("percentiles=2500"));
    assert!(qs.contains("percentiles=5000"));
    assert!(qs.contains("percentiles=7500"));
    assert!(qs.contains("start_ts=1000"));
    assert!(qs.contains("end_ts=2000"));
    assert!(qs.contains("period_interval=60"));
}

#[test]
fn test_get_forecast_percentile_history_validation() {
    let result = GetEventForecastPercentileHistoryParams::try_new(
        vec![1, 2, 3, 4, 5, 6, 7, 8, 9, 10, 11],
        1000,
        2000,
        ForecastPeriod::OneHour,
    );
    assert!(result.is_err());

    let result =
        GetEventForecastPercentileHistoryParams::try_new(vec![5000], 2000, 1000, ForecastPeriod::OneHour);
    assert!(result.is_err());

    let result = GetEventForecastPercentileHistoryParams::try_new(
        vec![2500, 5000, 7500],
        1000,
        2000,
        ForecastPeriod::OneHour,
    );
    assert!(result.is_ok());
}

#[test]
fn test_get_forecast_percentile_history_range_validation() {
    let result =
        GetEventForecastPercentileHistoryParams::try_new(vec![-1], 1000, 2000, ForecastPeriod::OneHour);
    assert!(result.is_err());

    let result =
        GetEventForecastPercentileHistoryParams::try_new(vec![10001], 1000, 2000, ForecastPeriod::OneHour);
    assert!(result.is_err());

    let result = GetEventForecastPercentileHistoryParams::try_new(
        vec![0, 10000],
        1000,
        2000,
        ForecastPeriod::OneHour,
    );
    assert!(result.is_ok());
}

#[test]
fn test_multivariate_events_mutual_exclusivity() {
    let params = GetMultivariateEventsParams::new()
        .series_ticker("SERIES-1")
        .collection_ticker("COLL-1");
    assert!(params.validate().is_err());

    let params = GetMultivariateEventsParams::new().series_ticker("SERIES-1");
    assert!(params.validate().is_ok());

    let params = GetMultivariateEventsParams::new().collection_ticker("COLL-1");
    assert!(params.validate().is_ok());

    let params = GetMultivariateEventsParams::new();
    assert!(params.validate().is_ok());

    let params = GetMultivariateEventsParams::new()
        .series_ticker("SERIES-1")
        .collection_ticker("COLL-1");
    assert!(params.try_to_query_string().is_err());
}

#[test]
fn test_fcm_orders_params_required_only() {
    let params = GetFcmOrdersParams::new("subtrader-123");
    assert_eq!(params.to_query_string(), "?subtrader_id=subtrader-123");
}

#[test]
fn test_fcm_orders_params_with_options() {
    let params = GetFcmOrdersParams::new("subtrader-123")
        .status(OrderStatus::Resting)
        .limit(50)
        .ticker("KXBTC-25JAN");
    let qs = params.to_query_string();
    assert!(qs.contains("subtrader_id=subtrader-123"));
    assert!(qs.contains("status=resting"));
    assert!(qs.contains("limit=50"));
    assert!(qs.contains("ticker=KXBTC-25JAN"));
}

#[test]
fn test_fcm_positions_params_required_only() {
    let params = GetFcmPositionsParams::new("subtrader-456");
    assert_eq!(params.to_query_string(), "?subtrader_id=subtrader-456");
}

#[test]
fn test_fcm_positions_params_with_settlement_status() {
    let params = GetFcmPositionsParams::new("subtrader-456")
        .settlement_status(SettlementStatus::All)
        .limit(100);
    let qs = params.to_query_string();
    assert!(qs.contains("subtrader_id=subtrader-456"));
    assert!(qs.contains("settlement_status=all"));
    assert!(qs.contains("limit=100"));
}

#[test]
fn test_query_string_multiple_params() {
    let params = GetFillsParams::new().ticker("AAPL").limit(50);
    assert_eq!(params.to_query_string(), "?ticker=AAPL&limit=50");
}

#[test]
fn test_historical_markets_query_string() {
    let params = GetHistoricalMarketsParams::new().tickers("AAPL,GOOG").limit(50);
    assert_eq!(params.to_query_string(), "?limit=50&tickers=AAPL%2CGOOG");
}

#[test]
fn test_historical_candlesticks_query_string() {
    let params = GetHistoricalCandlesticksParams::new(1000, 2000, CandlestickPeriod::OneHour);
    assert_eq!(params.to_query_string(), "?start_ts=1000&end_ts=2000&period_interval=60");
}

#[test]
fn test_historical_fills_query_string() {
    let params = GetHistoricalFillsParams::new().ticker("AAPL").limit(100);
    assert_eq!(params.to_query_string(), "?ticker=AAPL&limit=100");
}

#[test]
fn test_historical_orders_query_string() {
    let params = GetHistoricalOrdersParams::new().ticker("AAPL").max_ts(1000);
    assert_eq!(params.to_query_string(), "?ticker=AAPL&max_ts=1000");
}

#[test]
fn test_historical_markets_empty_query() {
    let params = GetHistoricalMarketsParams::new();
    assert_eq!(params.to_query_string(), "");
}

#[test]
fn test_from_ids() {
    let params = GetBatchLiveDataParams::from_ids(&["ms1", "ms2", "ms3"]);
    assert_eq!(params.milestone_ids, Some("ms1,ms2,ms3".to_string()));
}

#[test]
fn live_data_test_query_string() {
    let params = GetBatchLiveDataParams::new()
        .milestone_ids("ms1,ms2")
        .milestone_type("price");
    let qs = params.to_query_string();
    assert!(qs.contains("milestone_ids="));
    assert!(qs.contains("milestone_type=price"));
}

#[test]
fn test_get_markets_query_string() {
    let params = GetMarketsParams::new().status(MarketFilterStatus::Open).limit(50);
    assert!(params.to_query_string().contains("status=open"));
    assert!(params.to_query_string().contains("limit=50"));
}

#[test]
fn test_get_trades_query_string() {
    let params = GetTradesParams::new().ticker("BTC-USD").limit(100);
    assert!(params.to_query_string().contains("ticker=BTC-USD"));
    assert!(params.to_query_string().contains("limit=100"));
}

#[test]
fn test_limit_clamping() {
    let params = GetMarketsParams::new().limit(0);
    assert_eq!(params.limit, Some(1));

    let params = GetMarketsParams::new().limit(-10);
    assert_eq!(params.limit, Some(1));

    let params = GetMarketsParams::new().limit(2000);
    assert_eq!(params.limit, Some(1000));

    let params = GetMarketsParams::new().limit(500);
    assert_eq!(params.limit, Some(500));

    let params = GetTradesParams::new().limit(0);
    assert_eq!(params.limit, Some(1));

    let params = GetTradesParams::new().limit(9999);
    assert_eq!(params.limit, Some(1000));
}

#[test]
fn test_candlesticks_params_validation() {
    let params = GetCandlesticksParams::new(1000, 2000, CandlestickPeriod::OneHour);
    assert_eq!(params.start_ts, 1000);
    assert_eq!(params.end_ts, 2000);

    let params = GetCandlesticksParams::try_new(1000, 2000, CandlestickPeriod::OneMinute);
    assert!(params.is_ok());

    let params = GetCandlesticksParams::try_new(2000, 1000, CandlestickPeriod::OneDay);
    assert!(params.is_err());

    let params = GetCandlesticksParams::try_new(1000, 1000, CandlestickPeriod::OneDay);
    assert!(params.is_err());
}

#[test]
fn test_batch_candlesticks_params_validation() {
    let params = GetBatchCandlesticksParams::new("TICK1,TICK2", 1000, 2000, CandlestickPeriod::OneHour);
    assert_eq!(params.market_tickers, "TICK1,TICK2");

    let params = GetBatchCandlesticksParams::try_new("TICK1", 1000, 2000, CandlestickPeriod::OneMinute);
    assert!(params.is_ok());

    let tickers: Vec<&str> = (0..101).map(|_| "TICK").collect();
    let params =
        GetBatchCandlesticksParams::try_from_tickers(&tickers, 1000, 2000, CandlestickPeriod::OneDay);
    assert!(params.is_err());

    let tickers: Vec<&str> = (0..100).map(|_| "T").collect();
    let params =
        GetBatchCandlesticksParams::try_from_tickers(&tickers, 1000, 2000, CandlestickPeriod::OneDay);
    assert!(params.is_ok());

    let params = GetBatchCandlesticksParams::try_new("TICK1", 2000, 1000, CandlestickPeriod::OneHour);
    assert!(params.is_err());
}

#[test]
fn test_candlestick_period_values() {
    assert_eq!(CandlestickPeriod::OneMinute.as_minutes(), 1);
    assert_eq!(CandlestickPeriod::OneHour.as_minutes(), 60);
    assert_eq!(CandlestickPeriod::OneDay.as_minutes(), 1440);
}

#[test]
fn milestone_test_query_string_empty() {
    let params = GetMilestonesParams::new();
    assert_eq!(params.to_query_string(), "");
}

#[test]
fn test_query_string_with_params() {
    let params = GetMilestonesParams::new()
        .minimum_start_date("2025-01-01T00:00:00Z")
        .limit(50);
    let qs = params.to_query_string();
    assert!(qs.contains("minimum_start_date="));
    assert!(qs.contains("limit=50"));
}

#[test]
fn test_query_params() {
    let params = GetMultivariateCollectionsParams::new().series_ticker("KXBTC").limit(50);
    let qs = params.to_query_string();
    assert!(qs.contains("series_ticker=KXBTC"));
    assert!(qs.contains("limit=50"));
}

#[test]
fn test_query_string_with_status() {
    let params = GetOrdersParams::new().status(OrderStatus::Resting);
    assert_eq!(params.to_query_string(), "?status=resting");
}

#[test]
fn test_queue_positions_params() {
    let params = GetQueuePositionsParams::new()
        .market_tickers("AAPL,GOOG")
        .event_ticker("EVENT-123");
    let qs = params.to_query_string();
    assert!(qs.contains("market_tickers=AAPL%2CGOOG"));
    assert!(qs.contains("event_ticker=EVENT-123"));
}

#[test]
fn test_create_order_request() {
    let req = CreateOrderRequest::new("KXBTC-25JAN", Side::Yes, Action::Buy, 10)
        .yes_price(50)
        .post_only(true);
    assert_eq!(req.ticker, "KXBTC-25JAN");
    assert_eq!(req.count, 10);
    assert_eq!(req.yes_price, Some(50));
    assert_eq!(req.post_only, Some(true));
}

#[test]
fn test_batch_create_validation() {
    let orders: Vec<CreateOrderRequest> = (0..20)
        .map(|i| CreateOrderRequest::new(&format!("TICKER-{}", i), Side::Yes, Action::Buy, 1))
        .collect();
    assert!(BatchCreateOrdersRequest::try_new(orders).is_ok());

    let too_many: Vec<CreateOrderRequest> = (0..21)
        .map(|i| CreateOrderRequest::new(&format!("TICKER-{}", i), Side::Yes, Action::Buy, 1))
        .collect();
    assert!(matches!(
        BatchCreateOrdersRequest::try_new(too_many),
        Err(Error::BatchSizeExceeded(21))
    ));
}

#[test]
fn test_batch_cancel_validation() {
    let ids: Vec<String> = (0..20).map(|i| format!("order-{}", i)).collect();
    assert!(BatchCancelOrdersRequest::try_new(ids).is_ok());

    let too_many: Vec<String> = (0..21).map(|i| format!("order-{}", i)).collect();
    assert!(matches!(
        BatchCancelOrdersRequest::try_new(too_many),
        Err(Error::BatchSizeExceeded(21))
    ));
}

#[test]
fn test_batch_cancel_with_orders() {
    let orders = vec![
        BatchCancelOrderItem::new("order-1").subaccount(1),
        BatchCancelOrderItem::new("order-2"),
    ];
    let req = BatchCancelOrdersRequest::with_orders(orders);
    assert!(req.ids.is_none());
    assert_eq!(req.orders.as_ref().unwrap().len(), 2);
    assert_eq!(req.orders.as_ref().unwrap()[0].subaccount, Some(1));
    assert!(req.orders.as_ref().unwrap()[1].subaccount.is_none());
}

#[test]
fn test_amend_order_with_client_ids() {
    let req = AmendOrderRequest::with_client_order_ids("TICKER", Side::Yes, Action::Buy, "old-id", "new-id");
    assert_eq!(req.client_order_id.as_deref(), Some("old-id"));
    assert_eq!(req.updated_client_order_id.as_deref(), Some("new-id"));
}

#[test]
fn test_get_order_groups_params_query_string() {
    let params = GetOrderGroupsParams::new();
    assert_eq!(params.to_query_string(), "");

    let params = GetOrderGroupsParams::new().limit(50);
    assert!(params.to_query_string().contains("limit=50"));

    let params = GetOrderGroupsParams::new().cursor("abc123").limit(25);
    let qs = params.to_query_string();
    assert!(qs.contains("cursor=abc123"));
    assert!(qs.contains("limit=25"));
}

#[test]
fn position_test_query_string_empty() {
    let params = GetPositionsParams::new();
    assert_eq!(params.to_query_string(), "");
}

#[test]
fn test_query_string_single_param() {
    let params = GetPositionsParams::new().limit(10);
    assert_eq!(params.to_query_string(), "?limit=10");
}

#[test]
fn test_query_string_url_encoding() {
    let params = GetPositionsParams::new().ticker("TEST&SPECIAL=chars");
    assert_eq!(params.to_query_string(), "?ticker=TEST%26SPECIAL%3Dchars");
}

#[test]
fn test_get_fee_changes_params_query_string() {
    let params = GetFeeChangesParams::new().series_ticker("KXBTC").show_historical(true);
    let qs = params.to_query_string();
    assert!(qs.contains("series_ticker=KXBTC"));
    assert!(qs.contains("show_historical=true"));
}

#[test]
fn test_get_fee_changes_params_empty() {
    let params = GetFeeChangesParams::new();
    assert_eq!(params.to_query_string(), "");
}

#[test]
fn test_settlements_query_string() {
    let params = GetSettlementsParams::new().ticker("AAPL-25JAN").limit(50);
    let qs = params.to_query_string();
    assert!(qs.contains("ticker=AAPL-25JAN"));
    assert!(qs.contains("limit=50"));
}

#[test]
fn test_settlements_limit_clamping() {
    let params = GetSettlementsParams::new().limit(500);
    assert_eq!(params.limit, Some(200));

    let params = GetSettlementsParams::new().limit(0);
    assert_eq!(params.limit, Some(1));
}

#[test]
fn structured_target_test_query_string_empty() {
    let params = GetStructuredTargetsParams::new();
    assert_eq!(params.to_query_string(), "");
}

#[test]
fn test_query_string_with_page_size() {
    let params = GetStructuredTargetsParams::new().page_size(100);
    assert!(params.to_query_string().contains("page_size=100"));
}

#[test]
fn test_page_size_clamping() {
    let params = GetStructuredTargetsParams::new().page_size(5000);
    assert_eq!(params.page_size, Some(2000));
}

#[test]
fn test_transfer_validation() {
    assert!(TransferBetweenSubaccountsRequest::try_new(0, 1, 1000).is_ok());
    assert!(TransferBetweenSubaccountsRequest::try_new(1, 0, 1000).is_ok());
    assert!(TransferBetweenSubaccountsRequest::try_new(1, 2, 1000).is_ok());

    assert!(matches!(
        TransferBetweenSubaccountsRequest::try_new(-1, 1, 1000),
        Err(Error::InvalidSubaccountId(-1))
    ));
    assert!(matches!(
        TransferBetweenSubaccountsRequest::try_new(33, 1, 1000),
        Err(Error::InvalidSubaccountId(33))
    ));

    assert!(matches!(
        TransferBetweenSubaccountsRequest::try_new(0, 33, 1000),
        Err(Error::InvalidSubaccountId(33))
    ));

    assert!(matches!(
        TransferBetweenSubaccountsRequest::try_new(1, 1, 1000),
        Err(Error::SameSubaccountTransfer)
    ));

    assert!(matches!(
        TransferBetweenSubaccountsRequest::try_new(0, 1, 0),
        Err(Error::InvalidTransferAmount(0))
    ));
    assert!(matches!(
        TransferBetweenSubaccountsRequest::try_new(0, 1, -100),
        Err(Error::InvalidTransferAmount(-100))
    ));
}

#[test]
fn test_transfer_amount() {
    let request = TransferBetweenSubaccountsRequest::new(0, 1, 12345);
    assert_eq!(request.amount_cents, 12345);
}

#[test]
fn subaccount_test_query_string() {
    let params = GetSubaccountTransfersParams::new().limit(50).from_subaccount(0);
    let qs = params.to_query_string();
    assert!(qs.contains("limit=50"));
    assert!(qs.contains("from_subaccount=0"));
}

#[test]
fn test_create_subaccount_request() {
    let request = CreateSubaccountRequest::new();
    assert!(request.name.is_none());

    let request = CreateSubaccountRequest::with_name("Trading Bot");
    assert_eq!(request.name, Some("Trading Bot".to_string()));

    let request = CreateSubaccountRequest::new().name("Another Bot");
    assert_eq!(request.name, Some("Another Bot".to_string()));

    let request = CreateSubaccountRequest::default();
    assert!(request.name.is_none());
}
