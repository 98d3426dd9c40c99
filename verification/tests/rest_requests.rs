use market_data::commodity::Commodities;
use market_data::crypto::{Cryptos, Either};
use market_data::financial::Financial;
use market_data::forex::Forex;
use market_data::index::Index;
use market_data::json::{decimal_string, json_string, JsonScalar};
use market_data::market::Market;
use market_data::mutualfund::MutualFund;
use market_data::options::FetchType;
use market_data::request::{
    generate_json, history_query, period_query, url, ApiRequest, PathParam, QueryParams, RequestParams,
};
use market_data::stock::Stock;
use market_data::text::ends_with_text;

const BASE: &str = "https://financialmodelingprep.com/api/v3/";

fn full(req: &ApiRequest) -> String {
    url(req.url_path.as_str(), &req.params, "KEY")
}

#[test]
fn fetch_type_names() {
    assert_eq!(FetchType::from_str("crypto"), FetchType::Crypto);
    assert_eq!(FetchType::from_str("forex"), FetchType::Forex);
    assert_eq!(FetchType::from_str("stock"), FetchType::Stock);
    assert_eq!(FetchType::from_str("CRYPTO"), FetchType::Unknown);
    assert_eq!(FetchType::from_str(""), FetchType::Unknown);
}

#[test]
fn url_without_parameters() {
    assert_eq!(full(&Market::most_active()), format!("{}stock/actives?apikey=KEY", BASE));
    assert_eq!(full(&Market::most_gainer()), format!("{}stock/gainers?apikey=KEY", BASE));
    assert_eq!(full(&Market::most_loser()), format!("{}stock/losers?apikey=KEY", BASE));
    assert_eq!(full(&Market::sector_performance()), format!("{}stock/sectors-performance?apikey=KEY", BASE));
    assert_eq!(full(&Market::trading_hours()), format!("{}is-the-market-open?apikey=KEY", BASE));
    assert_eq!(full(&Stock::list()), format!("{}stock/list?apikey=KEY", BASE));
    assert_eq!(full(&Commodities::list()), format!("{}symbol/available-commodities?apikey=KEY", BASE));
    assert_eq!(full(&Cryptos::list()), format!("{}symbol/available-cryptocurrencies?apikey=KEY", BASE));
    assert_eq!(full(&Forex::list()), format!("{}symbol/available-forex-currency-pairs?apikey=KEY", BASE));
    assert_eq!(full(&Index::list()), format!("{}symbol/available-indexes?apikey=KEY", BASE));
    assert_eq!(full(&MutualFund::list()), format!("{}symbol/available-mutual-funds?apikey=KEY", BASE));
}

#[test]
fn url_with_symbol_is_uppercased_without_quotes() {
    let aapl = Stock::new("aapl");
    assert_eq!(full(&aapl.quote()), format!("{}quote/AAPL?apikey=KEY", BASE));
    assert_eq!(full(&aapl.profile()), format!("{}company/profile/AAPL?apikey=KEY", BASE));
    assert_eq!(full(&aapl.rating()), format!("{}company/rating/AAPL?apikey=KEY", BASE));
    assert_eq!(full(&aapl.current_price()), format!("{}stock/real-time-price/AAPL?apikey=KEY", BASE));
}

#[test]
fn url_with_history_query_lists_keys_in_order() {
    let aapl = Stock::new("AAPL");
    let req = aapl.history(Some("2023-01-01"), Some("2023-12-31"), None, Some(100));
    assert_eq!(
        full(&req),
        format!(
            "{}historical-price-full/AAPL?from=2023-01-01&timeseries=100&to=2023-12-31&apikey=KEY",
            BASE
        )
    );
    let req = aapl.dividend_history(None, None, Some("line"), None);
    assert_eq!(
        full(&req),
        format!("{}historical-price-full/stock_dividend/AAPL?serietype=line&apikey=KEY", BASE)
    );
    let req = aapl.split_history(None, None, None, None);
    assert_eq!(full(&req), format!("{}historical-price-full/stock_split/AAPL?apikey=KEY", BASE));
}

#[test]
fn financial_period_defaults_to_annual() {
    let f = Financial::new("MSFT");
    assert_eq!(
        full(&f.income(None)),
        format!("{}financials/income-statement/MSFT?period=annual&apikey=KEY", BASE)
    );
    assert_eq!(
        full(&f.balance(Some("quarter"))),
        format!("{}financials/balance-sheet-statement/MSFT?period=quarter&apikey=KEY", BASE)
    );
    assert_eq!(
        full(&f.cashflow(None)),
        format!("{}financials/cash-flow-statement/MSFT?period=annual&apikey=KEY", BASE)
    );
    assert_eq!(full(&f.metrics(None)), format!("{}company-key-metrics/MSFT?period=annual&apikey=KEY", BASE));
    assert_eq!(
        full(&f.growth(None)),
        format!("{}financial-statement-growth/MSFT?period=annual&apikey=KEY", BASE)
    );
    assert_eq!(full(&f.company_value(None)), format!("{}enterprise-value/MSFT?period=annual&apikey=KEY", BASE));
    assert_eq!(full(&f.ratios()), format!("{}financial-ratios/MSFT?apikey=KEY", BASE));
    let via_stock = Stock::new("MSFT").financial();
    assert_eq!(full(&via_stock.ratios()), full(&f.ratios()));
}

#[test]
fn commodity_index_and_fund_quotes() {
    assert_eq!(full(&Commodities::quote(None)), format!("{}quotes/commodity?apikey=KEY", BASE));
    assert_eq!(full(&Commodities::quote(Some("GCUSD"))), format!("{}quote/GCUSD?apikey=KEY", BASE));
    assert_eq!(full(&Index::quote(None)), format!("{}quotes/index?apikey=KEY", BASE));
    assert_eq!(full(&Index::quote(Some("^GSPC"))), format!("{}quote/^GSPC?apikey=KEY", BASE));
    assert_eq!(full(&MutualFund::quote(None)), format!("{}quotes/mutual_fund?apikey=KEY", BASE));
    let req = Index::history("^GSPC", Some("2023-01-01"), Some("2023-12-31"), None, Some(100));
    assert_eq!(
        full(&req),
        format!(
            "{}historical-price-full/index/^GSPC?from=2023-01-01&timeseries=100&to=2023-12-31&apikey=KEY",
            BASE
        )
    );
    let req = Commodities::history("gcusd", None, None, None, Some(5));
    assert_eq!(
        full(&req),
        format!("{}historical-price-full/commodity/GCUSD?timeseries=5&apikey=KEY", BASE)
    );
    let req = MutualFund::history("VFINX", None, None, None, None);
    assert_eq!(full(&req), format!("{}historical-price-full/mutual_fund/VFINX?apikey=KEY", BASE));
    let req = MutualFund::dividend_history("VFINX", Some("2020-01-01"), None, None, None);
    assert_eq!(
        full(&req),
        format!("{}historical-price-full/stock_dividend/VFINX?from=2020-01-01&apikey=KEY", BASE)
    );
    let req = MutualFund::split_history("VFINX", None, Some("2020-01-01"), None, None);
    assert_eq!(
        full(&req),
        format!("{}historical-price-full/stock_split/VFINX?to=2020-01-01&apikey=KEY", BASE)
    );
}

#[test]
fn forex_symbol_joins_the_pair() {
    let eur_usd = Forex::new("EUR", "USD");
    assert_eq!(full(&eur_usd.rate()), format!("{}quote/EURUSD?apikey=KEY", BASE));
    let req = eur_usd.history(Some("2023-01-01"), None, None, Some(-3));
    assert_eq!(
        full(&req),
        format!("{}historical-price-full/forex/EURUSD?from=2023-01-01&timeseries=-3&apikey=KEY", BASE)
    );
}

#[test]
fn crypto_symbols_are_normalized() {
    assert_eq!(Cryptos::normalize_symbol("btc"), "BTCUSD");
    assert_eq!(Cryptos::normalize_symbol("BTCUSD"), "BTCUSD");
    assert_eq!(Cryptos::normalize_symbol("ethUsd"), "ETHUSD");
    assert_eq!(Cryptos::normalize_symbol("usdt"), "USDTUSD");
    assert_eq!(Cryptos::normalize_symbol("usdc"), "USDCUSD");
    assert_eq!(Cryptos::normalize_symbol(""), "USD");
    for symbol in ["btc", "ETHusd", "usdc", "", "a-b_1"] {
        let once = Cryptos::normalize_symbol(symbol);
        assert_eq!(Cryptos::normalize_symbol(&once), once);
    }
    assert_eq!(full(&Cryptos::quote(None)), format!("{}cryptocurrencies?apikey=KEY", BASE));
    assert_eq!(full(&Cryptos::quote(Some(Either::Single("btc")))), format!("{}quote/BTCUSD?apikey=KEY", BASE));
    let list: &[&str] = &["btc", "ETHusd"];
    assert_eq!(
        full(&Cryptos::quote(Some(Either::Array(list)))),
        format!("{}quote/BTCUSD,ETHUSD?apikey=KEY", BASE)
    );
    let req = Cryptos::history(Either::Single("doge"), Some("2023-01-01"), Some("2023-12-31"), None, Some(100));
    assert_eq!(
        full(&req),
        format!(
            "{}historical-price-full/crypto/DOGEUSD?from=2023-01-01&timeseries=100&to=2023-12-31&apikey=KEY",
            BASE
        )
    );
    let req = Cryptos::history(Either::Array(list), None, None, None, None);
    assert_eq!(full(&req), format!("{}historical-price-full/crypto/BTCUSD,ETHUSD?apikey=KEY", BASE));
}

#[test]
fn query_object_keeps_keys_in_order_and_last_value_wins() {
    let mut q = QueryParams::new();
    q.insert("to".to_string(), JsonScalar::Text("b".to_string()));
    q.insert("from".to_string(), JsonScalar::Text("a".to_string()));
    q.insert("limit".to_string(), JsonScalar::Int(7));
    q.insert("from".to_string(), JsonScalar::Text("c".to_string()));
    q.insert("skip".to_string(), JsonScalar::Null);
    let keys: Vec<&str> = q.entries().iter().map(|e| e.0.as_str()).collect();
    assert_eq!(keys, vec!["from", "limit", "skip", "to"]);
    let params = generate_json(PathParam::Single("x".to_string()), Some(q));
    assert_eq!(
        url("p", &params, "K"),
        format!("{}p/X?from=c&limit=7&to=b&apikey=K", BASE)
    );
}

#[test]
fn query_inserts_of_different_keys_commute() {
    let mut a = QueryParams::new();
    a.insert("from".to_string(), JsonScalar::Text("x".to_string()));
    a.insert("serietype".to_string(), JsonScalar::Int(3));
    a.insert("serietype".to_string(), JsonScalar::Int(4));
    let mut b = QueryParams::new();
    b.insert("serietype".to_string(), JsonScalar::Int(4));
    b.insert("from".to_string(), JsonScalar::Text("x".to_string()));
    let ka: Vec<(String, String)> =
        a.entries().iter().map(|e| (e.0.clone(), format!("{:?}", e.1))).collect();
    let kb: Vec<(String, String)> =
        b.entries().iter().map(|e| (e.0.clone(), format!("{:?}", e.1))).collect();
    assert_eq!(ka, kb);
    assert_eq!(ka.len(), 2);
}

#[test]
fn url_with_only_null_query_values() {
    let q = history_query(None, None, None, None);
    let params = generate_json(PathParam::Single("ab".to_string()), Some(q));
    assert_eq!(url("hist", &params, "K"), format!("{}hist/AB?apikey=K", BASE));
    let params = RequestParams::new();
    assert_eq!(url("", &params, ""), format!("{}?apikey=", BASE));
    let params = generate_json(PathParam::Many(vec![]), Some(period_query(None)));
    assert_eq!(url("x", &params, "K"), format!("{}x/?period=annual&apikey=K", BASE));
}

#[test]
fn json_strings_are_escaped() {
    assert_eq!(json_string("abc"), "\"abc\"");
    assert_eq!(json_string("a\"b\\c"), "\"a\\\"b\\\\c\"");
    assert_eq!(json_string("line\nnext\ttab"), "\"line\\nnext\\ttab\"");
    assert_eq!(json_string("\u{1}\u{1f}"), "\"\\u0001\\u001f\"");
    assert_eq!(json_string("é"), "\"é\"");
}

#[test]
fn decimal_rendering() {
    assert_eq!(decimal_string(0), "0");
    assert_eq!(decimal_string(7), "7");
    assert_eq!(decimal_string(-123), "-123");
    assert_eq!(decimal_string(1000), "1000");
    assert_eq!(decimal_string(i64::MIN), i64::MIN.to_string());
    assert_eq!(decimal_string(i64::MAX), i64::MAX.to_string());
}

#[test]
fn text_suffixes() {
    assert!(ends_with_text("ABCUSD", "USD"));
    assert!(ends_with_text("USD", "USD"));
    assert!(ends_with_text("x", ""));
    assert!(!ends_with_text("US", "USD"));
    assert!(!ends_with_text("USDC", "USD"));
    assert!(!ends_with_text("ABCUSd", "USD"));
}
