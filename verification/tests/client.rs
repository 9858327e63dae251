//! Tests of the REST side: endpoint and request rendering, numeral
//! rendering, and the batch URL builder.

use iex::endpoints::{
    ChartParam as EndpointChartParam, Duration as EndpointDuration,
    ListParam as EndpointListParam, StocksEndpoint,
};
use iex::render::{i64_to_dec, join_comma, u64_to_dec, usize_to_dec};
use iex::{ChartParam, Client, Duration, Endpoint, ListParam, Request};

#[test]
fn numerals_render_exactly() {
    assert_eq!("0", u64_to_dec(0));
    assert_eq!("7", u64_to_dec(7));
    assert_eq!("12345", u64_to_dec(12_345));
    assert_eq!("18446744073709551615", u64_to_dec(u64::MAX));
    assert_eq!("42", usize_to_dec(42));
    assert_eq!("-1", i64_to_dec(-1));
    assert_eq!("-987", i64_to_dec(-987));
    assert_eq!("-9223372036854775808", i64_to_dec(i64::MIN));
    assert_eq!("9223372036854775807", i64_to_dec(i64::MAX));
}

#[test]
fn join_comma_renders_exactly() {
    assert_eq!("", join_comma(&vec![]));
    assert_eq!("a", join_comma(&vec!["a".to_string()]));
    assert_eq!(
        "a,b,c",
        join_comma(&vec!["a".to_string(), "b".to_string(), "c".to_string()])
    );
}

#[test]
fn durations_render_exactly() {
    assert_eq!("5y", Duration::FiveYears.to_string());
    assert_eq!("2y", Duration::TwoYears.to_string());
    assert_eq!("1y", Duration::OneYear.to_string());
    assert_eq!("ytd", Duration::YearToDate.to_string());
    assert_eq!("6m", Duration::SixMonths.to_string());
    assert_eq!("3m", Duration::ThreeMonths.to_string());
    assert_eq!("1m", Duration::OneMonth.to_string());
    assert_eq!("1d", Duration::OneDay.to_string());
    assert_eq!("date/20230102", Duration::Date("20230102").to_string());
    assert_eq!("dynamic", Duration::Dynamic.to_string());
    assert_eq!("1m", Duration::default().to_string());
}

#[test]
fn list_params_render_exactly() {
    assert_eq!("mostactive", ListParam::MostActive.to_string());
    assert_eq!("gainers", ListParam::Gainers.to_string());
    assert_eq!("losers", ListParam::Losers.to_string());
    assert_eq!("iexvolume", ListParam::IexVolume.to_string());
    assert_eq!("iexpercent", ListParam::IexPercent.to_string());
}

#[test]
fn chart_params_render_values_and_pairs() {
    assert_eq!("true", ChartParam::Reset(true).to_str());
    assert_eq!("false", ChartParam::Simplify(false).to_str());
    assert_eq!("5", ChartParam::Interval(5).to_str());
    assert_eq!("true", ChartParam::ChangeFromClose(true).to_str());
    assert_eq!("250", ChartParam::Last(250).to_str());
    assert_eq!(
        ("chartReset", "true".to_string()),
        ChartParam::Reset(true).to_pair()
    );
    assert_eq!(
        ("chartLast", "5".to_string()),
        ChartParam::Last(5).to_pair()
    );
    assert_eq!(
        ("chartInterval", "3".to_string()),
        ChartParam::Interval(3).to_pair()
    );
    assert_eq!(
        ("chartSimplify", "false".to_string()),
        ChartParam::Simplify(false).to_pair()
    );
    assert_eq!(
        ("changeFromClose", "true".to_string()),
        ChartParam::ChangeFromClose(true).to_pair()
    );
}

#[test]
fn requests_render_exactly() {
    let symbol = "aapl";
    assert_eq!("stock/aapl/book", Request::Book { symbol }.to_string());
    assert_eq!(
        "stock/aapl/chart/1d",
        Request::Chart {
            symbol,
            duration: Duration::OneDay,
            params: None
        }
        .to_string()
    );
    assert_eq!("stock/aapl/company", Request::Company { symbol }.to_string());
    assert_eq!(
        "stock/aapl/delayed-quote",
        Request::DelayedQuote { symbol }.to_string()
    );
    assert_eq!(
        "stock/aapl/dividends/6m",
        Request::Dividends {
            symbol,
            duration: Duration::SixMonths
        }
        .to_string()
    );
    assert_eq!("stock/aapl/earnings", Request::Earnings { symbol }.to_string());
    assert_eq!(
        "stock/aapl/effective-spread",
        Request::EffectiveSpread { symbol }.to_string()
    );
    assert_eq!(
        "stock/aapl/financials",
        Request::Financials { symbol }.to_string()
    );
    assert_eq!(
        "stock/market/list/gainers",
        Request::List {
            param: ListParam::Gainers
        }
        .to_string()
    );
    assert_eq!("stock/aapl/logo", Request::Logo { symbol }.to_string());
    assert_eq!(
        "stock/aapl/news/last/10",
        Request::News {
            symbol,
            range: Some(10)
        }
        .to_string()
    );
    assert_eq!(
        "stock/aapl/news/last/",
        Request::News { symbol, range: None }.to_string()
    );
    assert_eq!("stock/aapl/ohlc", Request::Ohlc { symbol }.to_string());
    assert_eq!("stock/aapl/peers", Request::Peers { symbol }.to_string());
    assert_eq!("stock/aapl/previous", Request::Previous { symbol }.to_string());
    assert_eq!("stock/aapl/price", Request::Price { symbol }.to_string());
    assert_eq!("stock/aapl/quote", Request::Quote { symbol }.to_string());
    assert_eq!("stock/aapl/relevant", Request::Relevant { symbol }.to_string());
    assert_eq!(
        "stock/aapl/splits/5y",
        Request::Splits {
            symbol,
            duration: Duration::FiveYears
        }
        .to_string()
    );
    assert_eq!("stock/aapl/stats", Request::Stats { symbol }.to_string());
    assert_eq!("/ref-data/symbols", Request::Symbols.to_string());
    assert_eq!(
        "stock/market/threshold-securities/date/",
        Request::ThresholdSecurities { date: None }.to_string()
    );
    assert_eq!(
        "stock/market/threshold-securities/1d",
        Request::ThresholdSecurities {
            date: Some(Duration::OneDay)
        }
        .to_string()
    );
    assert_eq!(
        "stock/aapl/volume-by-venue",
        Request::VolumeByVenue { symbol }.to_string()
    );
}

#[test]
fn endpoints_render_exactly() {
    assert_eq!("book", StocksEndpoint::Book.to_endpoint());
    assert_eq!(
        "chart/1d?chartLast=5/chartReset=true/",
        StocksEndpoint::Chart {
            duration: EndpointDuration::OneDay,
            params: Some(vec![
                EndpointChartParam::Last(5),
                EndpointChartParam::Reset(true),
            ])
        }
        .to_endpoint()
    );
    assert_eq!(
        "chart/3m?",
        StocksEndpoint::Chart {
            duration: EndpointDuration::ThreeMonths,
            params: None
        }
        .to_endpoint()
    );
    assert_eq!("company", StocksEndpoint::Company.to_endpoint());
    assert_eq!("delayed-quote", StocksEndpoint::DelayedQuote.to_endpoint());
    assert_eq!(
        "dividends/ytd",
        StocksEndpoint::Dividends {
            duration: EndpointDuration::YearToDate
        }
        .to_endpoint()
    );
    assert_eq!("earnings", StocksEndpoint::Earnings.to_endpoint());
    assert_eq!(
        "effective-spread",
        StocksEndpoint::EffectiveSpread.to_endpoint()
    );
    assert_eq!("financials", StocksEndpoint::Financials.to_endpoint());
    assert_eq!(
        "list/losers",
        StocksEndpoint::List {
            param: EndpointListParam::Losers
        }
        .to_endpoint()
    );
    assert_eq!("logo", StocksEndpoint::Logo.to_endpoint());
    assert_eq!(
        "news/last/-3",
        StocksEndpoint::News { range: Some(-3) }.to_endpoint()
    );
    assert_eq!(
        "news/last/",
        StocksEndpoint::News { range: None }.to_endpoint()
    );
    assert_eq!("ohlc", StocksEndpoint::Ohlc.to_endpoint());
    assert_eq!("peers", StocksEndpoint::Peers.to_endpoint());
    assert_eq!("previous", StocksEndpoint::Previous.to_endpoint());
    assert_eq!("price", StocksEndpoint::Price.to_endpoint());
    assert_eq!("quote", StocksEndpoint::Quote.to_endpoint());
    assert_eq!("relevant", StocksEndpoint::Relevant.to_endpoint());
    assert_eq!(
        "splits/2y",
        StocksEndpoint::Splits {
            duration: EndpointDuration::TwoYears
        }
        .to_endpoint()
    );
    assert_eq!("stats", StocksEndpoint::Stats.to_endpoint());
    assert_eq!("time-series", StocksEndpoint::TimeSeries.to_endpoint());
    assert_eq!(
        "threshold-securities/",
        StocksEndpoint::ThresholdSecurities { date: None }.to_endpoint()
    );
    assert_eq!(
        "threshold-securities/date/20230102",
        StocksEndpoint::ThresholdSecurities {
            date: Some(EndpointDuration::Date("20230102"))
        }
        .to_endpoint()
    );
    assert_eq!("volume-by-venue", StocksEndpoint::VolumeByVenue.to_endpoint());
    assert_eq!("1m", EndpointDuration::default().to_string());
    assert_eq!("", EndpointDuration::NoRange.to_string());
    assert_eq!("iexpercent", EndpointListParam::IexPercent.to_string());
    assert_eq!("chartSimplify=true", EndpointChartParam::Simplify(true).to_string());
}

#[test]
fn client_builds_the_batch_url() {
    let mut client = Client::new();
    client.symbols(vec!["aapl"]);
    client.types(vec![
        Request::Price { symbol: "aapl" },
        Request::Quote { symbol: "aapl" },
    ]);
    assert_eq!(
        "https://api.iextrading.com/1.0/stock/stock/market/batch?\
         symbols=aapl&types=stock/aapl/price,stock/aapl/quote",
        client.url_string()
    );
    let url = client.build_url().unwrap();
    assert_eq!("https", url.scheme());
}

#[test]
fn client_with_many_symbols_queries_the_market() {
    let mut client = Client::new();
    client.symbols(vec!["aapl", "msft"]);
    client.types(vec![Request::Ohlc { symbol: "aapl" }]);
    assert_eq!(
        "https://api.iextrading.com/1.0/stock/stock/market/batch?\
         symbols=market&types=stock/aapl/ohlc",
        client.url_string()
    );
    assert!(client.build_url().is_some());
}
