//! Client for the IEX market-data APIs.
//!
//! The heart of the crate is [`iextp`], a decoder for the IEX transport
//! protocol: it parses a received transport segment (a fixed 40-byte header
//! followed by length-prefixed message blocks) into typed feed messages.
//! Around it stand the builders that render REST endpoint paths and query
//! strings for the HTTP API: [`endpoints`], and the request catalog below.

use vstd::prelude::*;

pub mod endpoints;
pub mod iextp;
pub mod render;

verus! {

use vstd::string::StringExecFns;
use crate::render::{bool_str, i64_to_dec, join_comma, spec_bool_str, spec_idec, spec_join_comma,
    spec_udec, usize_to_dec};

/// An endpoint fragment that can be rendered as a URL path segment.
pub trait Endpoint {
    fn to_endpoint(self) -> String;
}

/// The range of history a chart or dividend request asks for.
#[derive(Clone, Copy, PartialEq, Eq)]
pub enum Duration {
    FiveYears,
    TwoYears,
    OneYear,
    YearToDate,
    SixMonths,
    ThreeMonths,
    OneMonth,
    OneDay,
    /// A single calendar date, rendered as `date/` followed by the date text.
    Date(&'static str),
    Dynamic,
}

/// The text a duration renders to.
pub open spec fn spec_duration_str(d: Duration) -> Seq<char> {
    match d {
        Duration::FiveYears => "5y"@,
        Duration::TwoYears => "2y"@,
        Duration::OneYear => "1y"@,
        Duration::YearToDate => "ytd"@,
        Duration::SixMonths => "6m"@,
        Duration::ThreeMonths => "3m"@,
        Duration::OneMonth => "1m"@,
        Duration::OneDay => "1d"@,
        Duration::Date(date) => "date/"@ + date@,
        Duration::Dynamic => "dynamic"@,
    }
}

impl Duration {
    /// Render the duration as the API's range keyword.
    pub fn to_string(&self) -> (r: String)
        ensures
            r@ == spec_duration_str(*self),
    {
        match self {
            Duration::FiveYears => String::from_str("5y"),
            Duration::TwoYears => String::from_str("2y"),
            Duration::OneYear => String::from_str("1y"),
            Duration::YearToDate => String::from_str("ytd"),
            Duration::SixMonths => String::from_str("6m"),
            Duration::ThreeMonths => String::from_str("3m"),
            Duration::OneMonth => String::from_str("1m"),
            Duration::OneDay => String::from_str("1d"),
            Duration::Date(date) => {
                let mut s = String::from_str("date/");
                s.append(date);
                s
            },
            Duration::Dynamic => String::from_str("dynamic"),
        }
    }
}

impl Default for Duration {
    /// The default range is one month.
    fn default() -> (r: Duration)
        ensures
            r == Duration::OneMonth,
    {
        Duration::OneMonth
    }
}

/// The ranking a market list request asks for.
#[derive(PartialEq, Eq, Debug)]
pub enum ListParam {
    MostActive,
    Gainers,
    Losers,
    IexVolume,
    IexPercent,
}

/// The text a list parameter renders to.
pub open spec fn spec_list_param_str(p: ListParam) -> Seq<char> {
    match p {
        ListParam::MostActive => "mostactive"@,
        ListParam::Gainers => "gainers"@,
        ListParam::Losers => "losers"@,
        ListParam::IexVolume => "iexvolume"@,
        ListParam::IexPercent => "iexpercent"@,
    }
}

impl ListParam {
    /// Render the list parameter as the API's keyword.
    pub fn to_string(&self) -> (r: String)
        ensures
            r@ == spec_list_param_str(*self),
    {
        match self {
            ListParam::MostActive => String::from_str("mostactive"),
            ListParam::Gainers => String::from_str("gainers"),
            ListParam::Losers => String::from_str("losers"),
            ListParam::IexVolume => String::from_str("iexvolume"),
            ListParam::IexPercent => String::from_str("iexpercent"),
        }
    }
}

/// One optional query parameter of a chart request.
#[derive(PartialEq, Eq, Debug)]
pub enum ChartParam {
    /// If true, the one-day chart resets at midnight instead of 9:30am ET.
    Reset(bool),
    /// If true, runs a polyline simplification of the chart, useful for
    /// sparklines.
    Simplify(bool),
    /// If passed, chart data returns every Nth element.
    Interval(usize),
    /// If true, changes are measured from the previous day's close instead of
    /// the first value.
    ChangeFromClose(bool),
    /// If passed, chart data returns only the last N elements.
    Last(usize),
}

/// The value text of a chart parameter.
pub open spec fn spec_chart_param_value(p: ChartParam) -> Seq<char> {
    match p {
        ChartParam::Reset(v) => spec_bool_str(v),
        ChartParam::Simplify(v) => spec_bool_str(v),
        ChartParam::ChangeFromClose(v) => spec_bool_str(v),
        ChartParam::Interval(n) => spec_udec(n as nat),
        ChartParam::Last(n) => spec_udec(n as nat),
    }
}

/// The key text of a chart parameter.
pub open spec fn spec_chart_param_key(p: ChartParam) -> Seq<char> {
    match p {
        ChartParam::Reset(_) => "chartReset"@,
        ChartParam::Simplify(_) => "chartSimplify"@,
        ChartParam::Interval(_) => "chartInterval"@,
        ChartParam::ChangeFromClose(_) => "changeFromClose"@,
        ChartParam::Last(_) => "chartLast"@,
    }
}

impl ChartParam {
    /// Render only the parameter's value: a bool keyword or a count.
    pub fn to_str(&self) -> (r: String)
        ensures
            r@ == spec_chart_param_value(*self),
    {
        match self {
            ChartParam::Reset(v) => String::from_str(bool_str(*v)),
            ChartParam::Simplify(v) => String::from_str(bool_str(*v)),
            ChartParam::ChangeFromClose(v) => String::from_str(bool_str(*v)),
            ChartParam::Interval(n) => usize_to_dec(*n),
            ChartParam::Last(n) => usize_to_dec(*n),
        }
    }

    /// The parameter as a query pair: its key and its value text.
    pub fn to_pair(&self) -> (r: (&'static str, String))
        ensures
            r.0@ == spec_chart_param_key(*self),
            r.1@ == spec_chart_param_value(*self),
    {
        let first_arg: &'static str = match self {
            ChartParam::Reset(_) => "chartReset",
            ChartParam::Simplify(_) => "chartSimplify",
            ChartParam::Interval(_) => "chartInterval",
            ChartParam::ChangeFromClose(_) => "changeFromClose",
            ChartParam::Last(_) => "chartLast",
        };
        (first_arg, self.to_str())
    }
}

/// One request of the IEX HTTP API, rendered as the path below the API base.
#[derive(PartialEq, Eq)]
pub enum Request<'a> {
    Book { symbol: &'a str },
    Chart { symbol: &'a str, duration: Duration, params: Option<Vec<ChartParam>> },
    Company { symbol: &'a str },
    DelayedQuote { symbol: &'a str },
    Dividends { symbol: &'a str, duration: Duration },
    Earnings { symbol: &'a str },
    EffectiveSpread { symbol: &'a str },
    Financials { symbol: &'a str },
    List { param: ListParam },
    Logo { symbol: &'a str },
    News { symbol: &'a str, range: Option<i32> },
    Ohlc { symbol: &'a str },
    Peers { symbol: &'a str },
    Previous { symbol: &'a str },
    Price { symbol: &'a str },
    Quote { symbol: &'a str },
    Relevant { symbol: &'a str },
    Splits { symbol: &'a str, duration: Duration },
    Stats { symbol: &'a str },
    Symbols,
    /// The Regulation SHO threshold securities list.
    ThresholdSecurities { date: Option<Duration> },
    VolumeByVenue { symbol: &'a str },
}

/// The path text a request renders to.
pub open spec fn spec_request_str<'a>(r: Request<'a>) -> Seq<char> {
    match r {
        Request::Book { symbol } => "stock/"@ + symbol@ + "/book"@,
        Request::Chart { symbol, duration, params } => "stock/"@ + symbol@ + "/chart/"@
            + spec_duration_str(duration),
        Request::Company { symbol } => "stock/"@ + symbol@ + "/company"@,
        Request::DelayedQuote { symbol } => "stock/"@ + symbol@ + "/delayed-quote"@,
        Request::Dividends { symbol, duration } => "stock/"@ + symbol@ + "/dividends/"@
            + spec_duration_str(duration),
        Request::Earnings { symbol } => "stock/"@ + symbol@ + "/earnings"@,
        Request::EffectiveSpread { symbol } => "stock/"@ + symbol@ + "/effective-spread"@,
        Request::Financials { symbol } => "stock/"@ + symbol@ + "/financials"@,
        Request::List { param } => "stock/market/list/"@ + spec_list_param_str(param),
        Request::Logo { symbol } => "stock/"@ + symbol@ + "/logo"@,
        Request::News { symbol, range } => "stock/"@ + symbol@ + "/news/last/"@ + (match range {
            Some(n) => spec_idec(n as int),
            None => Seq::<char>::empty(),
        }),
        Request::Ohlc { symbol } => "stock/"@ + symbol@ + "/ohlc"@,
        Request::Peers { symbol } => "stock/"@ + symbol@ + "/peers"@,
        Request::Previous { symbol } => "stock/"@ + symbol@ + "/previous"@,
        Request::Price { symbol } => "stock/"@ + symbol@ + "/price"@,
        Request::Quote { symbol } => "stock/"@ + symbol@ + "/quote"@,
        Request::Relevant { symbol } => "stock/"@ + symbol@ + "/relevant"@,
        Request::Splits { symbol, duration } => "stock/"@ + symbol@ + "/splits/"@
            + spec_duration_str(duration),
        Request::Stats { symbol } => "stock/"@ + symbol@ + "/stats"@,
        Request::Symbols => "/ref-data/symbols"@,
        Request::ThresholdSecurities { date } => "stock/market/threshold-securities/"@
            + spec_duration_str(
            match date {
                Some(d) => d,
                None => Duration::Date(""),
            },
        ),
        Request::VolumeByVenue { symbol } => "stock/"@ + symbol@ + "/volume-by-venue"@,
    }
}

/// `stock/`, the symbol, then the endpoint suffix.
fn stock_path(symbol: &str, suffix: &str) -> (r: String)
    ensures
        r@ == "stock/"@ + symbol@ + suffix@,
{
    let mut s = String::from_str("stock/");
    s.append(symbol);
    s.append(suffix);
    s
}

impl<'a> Request<'a> {
    /// Render the request as its path below the API base.
    pub fn to_string(&self) -> (r: String)
        ensures
            r@ == spec_request_str(*self),
    {
        match self {
            Request::Book { symbol } => stock_path(symbol, "/book"),
            Request::Chart { symbol, duration, .. } => {
                let mut s = stock_path(symbol, "/chart/");
                let d = duration.to_string();
                s.append(d.as_str());
                s
            },
            Request::Company { symbol } => stock_path(symbol, "/company"),
            Request::DelayedQuote { symbol } => stock_path(symbol, "/delayed-quote"),
            Request::Dividends { symbol, duration } => {
                let mut s = stock_path(symbol, "/dividends/");
                let d = duration.to_string();
                s.append(d.as_str());
                s
            },
            Request::Earnings { symbol } => stock_path(symbol, "/earnings"),
            Request::EffectiveSpread { symbol } => stock_path(symbol, "/effective-spread"),
            Request::Financials { symbol } => stock_path(symbol, "/financials"),
            Request::List { param } => {
                let mut s = String::from_str("stock/market/list/");
                let p = param.to_string();
                s.append(p.as_str());
                s
            },
            Request::Logo { symbol } => stock_path(symbol, "/logo"),
            Request::News { symbol, range } => {
                let mut s = stock_path(symbol, "/news/last/");
                match range {
                    Some(n) => {
                        let digits = i64_to_dec(*n as i64);
                        s.append(digits.as_str());
                    },
                    None => {},
                }
                s
            },
            Request::Ohlc { symbol } => stock_path(symbol, "/ohlc"),
            Request::Peers { symbol } => stock_path(symbol, "/peers"),
            Request::Previous { symbol } => stock_path(symbol, "/previous"),
            Request::Price { symbol } => stock_path(symbol, "/price"),
            Request::Quote { symbol } => stock_path(symbol, "/quote"),
            Request::Relevant { symbol } => stock_path(symbol, "/relevant"),
            Request::Splits { symbol, duration } => {
                let mut s = stock_path(symbol, "/splits/");
                let d = duration.to_string();
                s.append(d.as_str());
                s
            },
            Request::Stats { symbol } => stock_path(symbol, "/stats"),
            Request::Symbols => String::from_str("/ref-data/symbols"),
            Request::ThresholdSecurities { date } => {
                let mut s = String::from_str("stock/market/threshold-securities/");
                let d = match date {
                    Some(d) => *d,
                    None => Duration::Date(""),
                };
                let rendered = d.to_string();
                s.append(rendered.as_str());
                s
            },
            Request::VolumeByVenue { symbol } => stock_path(symbol, "/volume-by-venue"),
        }
    }
}

/// Base URL of the IEX Stocks API.
pub const IEX_STOCK: &'static str = "https://api.iextrading.com/1.0/stock";

/// Collects rendered request types and symbols, and builds the batch URL that
/// queries them together.
pub struct Client {
    /// The rendered paths of the request types asked for.
    pub _types: Vec<String>,
    /// The symbols asked for.
    pub _symbols: Vec<&'static str>,
}

/// The batch URL text a client's types and symbols render to: a lone symbol
/// queries that symbol, any other count queries the whole market.
pub open spec fn spec_client_url(c: &Client) -> Seq<char> {
    "https://api.iextrading.com/1.0/stock"@ + "/stock/market/batch?symbols="@ + (if c._symbols@.len()
        == 1 {
        c._symbols@[0]@
    } else {
        "market"@
    }) + "&types="@ + spec_join_comma(c._types.deep_view())
}

/// Whether `url::Url::parse` accepts the text as an absolute URL.
pub uninterp spec fn spec_url_ok(s: Seq<char>) -> bool;

/// Relies on `url::Url::parse`: whether a string parses as an absolute URL,
/// and what it parses to, depend on the string alone.
#[verifier::external_body]
fn parse_url(s: &str) -> (r: Option<url::Url>)
    ensures
        r is Some <==> spec_url_ok(s@),
{
    url::Url::parse(s).ok()
}

/// Declares `url::Url` so a parsed URL can be carried through signatures; the
/// value itself stays opaque to the proofs.
#[verifier::external_type_specification]
#[verifier::external_body]
pub struct ExUrl(url::Url);

impl Client {
    /// A client with no types and no symbols yet.
    pub fn new() -> (r: Self)
        ensures
            r._types@.len() == 0,
            r._symbols@.len() == 0,
    {
        Client { _types: Vec::new(), _symbols: Vec::new() }
    }

    /// Record the request types to batch, each rendered to its path text.
    #[must_use]
    pub fn types(&mut self, types: Vec<Request<'static>>)
        ensures
            final(self)._types.deep_view().len() == types@.len(),
            forall|i: int|
                0 <= i < types@.len() ==> final(self)._types.deep_view()[i] == spec_request_str(
                    #[trigger] types@[i],
                ),
            final(self)._symbols == old(self)._symbols,
    {
        let mut rendered: Vec<String> = Vec::new();
        let mut i: usize = 0;
        while i < types.len()
            invariant
                i <= types@.len(),
                rendered@.len() == i,
                forall|j: int|
                    0 <= j < i ==> rendered.deep_view()[j] == spec_request_str(
                        #[trigger] types@[j],
                    ),
            decreases types@.len() - i,
        {
            rendered.push(types[i].to_string());
            i = i + 1;
        }
        self._types = rendered;
    }

    /// Record the symbols to batch.
    pub fn symbols(&mut self, symbols: Vec<&'static str>)
        ensures
            final(self)._symbols == symbols,
            final(self)._types == old(self)._types,
    {
        self._symbols = symbols;
    }

    /// The batch URL for the recorded symbols and types, as text.
    pub fn url_string(&self) -> (r: String)
        ensures
            r@ == spec_client_url(self),
    {
        let symbol_path: String = if self._symbols.len() == 1 {
            String::from_str(self._symbols[0])
        } else {
            String::from_str("market")
        };
        let mut url_str = String::from_str(IEX_STOCK);
        url_str.append("/stock/market/batch?symbols=");
        url_str.append(symbol_path.as_str());
        url_str.append("&types=");
        let types = join_comma(&self._types);
        url_str.append(types.as_str());
        url_str
    }

    /// Build and validate the batch URL: the parsed URL when the text is a
    /// well-formed absolute URL, and nothing otherwise.
    pub fn build_url(&self) -> (r: Option<url::Url>)
        ensures
            r is Some <==> spec_url_ok(spec_client_url(self)),
    {
        let url_str = self.url_string();
        parse_url(url_str.as_str())
    }
}

} // verus!
