//! The Stocks REST endpoints: each request kind rendered as the URL path
//! fragment (and query string) the HTTP API expects.

use vstd::prelude::*;

verus! {

use vstd::string::StringExecFns;
use crate::Endpoint;
use crate::render::{bool_str, i64_to_dec, spec_bool_str, spec_idec, spec_udec, usize_to_dec};

/// A chart or dividend range parameter of the Stocks API.
#[derive(Clone, Copy, PartialEq, Eq)]
pub enum Duration<'a> {
    FiveYears,
    TwoYears,
    OneYear,
    YearToDate,
    SixMonths,
    ThreeMonths,
    OneMonth,
    OneDay,
    /// A single calendar date, rendered as `date/` followed by the date text.
    Date(&'a str),
    Dynamic,
    /// No range at all: rendered as empty text.
    NoRange,
}

/// The text a duration renders to.
pub open spec fn spec_duration_str<'a>(d: Duration<'a>) -> Seq<char> {
    match d {
        Duration::FiveYears => "5y"@,
        Duration::TwoYears => "2y"@,
        Duration::OneYear => "1y"@,
        Duration::YearToDate => "ytd"@,
        Duration::SixMonths => "6m"@,
        Duration::ThreeMonths => "3m"@,
        Duration::OneMonth => "1m"@,
        Duration::OneDay => "1d"@,
        Duration::Date(date) => "date/"@ + date@,
        Duration::Dynamic => "dynamic"@,
        Duration::NoRange => ""@,
    }
}

impl<'a> Duration<'a> {
    /// Render the duration as the API's range keyword.
    pub fn to_string(&self) -> (r: String)
        ensures
            r@ == spec_duration_str(*self),
    {
        match self {
            Duration::FiveYears => String::from_str("5y"),
            Duration::TwoYears => String::from_str("2y"),
            Duration::OneYear => String::from_str("1y"),
            Duration::YearToDate => String::from_str("ytd"),
            Duration::SixMonths => String::from_str("6m"),
            Duration::ThreeMonths => String::from_str("3m"),
            Duration::OneMonth => String::from_str("1m"),
            Duration::OneDay => String::from_str("1d"),
            Duration::Date(date) => {
                let mut s = String::from_str("date/");
                s.append(date);
                s
            },
            Duration::Dynamic => String::from_str("dynamic"),
            Duration::NoRange => String::from_str(""),
        }
    }
}

impl<'a> Default for Duration<'a> {
    /// The default range is one month.
    fn default() -> (r: Duration<'a>)
        ensures
            r == Duration::<'a>::OneMonth,
    {
        Duration::OneMonth
    }
}

/// The ranking a market list request asks for.
#[derive(PartialEq, Eq)]
pub enum ListParam {
    MostActive,
    Gainers,
    Losers,
    IexVolume,
    IexPercent,
}

/// The text a list parameter renders to.
pub open spec fn spec_list_param_str(p: ListParam) -> Seq<char> {
    match p {
        ListParam::MostActive => "mostactive"@,
        ListParam::Gainers => "gainers"@,
        ListParam::Losers => "losers"@,
        ListParam::IexVolume => "iexvolume"@,
        ListParam::IexPercent => "iexpercent"@,
    }
}

impl ListParam {
    /// Render the list parameter as the API's keyword.
    pub fn to_string(&self) -> (r: String)
        ensures
            r@ == spec_list_param_str(*self),
    {
        match self {
            ListParam::MostActive => String::from_str("mostactive"),
            ListParam::Gainers => String::from_str("gainers"),
            ListParam::Losers => String::from_str("losers"),
            ListParam::IexVolume => String::from_str("iexvolume"),
            ListParam::IexPercent => String::from_str("iexpercent"),
        }
    }
}

/// One optional query parameter of a chart request.
#[derive(PartialEq, Eq)]
pub enum ChartParam {
    /// If true, the one-day chart resets at midnight instead of 9:30am ET.
    Reset(bool),
    /// If true, runs a polyline simplification of the chart, useful for
    /// sparklines.
    Simplify(bool),
    /// If passed, chart data returns every Nth element.
    Interval(usize),
    /// If true, changes are measured from the previous day's close instead of
    /// the first value.
    ChangeFromClose(bool),
    /// If passed, chart data returns only the last N elements.
    Last(usize),
}

/// The `key=value` text a chart parameter renders to.
pub open spec fn spec_chart_param_str(p: ChartParam) -> Seq<char> {
    match p {
        ChartParam::Reset(v) => "chartReset="@ + spec_bool_str(v),
        ChartParam::Simplify(v) => "chartSimplify="@ + spec_bool_str(v),
        ChartParam::Interval(n) => "chartInterval="@ + spec_udec(n as nat),
        ChartParam::ChangeFromClose(v) => "changeFromClose="@ + spec_bool_str(v),
        ChartParam::Last(n) => "chartLast="@ + spec_udec(n as nat),
    }
}

impl ChartParam {
    /// Render the parameter as `key=value` query text.
    pub fn to_string(&self) -> (r: String)
        ensures
            r@ == spec_chart_param_str(*self),
    {
        match self {
            ChartParam::Reset(v) => {
                let mut s = String::from_str("chartReset=");
                s.append(bool_str(*v));
                s
            },
            ChartParam::Simplify(v) => {
                let mut s = String::from_str("chartSimplify=");
                s.append(bool_str(*v));
                s
            },
            ChartParam::Interval(n) => {
                let mut s = String::from_str("chartInterval=");
                let digits = usize_to_dec(*n);
                s.append(digits.as_str());
                s
            },
            ChartParam::ChangeFromClose(v) => {
                let mut s = String::from_str("changeFromClose=");
                s.append(bool_str(*v));
                s
            },
            ChartParam::Last(n) => {
                let mut s = String::from_str("chartLast=");
                let digits = usize_to_dec(*n);
                s.append(digits.as_str());
                s
            },
        }
    }
}

/// The chart parameters rendered one after the other, each followed by `/`.
pub open spec fn spec_chart_params_str(params: Seq<ChartParam>) -> Seq<char>
    decreases params.len(),
{
    if params.len() == 0 {
        Seq::<char>::empty()
    } else {
        spec_chart_param_str(params[0]) + "/"@ + spec_chart_params_str(params.skip(1))
    }
}

/// The rendering grows on the right: one more parameter appends its text and
/// a slash.
proof fn lemma_chart_params_push(params: Seq<ChartParam>, x: ChartParam)
    ensures
        spec_chart_params_str(params.push(x)) == spec_chart_params_str(params)
            + spec_chart_param_str(x) + "/"@,
    decreases params.len(),
{
    let whole = params.push(x);
    assert(whole[0] == if params.len() == 0 { x } else { params[0] });
    if params.len() == 0 {
        assert(whole.skip(1) =~= Seq::<ChartParam>::empty());
        assert(spec_chart_params_str(whole) == spec_chart_param_str(x) + "/"@
            + spec_chart_params_str(Seq::<ChartParam>::empty()));
        assert(spec_chart_params_str(params.push(x)) =~= spec_chart_params_str(params)
            + spec_chart_param_str(x) + "/"@);
    } else {
        assert(whole.skip(1) =~= params.skip(1).push(x));
        lemma_chart_params_push(params.skip(1), x);
        assert(spec_chart_params_str(whole) == spec_chart_param_str(params[0]) + "/"@
            + (spec_chart_params_str(params.skip(1)) + spec_chart_param_str(x) + "/"@));
        assert(spec_chart_params_str(params) == spec_chart_param_str(params[0]) + "/"@
            + spec_chart_params_str(params.skip(1)));
        assert(spec_chart_params_str(params.push(x)) =~= spec_chart_params_str(params)
            + spec_chart_param_str(x) + "/"@);
    }
}

/// Render every chart parameter, each followed by `/`.
fn chart_params_str(params: &Vec<ChartParam>) -> (r: String)
    ensures
        r@ == spec_chart_params_str(params@),
{
    let mut r = String::new();
    proof {
        assert(params@.take(0) =~= Seq::<ChartParam>::empty());
    }
    let mut i: usize = 0;
    while i < params.len()
        invariant
            i <= params@.len(),
            r@ == spec_chart_params_str(params@.take(i as int)),
        decreases params@.len() - i,
    {
        let piece = params[i].to_string();
        r.append(piece.as_str());
        r.append("/");
        proof {
            lemma_chart_params_push(params@.take(i as int), params@[i as int]);
            assert(params@.take(i as int).push(params@[i as int]) =~= params@.take(i + 1));
        }
        i = i + 1;
    }
    proof {
        assert(params@.take(params@.len() as int) =~= params@);
    }
    r
}

/// One request kind of the Stocks API, rendered relative to a symbol's stock
/// path.
#[derive(PartialEq, Eq)]
pub enum StocksEndpoint<'a> {
    Book,
    Chart { duration: Duration<'a>, params: Option<Vec<ChartParam>> },
    Company,
    DelayedQuote,
    Dividends { duration: Duration<'a> },
    Earnings,
    EffectiveSpread,
    Financials,
    List { param: ListParam },
    Logo,
    News { range: Option<i32> },
    Ohlc,
    Peers,
    Previous,
    Price,
    Quote,
    Relevant,
    Splits { duration: Duration<'a> },
    Stats,
    TimeSeries,
    /// The Regulation SHO threshold securities list.
    ThresholdSecurities { date: Option<Duration<'a>> },
    VolumeByVenue,
}

/// The path (and query) text an endpoint renders to.
pub open spec fn spec_endpoint_str<'a>(e: StocksEndpoint<'a>) -> Seq<char> {
    match e {
        StocksEndpoint::Book => "book"@,
        StocksEndpoint::Chart { duration, params } => "chart/"@ + spec_duration_str(duration)
            + "?"@ + (match params {
            Some(ps) => spec_chart_params_str(ps@),
            None => Seq::<char>::empty(),
        }),
        StocksEndpoint::Company => "company"@,
        StocksEndpoint::DelayedQuote => "delayed-quote"@,
        StocksEndpoint::Dividends { duration } => "dividends/"@ + spec_duration_str(duration),
        StocksEndpoint::Earnings => "earnings"@,
        StocksEndpoint::EffectiveSpread => "effective-spread"@,
        StocksEndpoint::Financials => "financials"@,
        StocksEndpoint::List { param } => "list/"@ + spec_list_param_str(param),
        StocksEndpoint::Logo => "logo"@,
        StocksEndpoint::News { range } => "news/last/"@ + (match range {
            Some(n) => spec_idec(n as int),
            None => Seq::<char>::empty(),
        }),
        StocksEndpoint::Ohlc => "ohlc"@,
        StocksEndpoint::Peers => "peers"@,
        StocksEndpoint::Previous => "previous"@,
        StocksEndpoint::Price => "price"@,
        StocksEndpoint::Quote => "quote"@,
        StocksEndpoint::Relevant => "relevant"@,
        StocksEndpoint::Splits { duration } => "splits/"@ + spec_duration_str(duration),
        StocksEndpoint::Stats => "stats"@,
        StocksEndpoint::TimeSeries => "time-series"@,
        StocksEndpoint::ThresholdSecurities { date } => "threshold-securities/"@
            + spec_duration_str(
            match date {
                Some(d) => d,
                None => Duration::NoRange,
            },
        ),
        StocksEndpoint::VolumeByVenue => "volume-by-venue"@,
    }
}

impl<'a> Endpoint for StocksEndpoint<'a> {
    /// Render the endpoint as its path fragment below a stock's base path.
    fn to_endpoint(self) -> (r: String)
        ensures
            r@ == spec_endpoint_str(self),
    {
        match self {
            StocksEndpoint::Book => String::from_str("book"),
            StocksEndpoint::Chart { duration, params } => {
                let mut s = String::from_str("chart/");
                let d = duration.to_string();
                s.append(d.as_str());
                s.append("?");
                match params {
                    Some(ps) => {
                        let rendered = chart_params_str(&ps);
                        s.append(rendered.as_str());
                    },
                    None => {},
                }
                s
            },
            StocksEndpoint::Company => String::from_str("company"),
            StocksEndpoint::DelayedQuote => String::from_str("delayed-quote"),
            StocksEndpoint::Dividends { duration } => {
                let mut s = String::from_str("dividends/");
                let d = duration.to_string();
                s.append(d.as_str());
                s
            },
            StocksEndpoint::Earnings => String::from_str("earnings"),
            StocksEndpoint::EffectiveSpread => String::from_str("effective-spread"),
            StocksEndpoint::Financials => String::from_str("financials"),
            StocksEndpoint::List { param } => {
                let mut s = String::from_str("list/");
                let p = param.to_string();
                s.append(p.as_str());
                s
            },
            StocksEndpoint::Logo => String::from_str("logo"),
            StocksEndpoint::News { range } => {
                let mut s = String::from_str("news/last/");
                match range {
                    Some(n) => {
                        let digits = i64_to_dec(n as i64);
                        s.append(digits.as_str());
                    },
                    None => {},
                }
                s
            },
            StocksEndpoint::Ohlc => String::from_str("ohlc"),
            StocksEndpoint::Peers => String::from_str("peers"),
            StocksEndpoint::Previous => String::from_str("previous"),
            StocksEndpoint::Price => String::from_str("price"),
            StocksEndpoint::Quote => String::from_str("quote"),
            StocksEndpoint::Relevant => String::from_str("relevant"),
            StocksEndpoint::Splits { duration } => {
                let mut s = String::from_str("splits/");
                let d = duration.to_string();
                s.append(d.as_str());
                s
            },
            StocksEndpoint::Stats => String::from_str("stats"),
            StocksEndpoint::TimeSeries => String::from_str("time-series"),
            StocksEndpoint::ThresholdSecurities { date } => {
                let mut s = String::from_str("threshold-securities/");
                let d = match date {
                    Some(d) => d,
                    None => Duration::NoRange,
                };
                let rendered = d.to_string();
                s.append(rendered.as_str());
                s
            },
            StocksEndpoint::VolumeByVenue => String::from_str("volume-by-venue"),
        }
    }
}

} // verus!
