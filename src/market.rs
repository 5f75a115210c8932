//! The market-data provider: the overview article read from its answer.
use vstd::prelude::*;
use crate::article::NewsArticle;
use crate::json::{at, json_of, member, parse_json, string_of, text_of, JsonValue};

verus! {

/// The name under which the market provider's articles appear.
pub const MARKET_SOURCE: &'static str = "CoinMarketCap";

/// Relies on `chrono::Utc::now` and `DateTime::to_rfc3339`: the current time
/// in ISO-8601 form. Nothing is known of which time it is.
#[verifier::external_body]
fn now_rfc3339() -> (r: String) {
    chrono::Utc::now().to_rfc3339()
}

/// `a` is the overview of `symbol` that links to `site_url`, dated `date`.
pub open spec fn is_overview(a: NewsArticle, symbol: Seq<char>, site_url: Seq<char>, date: Seq<char>) -> bool {
    &&& a.title@ == "Overview of "@ + symbol
    &&& a.url@ == site_url
    &&& a.source@ == MARKET_SOURCE@
    &&& a.date@ == date
}

/// The overview article of `symbol` when the provider gave a website for it,
/// else none.
pub fn overview_articles(symbol: &str, site_url: Option<String>, date: String) -> (r: Vec<NewsArticle>)
    ensures
        match site_url {
            Some(u) => r.len() == 1 && is_overview(r[0], symbol@, u@, date@),
            None => r.len() == 0,
        },
{
    match site_url {
        Some(url) => {
            let mut title = String::from_str("Overview of ");
            title.append(symbol);
            let article = NewsArticle { title, url, source: String::from_str(MARKET_SOURCE), date };
            let mut r: Vec<NewsArticle> = Vec::new();
            r.push(article);
            r
        },
        None => Vec::new(),
    }
}

/// The first website of `symbol` in a parsed answer of the market provider:
/// `data[symbol].urls.website[0]`, when `data[symbol]` is an object and that
/// entry is a string.
pub open spec fn website_spec(json: JsonValue, symbol: Seq<char>) -> Option<Seq<char>> {
    let data = at(at(json, "data"@), symbol);
    if data is Object {
        match at(at(data, "urls"@), "website"@) {
            JsonValue::Array(sites) => if sites.len() > 0 {
                text_of(sites[0])
            } else {
                None
            },
            _ => None,
        }
    } else {
        None
    }
}

/// `r` is the list of articles of the market provider's answer `body` for
/// `symbol`, `None` when the request failed: the overview when the answer
/// gives a website for the symbol, else nothing.
pub open spec fn market_of_body(r: Seq<NewsArticle>, symbol: Seq<char>, body: Option<Seq<char>>) -> bool {
    let site = match body {
        Some(text) => match json_of(text) {
            Some(json) => website_spec(json, symbol),
            None => None,
        },
        None => None,
    };
    match site {
        Some(url) => r.len() == 1 && is_overview(r[0], symbol, url, r[0].date@),
        None => r.len() == 0,
    }
}

/// The first website of `symbol` in a parsed answer of the market provider:
/// none when the answer holds no object for the symbol, or no website text.
pub fn website_of(json: &JsonValue, symbol: &str) -> (r: Option<String>)
    ensures
        match r {
            Some(w) => website_spec(*json, symbol@) == Some(w@),
            None => website_spec(*json, symbol@).is_none(),
        },
{
    let data = match member(json, "data") {
        Some(d) => member(d, symbol),
        None => None,
    };
    match data {
        Some(d) => {
            if !matches!(d, JsonValue::Object(_)) {
                return None;
            }
            let sites = match member(d, "urls") {
                Some(u) => member(u, "website"),
                None => None,
            };
            match sites {
                Some(JsonValue::Array(ws)) => {
                    if ws.len() == 0 {
                        None
                    } else {
                        string_of(&ws[0])
                    }
                },
                _ => None,
            }
        },
        None => None,
    }
}

/// The articles of the market provider's answer for `symbol`, `None` when
/// the request failed: the overview of `symbol`, dated now, when the answer
/// gives a website for it; none otherwise, and none on every failure.
pub fn market_from_body(symbol: &str, body: Option<&str>) -> (r: Vec<NewsArticle>)
    ensures
        market_of_body(r@, symbol@, match body {
            Some(text) => Some(text@),
            None => None,
        }),
        r.len() <= 1,
{
    match body {
        Some(text) => match parse_json(text) {
            Some(json) => match website_of(&json, symbol) {
                Some(url) => overview_articles(symbol, Some(url), now_rfc3339()),
                None => Vec::new(),
            },
            None => Vec::new(),
        },
        None => Vec::new(),
    }
}

} // verus!
