//! The news-search provider: its request and the articles read from its answer.
use vstd::prelude::*;
use crate::article::NewsArticle;
use crate::json::{at, json_of, member, member_text, parse_json, text_of, JsonValue};
use crate::symbol::{resolve_coin_name, resolve_spec};

verus! {

/// The most articles that the news provider contributes to one answer.
pub const MAX_NEWS_ARTICLES: usize = 5;

/// What `str::to_lowercase` returns for a string with these characters.
pub uninterp spec fn lower_of(s: Seq<char>) -> Seq<char>;

/// Relies on `str::to_lowercase`: the result depends on the characters alone.
#[verifier::external_body]
fn lowercase(s: &str) -> (r: String)
    ensures
        r@ == lower_of(s@),
{
    s.to_lowercase()
}

/// The request to the news-search endpoint for `query`, with the provider's key.
pub open spec fn news_url_spec(api_key: Seq<char>, query: Seq<char>) -> Seq<char> {
    "https://newsdata.io/api/1/news?apikey="@ + api_key + "&q="@ + lower_of(resolve_spec(query))
        + "&language=en"@
}

/// Builds the news-search request for `query`: the ticker is resolved to the
/// coin's name and lower-cased.
pub fn news_search_url(api_key: &str, query: &str) -> (r: String)
    ensures
        r@ == news_url_spec(api_key@, query@),
{
    let term = lowercase(resolve_coin_name(query));
    let mut url = String::from_str("https://newsdata.io/api/1/news?apikey=");
    url.append(api_key);
    url.append("&q=");
    url.append(term.as_str());
    url.append("&language=en");
    url
}

/// A field's text, or the empty text when it is missing or not a string.
pub open spec fn text_or_empty(field: Option<Seq<char>>) -> Seq<char> {
    match field {
        Some(s) => s,
        None => Seq::empty(),
    }
}

/// `a` is the article made of the result object `item`.
pub open spec fn article_of_item(a: NewsArticle, item: JsonValue) -> bool {
    &&& a.title@ == text_or_empty(text_of(at(item, "title"@)))
    &&& a.url@ == text_or_empty(text_of(at(item, "link"@)))
    &&& a.source@ == text_or_empty(text_of(at(item, "source_id"@)))
    &&& a.date@ == text_or_empty(text_of(at(item, "pubDate"@)))
}

/// How many articles `n` results give.
pub open spec fn news_count(n: nat) -> nat {
    if n < MAX_NEWS_ARTICLES { n } else { MAX_NEWS_ARTICLES as nat }
}

/// The results of a parsed answer of the news provider, when it has an array
/// of them.
pub open spec fn results_of(json: JsonValue) -> Option<Seq<JsonValue>> {
    match at(json, "results"@) {
        JsonValue::Array(items) => Some(items@),
        _ => None,
    }
}

/// `r` is made of the first results of `items`, one article each, in order.
pub open spec fn articles_of_items(r: Seq<NewsArticle>, items: Seq<JsonValue>) -> bool {
    &&& r.len() == news_count(items.len())
    &&& forall|i: int| 0 <= i < r.len() ==> article_of_item(#[trigger] r[i], items[i])
}

/// `r` is the list of articles of the parsed answer `json`: empty when it has
/// no array of results.
pub open spec fn news_of_json(r: Seq<NewsArticle>, json: JsonValue) -> bool {
    match results_of(json) {
        Some(items) => articles_of_items(r, items),
        None => r.len() == 0,
    }
}

/// `r` is the list of articles of the news provider's answer `body`, `None`
/// when the request failed: empty on every failure.
pub open spec fn news_of_body(r: Seq<NewsArticle>, body: Option<Seq<char>>) -> bool {
    match body {
        Some(text) => match json_of(text) {
            Some(json) => news_of_json(r, json),
            None => r.len() == 0,
        },
        None => r.len() == 0,
    }
}

fn text_or_default(field: Option<String>) -> (r: String)
    ensures
        r@ == text_or_empty(
            match field {
                Some(s) => Some(s@),
                None => None,
            },
        ),
{
    match field {
        Some(s) => s,
        None => String::new(),
    }
}

/// The article for one result object, with an empty text for each field that
/// is missing or not a string.
pub fn article_from_item(item: &JsonValue) -> (r: NewsArticle)
    ensures
        article_of_item(r, *item),
{
    NewsArticle {
        title: text_or_default(member_text(item, "title")),
        url: text_or_default(member_text(item, "link")),
        source: text_or_default(member_text(item, "source_id")),
        date: text_or_default(member_text(item, "pubDate")),
    }
}

/// The articles for the first `MAX_NEWS_ARTICLES` results, in their order.
pub fn news_articles(items: &Vec<JsonValue>) -> (r: Vec<NewsArticle>)
    ensures
        articles_of_items(r@, items@),
{
    let mut news: Vec<NewsArticle> = Vec::new();
    let mut i: usize = 0;
    while i < items.len() && i < MAX_NEWS_ARTICLES
        invariant
            i <= items.len(),
            i <= MAX_NEWS_ARTICLES,
            news.len() == i,
            forall|j: int| 0 <= j < i ==> article_of_item(#[trigger] news[j], items[j]),
        decreases items.len() - i,
    {
        news.push(article_from_item(&items[i]));
        i = i + 1;
    }
    news
}

/// The articles of a parsed answer of the news provider: none when it has no
/// array of results.
pub fn news_from_json(json: &JsonValue) -> (r: Vec<NewsArticle>)
    ensures
        news_of_json(r@, *json),
{
    match member(json, "results") {
        Some(JsonValue::Array(items)) => news_articles(items),
        _ => Vec::new(),
    }
}

/// The articles of the news provider's answer, `None` when the request
/// failed: an empty list on every failure, never more than
/// `MAX_NEWS_ARTICLES`.
pub fn news_from_body(body: Option<&str>) -> (r: Vec<NewsArticle>)
    ensures
        news_of_body(r@, match body {
            Some(text) => Some(text@),
            None => None,
        }),
        r.len() <= MAX_NEWS_ARTICLES,
{
    match body {
        Some(text) => match parse_json(text) {
            Some(json) => news_from_json(&json),
            None => Vec::new(),
        },
        None => Vec::new(),
    }
}

/// The articles of an answer are fixed by it: two lists that are both its
/// articles agree in length and, field by field, in each article.
pub proof fn lemma_news_determined(r1: Seq<NewsArticle>, r2: Seq<NewsArticle>, body: Option<Seq<char>>)
    requires
        news_of_body(r1, body),
        news_of_body(r2, body),
    ensures
        r1.len() == r2.len(),
        forall|i: int|
            0 <= i < r1.len() ==> {
                &&& (#[trigger] r1[i]).title@ == r2[i].title@
                &&& r1[i].url@ == r2[i].url@
                &&& r1[i].source@ == r2[i].source@
                &&& r1[i].date@ == r2[i].date@
            },
{
    assert forall|i: int| 0 <= i < r1.len() implies {
        &&& (#[trigger] r1[i]).title@ == r2[i].title@
        &&& r1[i].url@ == r2[i].url@
        &&& r1[i].source@ == r2[i].source@
        &&& r1[i].date@ == r2[i].date@
    } by {
        assert(article_of_item(r1[i], results_of(json_of(body.unwrap()).unwrap()).unwrap()[i]));
        assert(article_of_item(r2[i], results_of(json_of(body.unwrap()).unwrap()).unwrap()[i]));
    }
}

} // verus!
