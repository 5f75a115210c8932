use coin_news::article::{combine_articles, NewsArticle};
use coin_news::market::{market_from_body, overview_articles, website_of, MARKET_SOURCE};
use coin_news::json::{member, member_text, parse_json, JsonValue};
use coin_news::news::{
    article_from_item, news_articles, news_from_body, news_from_json, news_search_url,
    MAX_NEWS_ARTICLES,
};

fn news_body(n: usize) -> String {
    let mut items = Vec::new();
    for i in 0..n {
        items.push(format!(
            "{{\"title\":\"T{i}\",\"link\":\"https://n.example/{i}\",\"source_id\":\"src{i}\",\"pubDate\":\"2024-01-0{d} 10:00:00\"}}",
            i = i,
            d = (i % 9) + 1
        ));
    }
    format!("{{\"status\":\"success\",\"results\":[{}]}}", items.join(","))
}

fn market_body(symbol: &str, website: &str) -> String {
    format!(
        "{{\"data\":{{\"{s}\":{{\"description\":\"d\",\"urls\":{{\"website\":[\"{w}\",\"https://other.example\"]}}}}}}}}",
        s = symbol,
        w = website
    )
}

fn article(title: &str) -> NewsArticle {
    NewsArticle {
        title: title.to_string(),
        url: String::new(),
        source: String::new(),
        date: String::new(),
    }
}

#[test]
fn news_url_uses_resolved_lower_case_term() {
    assert_eq!(
        news_search_url("KEY1", "ETH"),
        "https://newsdata.io/api/1/news?apikey=KEY1&q=ethereum&language=en"
    );
    assert_eq!(
        news_search_url("k", "bnb"),
        "https://newsdata.io/api/1/news?apikey=k&q=binance coin&language=en"
    );
    assert_eq!(
        news_search_url("k", "Solana"),
        "https://newsdata.io/api/1/news?apikey=k&q=solana&language=en"
    );
}

#[test]
fn news_keeps_results_in_order() {
    let body = news_body(3);
    let r = news_from_body(Some(body.as_str()));
    assert_eq!(r.len(), 3);
    assert_eq!(r[0].title, "T0");
    assert_eq!(r[1].title, "T1");
    assert_eq!(r[2].title, "T2");
    assert_eq!(r[1].url, "https://n.example/1");
    assert_eq!(r[1].source, "src1");
    assert_eq!(r[1].date, "2024-01-02 10:00:00");
}

#[test]
fn news_never_more_than_five() {
    let body = news_body(12);
    let r = news_from_body(Some(body.as_str()));
    assert_eq!(r.len(), MAX_NEWS_ARTICLES);
    assert_eq!(r[4].title, "T4");
    assert_eq!(news_from_body(Some(news_body(5).as_str())).len(), 5);
    assert_eq!(news_from_body(Some(news_body(6).as_str())).len(), 5);
}

#[test]
fn news_missing_fields_become_empty() {
    let body = "{\"results\":[{\"title\":\"Only title\"},{\"link\":7,\"source_id\":null}]}";
    let r = news_from_body(Some(body));
    assert_eq!(r.len(), 2);
    assert_eq!(r[0].title, "Only title");
    assert_eq!(r[0].url, "");
    assert_eq!(r[0].source, "");
    assert_eq!(r[0].date, "");
    assert_eq!(r[1].title, "");
    assert_eq!(r[1].url, "");
}

#[test]
fn news_failed_request_gives_empty_list() {
    assert!(news_from_body(None).is_empty());
}

#[test]
fn news_unparseable_body_gives_empty_list() {
    assert!(news_from_body(Some("<html>busy</html>")).is_empty());
    assert!(news_from_body(Some("")).is_empty());
    assert!(news_from_body(Some("{\"results\":[")).is_empty());
}

#[test]
fn news_without_results_array_gives_empty_list() {
    assert!(news_from_body(Some("{\"status\":\"error\"}")).is_empty());
    assert!(news_from_body(Some("{\"results\":\"none\"}")).is_empty());
    assert!(news_from_body(Some("[1,2,3]")).is_empty());
}

#[test]
fn news_from_parsed_json() {
    let v = parse_json(&news_body(2)).unwrap();
    let r = news_from_json(&v);
    assert_eq!(r.len(), 2);
    assert_eq!(r[0].source, "src0");
    assert!(news_from_json(&JsonValue::Null).is_empty());
}

#[test]
fn news_articles_read_each_item_in_order() {
    let v = parse_json(&news_body(7)).unwrap();
    let items = match member(&v, "results") {
        Some(JsonValue::Array(items)) => items,
        _ => panic!("results is an array"),
    };
    let r = news_articles(items);
    assert_eq!(r.len(), 5);
    assert_eq!(r[3].title, "T3");
    assert_eq!(r[4].date, "2024-01-05 10:00:00");
    assert!(news_articles(&Vec::new()).is_empty());
}

#[test]
fn item_to_article_defaults() {
    let item = parse_json("{\"title\":\"a\",\"link\":[1],\"source_id\":\"s\"}").unwrap();
    let a = article_from_item(&item);
    assert_eq!(a.title, "a");
    assert_eq!(a.url, "");
    assert_eq!(a.source, "s");
    assert_eq!(a.date, "");
}

#[test]
fn json_reads_members_and_text() {
    let v = parse_json("{\"k\":\"v\",\"n\":12,\"o\":{\"x\":null}}").unwrap();
    assert_eq!(member_text(&v, "k"), Some("v".to_string()));
    assert_eq!(member_text(&v, "n"), None);
    assert_eq!(member_text(&v, "missing"), None);
    assert!(matches!(member(&v, "n"), Some(JsonValue::Number(t)) if t == "12"));
    assert!(matches!(member(&v, "o"), Some(JsonValue::Object(ms)) if ms.len() == 1));
    assert!(member(&v, "missing").is_none());
    assert!(parse_json("{\"k\":").is_none());
    assert!(matches!(parse_json("[true,false]"), Some(JsonValue::Array(xs)) if xs.len() == 2));
}

#[test]
fn market_gives_one_overview() {
    let body = market_body("ETH", "https://ethereum.org");
    let r = market_from_body("ETH", Some(body.as_str()));
    assert_eq!(r.len(), 1);
    assert_eq!(r[0].title, "Overview of ETH");
    assert_eq!(r[0].url, "https://ethereum.org");
    assert_eq!(r[0].source, "CoinMarketCap");
    assert_eq!(MARKET_SOURCE, "CoinMarketCap");
    assert!(chrono::DateTime::parse_from_rfc3339(&r[0].date).is_ok());
}

#[test]
fn market_symbol_absent_gives_empty_list() {
    let body = market_body("BTC", "https://bitcoin.org");
    assert!(market_from_body("ETH", Some(body.as_str())).is_empty());
    assert!(market_from_body("ETH", Some("{\"data\":{}}")).is_empty());
    assert!(market_from_body("ETH", Some("{\"data\":{\"ETH\":[1]}}")).is_empty());
}

#[test]
fn market_without_website_gives_empty_list() {
    let no_urls = "{\"data\":{\"ETH\":{\"description\":\"d\"}}}";
    let empty = "{\"data\":{\"ETH\":{\"urls\":{\"website\":[]}}}}";
    let not_text = "{\"data\":{\"ETH\":{\"urls\":{\"website\":[3]}}}}";
    assert!(market_from_body("ETH", Some(no_urls)).is_empty());
    assert!(market_from_body("ETH", Some(empty)).is_empty());
    assert!(market_from_body("ETH", Some(not_text)).is_empty());
}

#[test]
fn market_failures_give_empty_list() {
    assert!(market_from_body("ETH", None).is_empty());
    assert!(market_from_body("ETH", Some("not json")).is_empty());
}

#[test]
fn website_is_first_listed() {
    let v = parse_json(&market_body("SOL", "https://solana.com")).unwrap();
    assert_eq!(website_of(&v, "SOL"), Some("https://solana.com".to_string()));
    assert_eq!(website_of(&v, "sol"), None);
    let described = "{\"data\":{\"SOL\":{\"description\":\"other\",\"urls\":{\"website\":[\"https://solana.com\"]}}}}";
    assert_eq!(website_of(&parse_json(described).unwrap(), "SOL"), Some("https://solana.com".to_string()));
}

#[test]
fn overview_is_built_exactly() {
    let r = overview_articles("DOT", Some("https://polkadot.network".to_string()), "2024-05-01T00:00:00+00:00".to_string());
    assert_eq!(r.len(), 1);
    assert_eq!(r[0].title, "Overview of DOT");
    assert_eq!(r[0].url, "https://polkadot.network");
    assert_eq!(r[0].source, "CoinMarketCap");
    assert_eq!(r[0].date, "2024-05-01T00:00:00+00:00");
    assert!(overview_articles("DOT", None, "x".to_string()).is_empty());
}

#[test]
fn combine_puts_news_before_market() {
    let r = combine_articles(vec![article("a"), article("b")], vec![article("m")]);
    let titles: Vec<&str> = r.iter().map(|a| a.title.as_str()).collect();
    assert_eq!(titles, vec!["a", "b", "m"]);
    assert!(combine_articles(Vec::new(), Vec::new()).is_empty());
    assert_eq!(combine_articles(Vec::new(), vec![article("m")])[0].title, "m");
}

#[test]
fn eth_query_merges_three_news_and_overview() {
    let news = news_from_body(Some(news_body(3).as_str()));
    let market_text = market_body("ETH", "https://ethereum.org");
    let market = market_from_body("ETH", Some(market_text.as_str()));
    let r = combine_articles(news, market);
    assert_eq!(r.len(), 4);
    assert_eq!(r[0].title, "T0");
    assert_eq!(r[1].title, "T1");
    assert_eq!(r[2].title, "T2");
    assert_eq!(r[3].title, "Overview of ETH");
}

#[test]
fn both_providers_failing_gives_empty_list() {
    let r = combine_articles(news_from_body(None), market_from_body("XYZ", None));
    assert!(r.is_empty());
}
