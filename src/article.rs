//! The common article record and the merge of the two providers' lists.
use vstd::prelude::*;

verus! {

/// One piece of aggregated content, in the schema shared by both providers.
#[derive(Debug, Clone)]
pub struct NewsArticle {
    pub title: String,
    pub url: String,
    pub source: String,
    pub date: String,
}

/// Joins the news provider's articles and the market provider's articles:
/// the news come first, in their order, then the market overview.
pub fn combine_articles(news: Vec<NewsArticle>, market: Vec<NewsArticle>) -> (r: Vec<NewsArticle>)
    ensures
        r@ == news@ + market@,
{
    let mut combined = news;
    let mut rest = market;
    combined.append(&mut rest);
    combined
}

} // verus!
