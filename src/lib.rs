//! Aggregation of cryptocurrency news from a news-search provider and a
//! market-data provider into one list of articles.
pub mod symbol;
pub mod article;
pub mod json;
pub mod news;
pub mod market;
