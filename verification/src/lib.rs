//! Verified core of the bubble news backend: the ratings a reader builds up
//! by liking, disliking and saving articles, the feed filtering that follows
//! from them, and the decisions of the HTTP handlers and of the store.

pub mod ratings;
pub mod models;
pub mod rating;
pub mod store;
pub mod clock;
pub mod news;
pub mod reply;
pub mod auth;
pub mod routes;
pub mod feed;
pub mod laws;
