//! A single-hop HTTP forwarding gateway: the route table, the bounded
//! response cache and the per-request pipeline, as verified logic on plain
//! values. Sockets, the HTTP client and the authorization hook live with the
//! embedding program.

pub mod cache;
pub mod failure;
pub mod keyed;
pub mod message;
pub mod pipeline;
pub mod route;
pub mod text;

pub use crate::cache::Cache;
pub use crate::route::{CachePolicy, Config, ConfigRedirect, RouteTable};
