//! An authenticating reverse proxy core: OAuth2 authorization-code login,
//! JWT session validation against a fetched key set, and the forwarding
//! rules of a single-upstream gateway (hop-by-hop header stripping,
//! cookie and redirect rewriting across protocol transitions).
//!
//! Network I/O lives outside this crate; these modules hold the decisions
//! the gateway makes, each with a contract: [`auth`] the login and
//! callback flow, [`session`] the token validator, [`proxy`] and
//! [`headers`] the forwarding rules, [`cookies`] the session cookie and
//! the `Set-Cookie` rewrite, and [`gateway`] the guard that lets only a
//! validated session reach the backend.

pub mod auth;
pub mod config;
pub mod cookies;
pub mod encoding;
pub mod errors;
pub mod gateway;
pub mod headers;
pub mod proxy;
pub mod session;
pub mod strutil;
