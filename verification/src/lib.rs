//! Issues short-lived, signed embedding links for Metabase dashboards.
//!
//! A request names a dashboard by number. The library parses that number,
//! builds the claims (dashboard, a fixed auxiliary parameter, an expiry ten
//! minutes ahead), has them signed with HMAC-SHA256 under a shared secret, and
//! wraps the compact token in the URL that Metabase serves embedded
//! dashboards from.
//!
//! Every function here carries a contract that Verus proves. The few
//! places where the library hands work to code it cannot see (the system
//! clock, the token signer) are small trusted functions, each marked
//! `external_body` or `assume_specification` and documented where it stands.

pub mod claims;
pub mod clock;
pub mod config;
pub mod decimal;
pub mod error;
pub mod handler;
pub mod response;
pub mod signing;

pub use claims::{Params, Resource, UnsignedToken, TOKEN_LIFETIME_SECS};
pub use config::Config;
pub use error::EmbedError;
pub use handler::{
    embed_url, function_handler, issue_link_at, link_for, parse_dashboard, respond, PARAMS_ID,
};
pub use response::EmbedResponse;
pub use signing::sign_claims;
