//! Authentication core for a GitHub-org-gated reverse proxy.
//!
//! The library holds the verified decision subsystem: parsing HTTP Basic
//! credentials, the organization membership set and its paginated sync,
//! the per-user validation cache, the allow/deny decision engine, and the
//! per-request gateway plan. All network traffic is performed by the
//! surrounding application, which feeds plain values into these functions.

pub mod b64;
pub mod cache;
pub mod credentials;
pub mod decimal;
pub mod decision;
pub mod gateway;
pub mod github_api;
pub mod membership;
