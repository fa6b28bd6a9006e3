//! Routing and cross-origin policy of a small user-management service.
//!
//! The library decides which responses carry cross-origin headers, builds and
//! validates the first administrative account, and lays out the service's
//! route table. Transport, JSON decoding and storage stay with the caller.
pub mod http;
pub mod cors;
pub mod users;
pub mod users_router;
