//! A relay in front of a paginated JSON REST API: it follows `next` links
//! to assemble whole arrays, rewrites headers for each hop, shapes the
//! responses, and keeps assembled results for a window that each request
//! chooses.
pub mod cache;
pub mod error;
pub mod fetch;
pub mod headers;
pub mod json;
pub mod laws;
pub mod link;
pub mod response;
pub mod route;
