//! Public IP address lookup: a uniform interface over many lookup providers,
//! a fallback resolver across them, and a time-to-live response cache.

pub mod cache;
pub mod cached;
pub mod error;
pub mod fallback;
pub mod ip;
pub mod lookup;
pub mod response;
pub mod text;
