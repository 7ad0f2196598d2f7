//! Admission control for request-serving infrastructure: a token-bucket rate
//! limiter over a keyed entry store, and a pattern-based request screener.
//!
//! Token amounts are integers: one token is `config::UNITS_PER_TOKEN` units.
//! Instants are integer nanoseconds. Every operation that depends on the time
//! comes in two forms: one that takes the instant, whose result is exactly
//! determined, and one that reads the system clock and then does the same.

pub mod bucket;
pub mod config;
pub mod context;
pub mod laws;
pub mod limiter;
pub mod middleware;
pub mod model;
pub mod patterns;
pub mod screener;
pub mod store;
pub mod text;
pub mod time;
pub mod types;

pub use config::RateLimitConfig;
pub use context::{IpExtractionError, IpExtractionStrategy, SecurityContextConfig};
pub use limiter::RateLimiter;
pub use middleware::Admission;
pub use screener::{RequestScreener, ScreeningConfig, ScreeningReason, ScreeningResult};
pub use time::Timestamp;
pub use types::{
    ActionChecker, NoOpActionChecker, NoOpOnBlocked, OnBlocked, RateLimitEntry, SecurityContext,
};
