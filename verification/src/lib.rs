//! Request-handling core of an HTTP API gateway: routing, rate limiting,
//! backend health tracking, retry policy and traffic metrics.

pub mod clock;
pub mod errors;
pub mod gateway;
pub mod health;
pub mod message;
pub mod metrics;
pub mod models;
pub mod proxy;
pub mod rate_limiter;
pub mod request_id;
pub mod router;
pub mod services;
pub mod text;
