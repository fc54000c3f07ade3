//! The in-memory core of a chat backend: a per-key token-bucket rate limiter
//! with pluggable key extraction, a topic-keyed broadcaster for live updates,
//! and a debounced typing-indicator coordinator.

pub mod clock;
pub mod context;
pub mod error;
pub mod rate_limit;
pub mod subscriptions;
pub mod typing;
pub mod validation;

pub use clock::Clock;
pub use rate_limit::{
    Bucket, BucketConfiguration, BucketState, Buckets, Component, Key, RateLimitLayer, RateLimitLayerBuilder, SocketAddress,
};
pub use subscriptions::{Frame, Subscription, Subscriptions};
pub use typing::{Activation, Indicator, IndicatorKey, IndicatorState, Indicators, TaskStep};
pub use context::Keys;
pub use error::{Code, Details, Entry, Error};
