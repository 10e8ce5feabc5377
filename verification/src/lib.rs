//! Client-side logic for a DeepSeek-style HTTP API: base-URL handling,
//! failure classification, retry/fallback policies, and normalization of
//! server-sent-event streams.

pub mod client;
pub mod config;
pub mod error;
pub mod json;
pub mod num;
pub mod policy;
pub mod stream;
pub mod text;
pub mod transport;
pub mod urls;

pub use error::ApiError;
pub use policy::should_fallback_reasoner;
pub use policy::should_retry_completion_beta;
pub use urls::build_beta_base_url;
pub use urls::normalize_base_url;
