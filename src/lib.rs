//! Time-ordered 64-bit identifiers after the snowflake scheme: a timestamp in
//! milliseconds, a machine identifier and a per-millisecond sequence packed into
//! one integer, issued by a generator under one of three strategies.
pub mod address;
pub mod clock;
pub mod error;
pub mod generator;
pub mod laws;
pub mod layout;

pub use clock::get_time_millis;
pub use error::SnowflakeError;
pub use generator::{SnowflakeIdGenerator, UtcTime};
pub use layout::Snowflake;
