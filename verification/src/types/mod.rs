//! The value model and the typed commands.
pub mod command;
pub mod commands;
pub mod conversions;
pub mod errors;
pub mod redis_bytes;
pub mod redis_values;
pub mod resp_bytes;

pub use redis_values::{RedisErrorValue, RedisResult, RedisValue};
pub use redis_bytes::RBytes;
pub use command::{Command, StructuredCommand};
pub use errors::RedisError;
