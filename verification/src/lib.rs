//! A client library for key-value servers that speak RESP, built around a
//! sans-I/O core: typed commands are encoded to request frames, response
//! bytes are decoded incrementally, and each decoded reply is converted to
//! the type that its command declares.
pub mod decimal;
pub mod sans_io;
pub mod text;
pub mod types;
pub mod utils;

pub use sans_io::SansIoClient;
pub use types::{
    commands, Command, RBytes, RedisError, RedisErrorValue, RedisResult, RedisValue,
    StructuredCommand,
};
