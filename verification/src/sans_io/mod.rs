//! The protocol engine: the grammar of response frames, the incremental
//! parser that decodes them, and the pipeline that pairs commands with
//! replies. None of it performs I/O.
pub mod chunking;
pub mod encoding;
pub mod grammar;
pub mod redis_impl;
pub mod response_parser;

pub use redis_impl::Client as SansIoClient;
pub use redis_impl::SansIoEvent;
pub use response_parser::ParseError;
