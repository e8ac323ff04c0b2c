//! What can go wrong between issuing a command and holding its reply.
use crate::sans_io::grammar::ParseFault;
use crate::sans_io::response_parser::ParseError;
use crate::types::redis_values::{
    optional_value_view, ConversionError, ConversionFault, RedisErrorValue, RedisValue,
    RedisValueView, StringParseError,
};
use std::io::Error as IoError;
use std::string::FromUtf8Error;
use std::sync::mpsc::RecvError;
use vstd::prelude::*;

verus! {

/// `std::io::Error`, carried through unread.
#[verifier::external_type_specification]
#[verifier::external_body]
pub struct ExIoError(IoError);

/// `std::sync::mpsc::RecvError`, carried through unread.
#[verifier::external_type_specification]
#[verifier::external_body]
pub struct ExRecvError(RecvError);

/// The failure of a command.
#[derive(Debug)]
pub enum RedisError {
    /// The transport failed to read.
    ConnectionError(IoError),
    /// The server replied with an error.
    RedisReturnedError(RedisErrorValue),
    /// The bytes from the server break the grammar of responses.
    ProtocolParseError(ParseError),
    /// The inbound channel was closed before the reply was whole.
    InternalConnectionError(RecvError),
    /// The reply has a shape that the command does not take.
    ConversionError(Option<RedisValue>),
    /// The reply is text that does not denote a number of the type that the
    /// command declares.
    StringParseError(StringParseError),
    /// The reply is a byte-string that is not well-formed UTF-8, where the
    /// command declares text.
    InvalidUtf8String(FromUtf8Error),
}

/// What a [`RedisError`] stands for.
pub enum RedisFault {
    ConnectionError,
    RedisReturnedError(Seq<u8>),
    ProtocolParseError(ParseFault),
    InternalConnectionError,
    ConversionError(Option<RedisValueView>),
    StringParseError,
    InvalidUtf8String,
}

impl View for RedisError {
    type V = RedisFault;

    open spec fn view(&self) -> RedisFault {
        match self {
            RedisError::ConnectionError(_) => RedisFault::ConnectionError,
            RedisError::RedisReturnedError(error) => RedisFault::RedisReturnedError(error@),
            RedisError::ProtocolParseError(error) => RedisFault::ProtocolParseError(error@),
            RedisError::InternalConnectionError(_) => RedisFault::InternalConnectionError,
            RedisError::ConversionError(value) => RedisFault::ConversionError(
                optional_value_view(*value),
            ),
            RedisError::StringParseError(_) => RedisFault::StringParseError,
            RedisError::InvalidUtf8String(_) => RedisFault::InvalidUtf8String,
        }
    }
}

/// The failure of a command whose reply did not convert.
pub open spec fn conversion_fault(fault: ConversionFault) -> RedisFault {
    match fault {
        ConversionFault::NoConversionTypeMatch { value } => RedisFault::ConversionError(value),
        ConversionFault::RedisReturnedError { error } => RedisFault::RedisReturnedError(error),
        ConversionFault::CannotParseStringResponse => RedisFault::StringParseError,
        ConversionFault::InvalidUtf8String => RedisFault::InvalidUtf8String,
    }
}

impl RedisError {
    /// The failure of a command whose reply did not convert.
    pub fn from_conversion(error: ConversionError) -> (r: RedisError)
        ensures
            r@ == conversion_fault(error@),
    {
        match error {
            ConversionError::NoConversionTypeMatch { value } => RedisError::ConversionError(
                value,
            ),
            ConversionError::RedisReturnedError { error } => RedisError::RedisReturnedError(
                error,
            ),
            ConversionError::CannotParseStringResponse { error } => RedisError::StringParseError(
                error,
            ),
            ConversionError::InvalidUtf8String(error) => RedisError::InvalidUtf8String(error),
        }
    }
}

} // verus!
