//! The pipeline: it encodes commands, takes in what the transport reads,
//! and pairs each command with the next reply of the stream. It performs no
//! I/O: the transport writes the bytes that the pipeline hands out, and
//! hands in what it read.
use crate::sans_io::grammar::ParseFault;
use crate::sans_io::response_parser::{ParseError, ParserView, Pull, ResponseParser};
use crate::types::command::StructuredCommand;
use crate::types::errors::{conversion_fault, RedisError, RedisFault};
use crate::types::redis_values::{ConversionError, RedisResult, RedisResultView};
use crate::types::resp_bytes::bulk_array;
use std::io::Error as IoError;
use std::sync::mpsc::RecvError;
use vstd::prelude::*;

verus! {

/// `RecvError`: the error of a channel whose sender is gone. It holds
/// nothing, so there is nothing to claim of it.
#[verifier::external_body]
fn channel_closed() -> RecvError {
    RecvError
}

/// What the transport hands in: one item of the inbound channel, or the
/// news that the channel is closed.
pub enum SansIoEvent {
    /// A chunk of bytes that the transport read.
    Bytes(Vec<u8>),
    /// The transport failed to read.
    ReadFailed(IoError),
    /// The inbound channel is closed.
    Closed(RecvError),
}

/// Where a command stands after the pipeline looked for its reply.
pub enum Step<C: StructuredCommand> {
    /// The reply was there: this is what the command makes of it.
    Ready(Result<C::Output, RedisError>),
    /// The reply is not whole yet. The command comes back, to be handed in
    /// again once the transport has handed in the next event.
    NeedBytes(C),
}

/// What a pipeline amounts to.
pub struct ClientView {
    /// The parser of the pipeline.
    pub parser: ParserView,
    /// True once the transport failed or the channel was closed.
    pub closed: bool,
}

/// True when `outcome` is what the caller gets for a reply that converted
/// to `converted`: the value, or the failure under its own kind.
pub open spec fn surfaces<O>(
    converted: Result<O, ConversionError>,
    outcome: Result<O, RedisError>,
) -> bool {
    match converted {
        Ok(value) => outcome == Ok::<O, RedisError>(value),
        Err(error) => outcome matches Err(failure) && failure@ == conversion_fault(error@),
    }
}

/// True when `outcome` is what the command `converter` makes of a reply
/// that stands for `value`.
pub open spec fn answers<C: StructuredCommand>(
    converter: C,
    value: RedisResultView,
    outcome: Result<C::Output, RedisError>,
) -> bool {
    exists|result: RedisResult, converted: Result<C::Output, ConversionError>|
        {
            &&& result@ == value
            &&& #[trigger] converter.converts(result, converted)
            &&& surfaces(converted, outcome)
        }
}

/// The pipeline of one connection. Commands are answered in the order in
/// which they were issued: each call of `get_response` takes the next reply
/// of the stream.
#[derive(Debug)]
pub struct Client {
    has_errored: bool,
    parser: ResponseParser,
    count: u128,
}

impl View for Client {
    type V = ClientView;

    closed spec fn view(&self) -> ClientView {
        ClientView { parser: self.parser@, closed: self.has_errored }
    }
}

impl Client {
    /// The invariant of the pipeline: that of its parser.
    pub closed spec fn wf(&self) -> bool {
        self.parser.wf()
    }

    /// The number of chunks that were handed in.
    pub closed spec fn chunks(&self) -> nat {
        self.count as nat
    }

    /// A pipeline that has seen no bytes.
    pub fn new() -> (r: Self)
        ensures
            r.wf(),
            r@ == (ClientView { parser: ParserView::fresh(), closed: false }),
            r.chunks() == 0,
    {
        Self { has_errored: false, parser: ResponseParser::new(), count: 0 }
    }

    /// The request frame of `cmd`, for the transport to write.
    pub fn issue_command<C: StructuredCommand>(&self, cmd: &C) -> (bytes: Vec<u8>)
        requires
            cmd.encodable(),
        ensures
            bytes@ == bulk_array(cmd.elements()),
    {
        cmd.get_bytes()
    }

    /// The request frame of `cmd`, or `None` for a command that may not be
    /// encoded.
    pub fn try_issue_command<C: StructuredCommand>(&self, cmd: &C) -> (bytes: Option<Vec<u8>>)
        ensures
            match bytes {
                Some(bytes) => cmd.encodable() && bytes@ == bulk_array(cmd.elements()),
                None => !cmd.encodable(),
            },
    {
        if cmd.is_encodable() {
            Some(cmd.get_bytes())
        } else {
            None
        }
    }

    /// Takes in what the transport read. A chunk of bytes goes to the
    /// parser; a failure to read and the closing of the channel come back as
    /// errors, and leave the pipeline closed.
    pub fn receive(&mut self, event: SansIoEvent) -> (r: Result<(), RedisError>)
        requires
            old(self).wf(),
        ensures
            final(self).wf(),
            match event {
                SansIoEvent::Bytes(bytes) => {
                    &&& r is Ok
                    &&& final(self)@.parser == old(self)@.parser.fed(bytes@)
                    &&& final(self)@.closed == old(self)@.closed
                    &&& old(self).chunks() < u128::MAX ==> final(self).chunks() == old(
                        self,
                    ).chunks() + 1
                },
                SansIoEvent::ReadFailed(_) => {
                    &&& r matches Err(error) && error@ == RedisFault::ConnectionError
                    &&& final(self)@.parser == old(self)@.parser
                    &&& final(self)@.closed
                },
                SansIoEvent::Closed(_) => {
                    &&& r matches Err(error) && error@ == RedisFault::InternalConnectionError
                    &&& final(self)@.parser == old(self)@.parser
                    &&& final(self)@.closed
                },
            },
    {
        match event {
            SansIoEvent::Bytes(bytes) => {
                if self.count < u128::MAX {
                    self.count = self.count + 1;
                }
                self.parser.feed(bytes.as_slice());
                Ok(())
            },
            SansIoEvent::ReadFailed(error) => {
                self.has_errored = true;
                Err(RedisError::ConnectionError(error))
            },
            SansIoEvent::Closed(error) => {
                self.has_errored = true;
                Err(RedisError::InternalConnectionError(error))
            },
        }
    }

    /// Looks for the reply to the command `converter`, which is the next
    /// reply of the stream.
    ///
    /// When the bytes handed in so far hold a whole reply, the command
    /// converts it and the step is `Ready`. When they break the grammar, the
    /// step is `Ready` with `ProtocolParseError`. When they end within a
    /// reply, the command comes back with `NeedBytes`, unless the pipeline
    /// is closed: then nothing more will come, and the step is `Ready` with
    /// `InternalConnectionError`.
    pub fn get_response<C: StructuredCommand>(&mut self, converter: C) -> (step: Step<C>)
        requires
            old(self).wf(),
        ensures
            final(self).wf(),
            final(self)@.parser == old(self)@.parser.after_pull(),
            final(self)@.closed == old(self)@.closed,
            final(self).chunks() == old(self).chunks(),
            match old(self)@.parser.next() {
                Pull::Value(value) => step matches Step::Ready(outcome) && answers(
                    converter,
                    value,
                    outcome,
                ),
                Pull::Failed(fault) => step matches Step::Ready(Err(error)) && error@
                    == RedisFault::ProtocolParseError(fault),
                Pull::NeedMore => if old(self)@.closed {
                    step matches Step::Ready(Err(error)) && error@
                        == RedisFault::InternalConnectionError
                } else {
                    step == Step::NeedBytes(converter)
                },
            },
    {
        match self.parser.get_response() {
            Ok(Some(value)) => {
                let ghost result = value;
                let converted = converter.convert_redis_result(value);
                let ghost witness = converted;
                let outcome = match converted {
                    Ok(output) => Ok(output),
                    Err(error) => Err(RedisError::from_conversion(error)),
                };
                proof {
                    assert(converter.converts(result, witness));
                    assert(surfaces(witness, outcome));
                }
                Step::Ready(outcome)
            },
            Err(error) => Step::Ready(Err(RedisError::ProtocolParseError(error))),
            Ok(None) => {
                if self.has_errored {
                    Step::Ready(Err(RedisError::InternalConnectionError(channel_closed())))
                } else {
                    Step::NeedBytes(converter)
                }
            },
        }
    }
}

} // verus!
