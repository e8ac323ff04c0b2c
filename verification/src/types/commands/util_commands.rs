//! The commands that test a connection: `PING` and `ECHO`.
use crate::types::command::StructuredCommand;
use crate::types::conversions::{converts_to_text, fails_with, no_match};
use crate::types::redis_bytes::RBytes;
use crate::types::redis_values::{
    mismatch, ConversionError, ConversionFault, RedisResult, RedisResultView, RedisValue,
    RedisValueView,
};
use crate::types::resp_bytes::{resp_bytes, slices_view};
use vstd::prelude::*;
use vstd::string::StringSliceAdditionalSpecFns;
use vstd::utf8::encode_utf8;

verus! {

/// Tells whether two runs of bytes are the same.
pub fn same_bytes(left: &[u8], right: &[u8]) -> (r: bool)
    ensures
        r == (left@ == right@),
{
    if left.len() != right.len() {
        return false;
    }
    let mut i: usize = 0;
    while i < left.len()
        invariant
            left.len() == right.len(),
            i <= left.len(),
            forall|j: int| 0 <= j < i ==> left@[j] == right@[j],
        decreases left.len() - i,
    {
        if left[i] != right[i] {
            return false;
        }
        i += 1;
    }
    assert(left@ =~= right@);
    true
}

/// `PING`. The server is expected to reply `PONG`.
pub struct Ping;

impl StructuredCommand for Ping {
    type Output = ();

    open spec fn elements(&self) -> Seq<Seq<u8>> {
        seq!["PING".spec_bytes()]
    }

    open spec fn encodable(&self) -> bool {
        true
    }

    /// The byte-string `PONG` is what is expected; any other reply is a
    /// mismatch.
    open spec fn converts(
        &self,
        result: RedisResult,
        outcome: Result<(), ConversionError>,
    ) -> bool {
        match result@ {
            RedisResultView::String(bytes) => if bytes == "PONG".spec_bytes() {
                outcome is Ok
            } else {
                fails_with(
                    outcome,
                    ConversionFault::NoConversionTypeMatch {
                        value: Some(RedisValueView::String(bytes)),
                    },
                )
            },
            other => fails_with(outcome, mismatch(other)),
        }
    }

    fn is_encodable(&self) -> (r: bool) {
        true
    }

    fn get_bytes(&self) -> (bytes: Vec<u8>) {
        let items: Vec<&[u8]> = vec!["PING".as_bytes()];
        assert(slices_view(items@) =~= self.elements());
        resp_bytes(items.as_slice())
    }

    fn convert_redis_result(self, result: RedisResult) -> (outcome: Result<(), ConversionError>) {
        match result {
            RedisResult::String(string) => {
                if same_bytes(string.as_slice(), "PONG".as_bytes()) {
                    Ok(())
                } else {
                    Err(
                        ConversionError::NoConversionTypeMatch {
                            value: Some(RedisValue::String(string)),
                        },
                    )
                }
            },
            other => Err(no_match(other)),
        }
    }
}

/// `PING`.
pub fn ping() -> (r: Ping) {
    Ping
}

/// `ECHO text`. The reply is the text that the server sends back.
pub struct Echo<'a>(RBytes<'a>);

impl<'a> Echo<'a> {
    /// The text to echo, as the bytes that are sent.
    pub closed spec fn text(&self) -> RBytes<'a> {
        self.0
    }
}

impl<'a> StructuredCommand for Echo<'a> {
    type Output = String;

    open spec fn elements(&self) -> Seq<Seq<u8>> {
        seq!["ECHO".spec_bytes(), self.text()@]
    }

    open spec fn encodable(&self) -> bool {
        true
    }

    /// The reply is converted as `String` is from any reply: a byte-string
    /// that is not well-formed UTF-8 fails.
    open spec fn converts(
        &self,
        result: RedisResult,
        outcome: Result<String, ConversionError>,
    ) -> bool {
        converts_to_text(result@, outcome)
    }

    fn is_encodable(&self) -> (r: bool) {
        true
    }

    fn get_bytes(&self) -> (bytes: Vec<u8>) {
        let items: Vec<&[u8]> = vec!["ECHO".as_bytes(), self.0.as_bytes()];
        assert(slices_view(items@) =~= self.elements());
        resp_bytes(items.as_slice())
    }

    fn convert_redis_result(self, result: RedisResult) -> (outcome: Result<
        String,
        ConversionError,
    >) {
        <String as TryFrom<RedisResult>>::try_from(result)
    }
}

/// `ECHO text`.
pub fn echo<'a, K: Into<String>>(text: K) -> (r: Echo<'a>)
    ensures
        exists|sent: String|
            call_ensures(K::into, (text,), sent) && r.text()@ == encode_utf8(sent@),
{
    let sent: String = text.into();
    let ghost witness = sent;
    let command = Echo(RBytes::from(sent));
    proof {
        assert(call_ensures(K::into, (text,), witness) && command.text()@ == encode_utf8(
            witness@,
        ));
    }
    command
}

} // verus!
