//! What a server can reply: the decoded values, the error a server sends
//! back, and the failures of converting a reply to a native type.
use crate::text::string_from_utf8;
use std::num::{ParseFloatError, ParseIntError};
use std::string::FromUtf8Error;
use vstd::prelude::*;
use vstd::string::StringSliceAdditionalSpecFns;
use vstd::utf8::{encode_utf8, is_char_boundary, valid_utf8};

verus! {

/// The ASCII code of the space that parts an error's kind from its message.
pub const SPACE: u8 = 32;

/// The index of the first space in `payload`, counted from `from`; the
/// length of `payload` when there is none.
pub open spec fn first_space(payload: Seq<u8>, from: int) -> int
    decreases payload.len() - from,
{
    if from >= payload.len() {
        payload.len() as int
    } else if payload[from] == SPACE {
        from
    } else {
        first_space(payload, from + 1)
    }
}

/// The kind of an error payload: what stands before its first space, or all
/// of it when it holds no space.
pub open spec fn error_kind(payload: Seq<u8>) -> Seq<u8> {
    payload.subrange(0, first_space(payload, 0))
}

/// The message of an error payload: what follows its first space, if it
/// holds one.
pub open spec fn error_message(payload: Seq<u8>) -> Option<Seq<u8>> {
    let at = first_space(payload, 0);
    if at < payload.len() {
        Some(payload.subrange(at + 1, payload.len() as int))
    } else {
        None
    }
}

/// `first_space` stays within the payload and names a space, with no space
/// before it.
pub proof fn lemma_first_space(payload: Seq<u8>, from: int)
    requires
        0 <= from <= payload.len(),
    ensures
        from <= first_space(payload, from) <= payload.len(),
        first_space(payload, from) < payload.len() ==> payload[first_space(payload, from)]
            == SPACE,
        forall|i: int| from <= i < first_space(payload, from) ==> payload[i] != SPACE,
    decreases payload.len() - from,
{
    if from < payload.len() && payload[from] != SPACE {
        lemma_first_space(payload, from + 1);
    }
}

/// The kind of a payload that does not begin with a space is empty only
/// when the payload is.
pub proof fn lemma_error_kind_nonempty(payload: Seq<u8>)
    requires
        payload.len() > 0,
        payload[0] != SPACE,
    ensures
        error_kind(payload).len() > 0,
{
    lemma_first_space(payload, 0);
    lemma_first_space(payload, 1);
}

/// The error that a server returned in place of a reply. It keeps the
/// server's text verbatim.
#[derive(Debug, PartialEq, Eq)]
pub struct RedisErrorValue {
    contents: String,
}

impl View for RedisErrorValue {
    type V = Seq<u8>;

    /// The payload as the bytes that came over the wire.
    closed spec fn view(&self) -> Seq<u8> {
        encode_utf8(self.contents@)
    }
}

impl RedisErrorValue {
    /// An error value that holds what `contents` converts to.
    pub fn new<K: Into<String>>(contents: K) -> (r: Self)
        ensures
            call_ensures(K::into, (contents,), r.text()),
    {
        Self { contents: contents.into() }
    }

    /// An error value that holds `contents`.
    pub fn from_text(contents: String) -> (r: Self)
        ensures
            r@ == encode_utf8(contents@),
            r.text() == contents,
    {
        Self { contents }
    }

    /// The text this error holds.
    pub closed spec fn text(&self) -> String {
        self.contents
    }

    /// The payload is the UTF-8 encoding of the text.
    pub proof fn lemma_view_is_text(&self)
        ensures
            self@ == encode_utf8(self.text()@),
            valid_utf8(self@),
    {
        vstd::utf8::encode_utf8_valid_utf8(self.contents@);
    }

    /// The whole text of the error, kind and message together.
    pub fn contents(&self) -> (r: &str)
        ensures
            r.spec_bytes() == self@,
    {
        self.contents.as_str()
    }

    /// Finds the first space of the payload: its index, or the payload's
    /// length when it holds none.
    fn split_point(&self) -> (at: usize)
        ensures
            at == first_space(self@, 0),
            at <= self@.len(),
    {
        let bytes = self.contents.as_str().as_bytes();
        let mut at: usize = 0;
        proof {
            lemma_first_space(self@, 0);
        }
        while at < bytes.len() && bytes[at] != SPACE
            invariant
                bytes@ == self@,
                at <= bytes.len(),
                first_space(self@, 0) == first_space(self@, at as int),
            decreases bytes.len() - at,
        {
            at += 1;
        }
        at
    }

    /// The kind of the error: what the server sent before the first space,
    /// or all of it when there is no space.
    pub fn kind(&self) -> (r: Option<&str>)
        ensures
            r matches Some(kind) && kind.spec_bytes() == error_kind(self@),
    {
        let text = self.contents.as_str();
        let at = self.split_point();
        proof {
            let bytes = text.spec_bytes();
            vstd::utf8::encode_utf8_valid_utf8(text@);
            lemma_first_space(bytes, 0);
            if at < bytes.len() {
                vstd::utf8::is_char_boundary_iff_is_leading_byte(bytes, at as int);
            } else {
                vstd::utf8::is_char_boundary_start_end_of_seq(bytes);
            }
        }
        let (kind, _) = text.split_at(at);
        Some(kind)
    }

    /// The message of the error: what the server sent after the first space.
    /// There is none when the payload holds no space.
    pub fn message(&self) -> (r: Option<&str>)
        ensures
            match error_message(self@) {
                Some(message) => r matches Some(text) && text.spec_bytes() == message,
                None => r is None,
            },
    {
        let text = self.contents.as_str();
        let at = self.split_point();
        proof {
            lemma_first_space(self@, 0);
        }
        if at >= text.as_bytes().len() {
            return None;
        }
        proof {
            let bytes = text.spec_bytes();
            vstd::utf8::encode_utf8_valid_utf8(text@);
            lemma_first_space(bytes, 0);
            vstd::utf8::is_char_boundary_iff_is_leading_byte(bytes, at as int);
        }
        let (_, tail) = text.split_at(at);
        proof {
            let bytes = text.spec_bytes();
            let rest = tail.spec_bytes();
            vstd::utf8::valid_utf8_split(bytes, at as int);
            assert(rest =~= bytes.subrange(at as int, bytes.len() as int));
            assert(rest[0] == SPACE);
            assert(valid_utf8(rest));
            reveal_with_fuel(is_char_boundary, 2);
            assert(vstd::utf8::length_of_first_scalar(rest) == 1);
            assert(is_char_boundary(rest, 1));
        }
        let (_, message) = tail.split_at(1);
        proof {
            let bytes = text.spec_bytes();
            let rest = tail.spec_bytes();
            assert(message.spec_bytes() =~= bytes.subrange(at + 1, bytes.len() as int));
        }
        Some(message)
    }
}

/// A decoded reply, as the parser hands it out.
#[derive(Debug, PartialEq, Eq)]
pub enum RedisResult {
    /// A byte-string, from a simple or a bulk frame. It need not be text.
    String(Vec<u8>),
    /// A signed 64-bit integer.
    Integer(i64),
    /// An error that the server sent in place of a reply.
    Error(RedisErrorValue),
    /// An array of replies, which may nest.
    Array(Vec<RedisResult>),
    /// The null bulk-string or the null array.
    Null,
}

/// What a [`RedisResult`] stands for.
pub enum RedisResultView {
    String(Seq<u8>),
    Integer(i64),
    Error(Seq<u8>),
    Array(Seq<RedisResultView>),
    Null,
}

/// The values of a run of replies, one by one.
pub open spec fn results_view(items: Seq<RedisResult>) -> Seq<RedisResultView> {
    Seq::new(items.len(), |i: int| items[i]@)
}

/// The mathematical value of a reply.
pub open spec fn result_view(result: RedisResult) -> RedisResultView
    decreases result,
{
    match result {
        RedisResult::String(bytes) => RedisResultView::String(bytes@),
        RedisResult::Integer(n) => RedisResultView::Integer(n),
        RedisResult::Error(error) => RedisResultView::Error(error@),
        RedisResult::Array(items) => RedisResultView::Array(
            Seq::new(
                items@.len(),
                |i: int|
                    if 0 <= i < items@.len() {
                        result_view(items@[i])
                    } else {
                        RedisResultView::Null
                    },
            ),
        ),
        RedisResult::Null => RedisResultView::Null,
    }
}

impl View for RedisResult {
    type V = RedisResultView;

    open spec fn view(&self) -> RedisResultView {
        result_view(*self)
    }
}

/// The value of an array reply is the array of its items' values.
pub proof fn lemma_array_view(items: Vec<RedisResult>)
    ensures
        RedisResult::Array(items)@ == RedisResultView::Array(results_view(items@)),
{
    let array = RedisResult::Array(items);
    assert(array@->Array_0 =~= results_view(items@));
}

/// A reply that is known not to be an error or null: what a caller gets
/// when a conversion found no match.
#[derive(Debug, PartialEq, Eq)]
pub enum RedisValue {
    /// A byte-string.
    String(Vec<u8>),
    /// A signed 64-bit integer.
    Integer(i64),
    /// An array whose items may be null.
    Array(Vec<Option<RedisValue>>),
}

/// What a [`RedisValue`] stands for.
pub enum RedisValueView {
    String(Seq<u8>),
    Integer(i64),
    Array(Seq<Option<RedisValueView>>),
}

/// The value of an optional [`RedisValue`].
pub open spec fn optional_value_view(value: Option<RedisValue>) -> Option<RedisValueView> {
    match value {
        Some(v) => Some(v@),
        None => None,
    }
}

/// The values of a run of optional values, one by one.
pub open spec fn values_view(items: Seq<Option<RedisValue>>) -> Seq<Option<RedisValueView>> {
    Seq::new(items.len(), |i: int| optional_value_view(items[i]))
}

/// The mathematical value of a [`RedisValue`].
pub open spec fn value_view(value: RedisValue) -> RedisValueView
    decreases value,
{
    match value {
        RedisValue::String(bytes) => RedisValueView::String(bytes@),
        RedisValue::Integer(n) => RedisValueView::Integer(n),
        RedisValue::Array(items) => RedisValueView::Array(
            Seq::new(
                items@.len(),
                |i: int|
                    if 0 <= i < items@.len() {
                        match items@[i] {
                            Some(v) => Some(value_view(v)),
                            None => None,
                        }
                    } else {
                        None
                    },
            ),
        ),
    }
}

impl View for RedisValue {
    type V = RedisValueView;

    open spec fn view(&self) -> RedisValueView {
        value_view(*self)
    }
}

/// The value of an array is the array of its items' values.
pub proof fn lemma_value_array_view(items: Vec<Option<RedisValue>>)
    ensures
        RedisValue::Array(items)@ == RedisValueView::Array(values_view(items@)),
{
    let array = RedisValue::Array(items);
    assert(array@->Array_0 =~= values_view(items@));
}

/// Why text could not be read as a number.
#[derive(Debug, PartialEq, Eq)]
pub enum StringParseError {
    /// The text is no integer of the type asked for.
    Integer(ParseIntError),
    /// The text is no floating-point number.
    Float(ParseFloatError),
}

/// Why a reply could not be converted to the type that was asked for.
#[derive(Debug, PartialEq, Eq)]
#[allow(inconsistent_fields)]
pub enum ConversionError {
    /// The reply has a shape that the type does not take. `value` is the
    /// reply, and `None` when the reply was null.
    NoConversionTypeMatch { value: Option<RedisValue> },
    /// The server sent an error in place of a reply, or within it.
    RedisReturnedError { error: RedisErrorValue },
    /// The reply is text that does not denote a number of the type.
    CannotParseStringResponse { error: StringParseError },
    /// The reply is a byte-string that is not well-formed UTF-8, where text
    /// was asked for.
    InvalidUtf8String(FromUtf8Error),
}

/// What a [`ConversionError`] stands for.
pub enum ConversionFault {
    NoConversionTypeMatch { value: Option<RedisValueView> },
    RedisReturnedError { error: Seq<u8> },
    CannotParseStringResponse,
    InvalidUtf8String,
}

impl View for ConversionError {
    type V = ConversionFault;

    open spec fn view(&self) -> ConversionFault {
        match self {
            ConversionError::NoConversionTypeMatch { value } => {
                ConversionFault::NoConversionTypeMatch { value: optional_value_view(*value) }
            },
            ConversionError::RedisReturnedError { error } => ConversionFault::RedisReturnedError {
                error: error@,
            },
            ConversionError::CannotParseStringResponse { .. } => {
                ConversionFault::CannotParseStringResponse
            },
            ConversionError::InvalidUtf8String(_) => ConversionFault::InvalidUtf8String,
        }
    }
}

/// A reply as a value: the reply itself when it holds no error, nothing
/// when it is null, and otherwise the first error that it holds, in the
/// order of the stream.
pub open spec fn as_value(result: RedisResultView) -> Result<
    Option<RedisValueView>,
    ConversionFault,
>
    decreases result,
{
    match result {
        RedisResultView::String(bytes) => Ok(Some(RedisValueView::String(bytes))),
        RedisResultView::Integer(n) => Ok(Some(RedisValueView::Integer(n))),
        RedisResultView::Error(error) => Err(ConversionFault::RedisReturnedError { error }),
        RedisResultView::Array(items) => match as_values(items) {
            Ok(values) => Ok(Some(RedisValueView::Array(values))),
            Err(fault) => Err(fault),
        },
        RedisResultView::Null => Ok(None),
    }
}

/// A run of replies as values, up to the first that holds an error.
pub open spec fn as_values(items: Seq<RedisResultView>) -> Result<
    Seq<Option<RedisValueView>>,
    ConversionFault,
>
    decreases items,
{
    if items.len() == 0 {
        Ok(Seq::empty())
    } else {
        match as_values(items.drop_last()) {
            Ok(values) => match as_value(items.last()) {
                Ok(value) => Ok(values.push(value)),
                Err(fault) => Err(fault),
            },
            Err(fault) => Err(fault),
        }
    }
}

/// The fault of a reply whose shape the target does not take: the error that
/// the reply is or holds, and otherwise `NoConversionTypeMatch` with the
/// reply as a value.
pub open spec fn mismatch(result: RedisResultView) -> ConversionFault {
    match as_value(result) {
        Ok(value) => ConversionFault::NoConversionTypeMatch { value },
        Err(fault) => fault,
    }
}

/// True when `outcome` is `expected`, each taken by its view.
pub open spec fn is_value(
    outcome: Result<Option<RedisValue>, ConversionError>,
    expected: Result<Option<RedisValueView>, ConversionFault>,
) -> bool {
    match expected {
        Ok(value) => outcome matches Ok(found) && optional_value_view(found) == value,
        Err(fault) => outcome matches Err(error) && error@ == fault,
    }
}

/// Turns a reply into a value. It fails on the first error that the reply
/// is or holds.
pub fn to_value(result: RedisResult) -> (outcome: Result<Option<RedisValue>, ConversionError>)
    ensures
        is_value(outcome, as_value(result@)),
    decreases result,
{
    match result {
        RedisResult::String(bytes) => Ok(Some(RedisValue::String(bytes))),
        RedisResult::Integer(n) => Ok(Some(RedisValue::Integer(n))),
        RedisResult::Error(error) => Err(ConversionError::RedisReturnedError { error }),
        RedisResult::Null => Ok(None),
        RedisResult::Array(items) => {
            let ghost all = items@;
            proof {
                lemma_array_view(items);
            }
            let mut values: Vec<Option<RedisValue>> = Vec::new();
            proof {
                assert(results_view(all).subrange(0, 0) =~= Seq::<RedisResultView>::empty());
                assert(values_view(values@) =~= Seq::<Option<RedisValueView>>::empty());
            }
            for item in iter: items
                invariant
                    iter.seq() == all,
                    result == RedisResult::Array(items),
                    items@ == all,
                    result@ == RedisResultView::Array(results_view(all)),
                    as_values(results_view(all).subrange(0, iter.index() as int)) == Ok::<
                        Seq<Option<RedisValueView>>,
                        ConversionFault,
                    >(values_view(values@)),
            {
                let ghost done = iter.index() as int;
                let ghost before = values@;
                let ghost taken = results_view(all).subrange(0, done + 1);
                proof {
                    assert(item == all[done]);
                    assert(taken.drop_last() =~= results_view(all).subrange(0, done));
                    assert(taken.last() == item@);
                }
                match to_value(item) {
                    Ok(value) => {
                        values.push(value);
                        proof {
                            assert(values_view(values@) =~= values_view(before).push(
                                optional_value_view(value),
                            ));
                        }
                    },
                    Err(error) => {
                        proof {
                            assert(as_values(taken) is Err);
                            lemma_as_values_fails(results_view(all), done + 1);
                            assert(results_view(all).subrange(0, all.len() as int)
                                =~= results_view(all));
                        }
                        return Err(error);
                    },
                }
            }
            proof {
                assert(results_view(all).subrange(0, all.len() as int) =~= results_view(all));
                lemma_value_array_view(values);
            }
            Ok(Some(RedisValue::Array(values)))
        },
    }
}

/// A run of replies whose beginning holds an error fails with that error.
pub proof fn lemma_as_values_fails(items: Seq<RedisResultView>, upto: int)
    requires
        0 <= upto <= items.len(),
        as_values(items.subrange(0, upto)) is Err,
    ensures
        as_values(items) == as_values(items.subrange(0, upto)),
    decreases items.len() - upto,
{
    if upto < items.len() {
        let longer = items.subrange(0, upto + 1);
        assert(longer.drop_last() =~= items.subrange(0, upto));
        lemma_as_values_fails(items, upto + 1);
    } else {
        assert(items.subrange(0, upto) =~= items);
    }
}

} // verus!
