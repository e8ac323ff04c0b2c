//! The conversions from a reply to a native type. Each is defined for the
//! type itself, where a null reply is a mismatch, and for the optional type,
//! where a null reply is `None`. A reply that is an error converts to
//! nothing: it comes back as `RedisReturnedError`.
use crate::decimal::decimal_in_range;
use crate::text::{
    parse_i16, parse_i32, parse_i64, parse_i8, parse_isize, parse_u16, parse_u32, parse_u64,
    parse_u8, parse_usize, string_from_utf8,
};
use crate::types::redis_values::{
    as_value, is_value, mismatch, to_value, ConversionError, ConversionFault, RedisResult,
    RedisResultView, RedisValue, StringParseError,
};
use vstd::prelude::*;
use vstd::std_specs::convert::TryFromSpecImpl;
use vstd::string::StringSliceAdditionalSpecFns;
use vstd::utf8::{encode_utf8, valid_utf8};

verus! {

/// True when `outcome` is a failure that stands for `fault`.
pub open spec fn fails_with<T>(
    outcome: Result<T, ConversionError>,
    fault: ConversionFault,
) -> bool {
    outcome matches Err(error) && error@ == fault
}

/// The number that the text of a reply denotes, when it is well-formed
/// UTF-8 and denotes a number in `lo..=hi`; the fault otherwise.
pub open spec fn text_number(text: Seq<u8>, signed: bool, lo: int, hi: int) -> Result<
    int,
    ConversionFault,
> {
    if !valid_utf8(text) {
        Err(ConversionFault::InvalidUtf8String)
    } else {
        match decimal_in_range(text, signed, lo, hi) {
            Some(n) => Ok(n),
            None => Err(ConversionFault::CannotParseStringResponse),
        }
    }
}

/// True when `outcome` is what is left of `optional` for a target that takes
/// no null: the value, a mismatch in place of `None`, or the failure as it
/// is.
pub open spec fn demands<T>(
    outcome: Result<T, ConversionError>,
    optional: Result<Option<T>, ConversionError>,
) -> bool {
    match optional {
        Ok(Some(found)) => outcome == Ok::<T, ConversionError>(found),
        Ok(None) => fails_with(outcome, ConversionFault::NoConversionTypeMatch { value: None }),
        Err(error) => outcome == Err::<T, ConversionError>(error),
    }
}

/// True when `outcome` is what a reply converts to as a signed 64-bit
/// integer: an integer reply as it is, the number that a text reply denotes
/// in decimal, and a mismatch for any other reply.
pub open spec fn converts_to_i64(
    result: RedisResultView,
    outcome: Result<i64, ConversionError>,
) -> bool {
    match result {
        RedisResultView::Integer(n) => outcome == Ok::<i64, ConversionError>(n),
        RedisResultView::String(text) => match text_number(
            text,
            true,
            i64::MIN as int,
            i64::MAX as int,
        ) {
            Ok(n) => outcome matches Ok(found) && found == n,
            Err(fault) => fails_with(outcome, fault),
        },
        other => fails_with(outcome, mismatch(other)),
    }
}

/// True when `outcome` is what a reply converts to as text: the text of a
/// byte-string reply that is well-formed UTF-8, the failure
/// `InvalidUtf8String` for one that is not, and a mismatch for any other
/// reply.
pub open spec fn converts_to_text(
    result: RedisResultView,
    outcome: Result<String, ConversionError>,
) -> bool {
    match result {
        RedisResultView::String(bytes) => if valid_utf8(bytes) {
            outcome matches Ok(text) && encode_utf8(text@) == bytes
        } else {
            fails_with(outcome, ConversionFault::InvalidUtf8String)
        },
        other => fails_with(outcome, mismatch(other)),
    }
}

/// The error for a reply whose shape the target does not take.
pub fn no_match(result: RedisResult) -> (error: ConversionError)
    ensures
        error@ == mismatch(result@),
{
    match to_value(result) {
        Ok(value) => ConversionError::NoConversionTypeMatch { value },
        Err(error) => error,
    }
}

/// Reads the bytes of a reply as text.
pub fn reply_text(bytes: Vec<u8>) -> (outcome: Result<String, ConversionError>)
    ensures
        if valid_utf8(bytes@) {
            outcome matches Ok(text) && encode_utf8(text@) == bytes@
        } else {
            fails_with(outcome, ConversionFault::InvalidUtf8String)
        },
{
    match string_from_utf8(bytes) {
        Ok(text) => Ok(text),
        Err(error) => Err(ConversionError::InvalidUtf8String(error)),
    }
}

/// Unwraps an optional conversion for a target that takes no null.
pub fn demand<T>(optional: Result<Option<T>, ConversionError>) -> (outcome: Result<
    T,
    ConversionError,
>)
    ensures
        demands(outcome, optional),
{
    match optional {
        Ok(Some(found)) => Ok(found),
        Ok(None) => Err(ConversionError::NoConversionTypeMatch { value: None }),
        Err(error) => Err(error),
    }
}

/// True when `item` converts to `T` without a failure.
pub open spec fn converts_well<T>(item: RedisResult) -> bool where
    T: TryFrom<RedisResult, Error = ConversionError>,
 {
    exists|value: T|
        call_ensures(
            <T as TryFrom<RedisResult>>::try_from,
            (item,),
            Ok::<T, ConversionError>(value),
        )
}

/// True when `outcome` is what converting each of `items` to `T` gives: all
/// the converted items in order, or the failure of the first item that does
/// not convert.
pub open spec fn converts_each<T>(
    items: Seq<RedisResult>,
    outcome: Result<Vec<T>, ConversionError>,
) -> bool where T: TryFrom<RedisResult, Error = ConversionError> {
    match outcome {
        Ok(values) => {
            &&& values@.len() == items.len()
            &&& forall|i: int|
                0 <= i < items.len() ==> call_ensures(
                    <T as TryFrom<RedisResult>>::try_from,
                    (#[trigger] items[i],),
                    Ok::<T, ConversionError>(values@[i]),
                )
        },
        Err(error) => exists|at: int|
            {
                &&& 0 <= at < items.len()
                &&& call_ensures(
                    <T as TryFrom<RedisResult>>::try_from,
                    (#[trigger] items[at],),
                    Err::<T, ConversionError>(error),
                )
                &&& forall|i: int| 0 <= i < at ==> converts_well::<T>(#[trigger] items[i])
            },
    }
}

/// True when `outcome` is what a reply converts to as a vector of `T`: the
/// items of an array reply, each converted to `T`, and a mismatch for any
/// other reply.
pub open spec fn converts_to_vec<T>(
    result: RedisResult,
    outcome: Result<Vec<T>, ConversionError>,
) -> bool where T: TryFrom<RedisResult, Error = ConversionError> {
    match result {
        RedisResult::Array(items) => converts_each(items@, outcome),
        other => fails_with(outcome, mismatch(other@)),
    }
}

/// Converts an array reply item by item. It succeeds when every item
/// converts to `T`, and fails with the failure of the first that does not.
pub fn to_vec<T>(result: RedisResult) -> (outcome: Result<Vec<T>, ConversionError>) where
    T: TryFrom<RedisResult, Error = ConversionError>,

    ensures
        converts_to_vec::<T>(result, outcome),
{
    match result {
        RedisResult::Array(results) => {
            let ghost all = results@;
            let mut values: Vec<T> = Vec::new();
            for item in iter: results
                invariant
                    iter.seq() == all,
                    result == RedisResult::Array(results),
                    results@ == all,
                    values@.len() == iter.index(),
                    forall|i: int|
                        0 <= i < iter.index() ==> call_ensures(
                            <T as TryFrom<RedisResult>>::try_from,
                            (#[trigger] all[i],),
                            Ok::<T, ConversionError>(values@[i]),
                        ),
            {
                let ghost at = iter.index() as int;
                match <T as TryFrom<RedisResult>>::try_from(item) {
                    Ok(value) => {
                        values.push(value);
                    },
                    Err(error) => {
                        proof {
                            assert(all[at] == item);
                            assert forall|i: int| 0 <= i < at implies converts_well::<T>(
                                #[trigger] all[i],
                            ) by {
                                assert(call_ensures(
                                    <T as TryFrom<RedisResult>>::try_from,
                                    (all[i],),
                                    Ok::<T, ConversionError>(values@[i]),
                                ));
                            }
                            assert(call_ensures(
                                <T as TryFrom<RedisResult>>::try_from,
                                (all[at],),
                                Err::<T, ConversionError>(error),
                            ));
                            assert(converts_each::<T>(
                                all,
                                Err::<Vec<T>, ConversionError>(error),
                            ));
                        }
                        return Err(error);
                    },
                }
            }
            Ok(values)
        },
        other => Err(no_match(other)),
    }
}

impl TryFrom<RedisResult> for Option<RedisValue> {
    type Error = ConversionError;

    /// The reply as a value, and `None` for null.
    fn try_from(value: RedisResult) -> (outcome: Result<Self, ConversionError>)
        ensures
            is_value(outcome, as_value(value@)),
    {
        to_value(value)
    }
}

/// What the conversion returns is said by the contract of `try_from`, and not
/// by a function of the reply.
impl TryFromSpecImpl<RedisResult> for Option<RedisValue> {
    open spec fn obeys_try_from_spec() -> bool {
        false
    }

    open spec fn try_from_spec(v: RedisResult) -> Result<Self, ConversionError> {
        arbitrary()
    }
}

impl TryFrom<RedisResult> for RedisValue {
    type Error = ConversionError;

    /// The reply as a value. A null reply is a mismatch.
    fn try_from(value: RedisResult) -> (outcome: Result<Self, ConversionError>)
        ensures
            match as_value(value@) {
                Ok(Some(expected)) => outcome matches Ok(found) && found@ == expected,
                Ok(None) => fails_with(
                    outcome,
                    ConversionFault::NoConversionTypeMatch { value: None },
                ),
                Err(fault) => fails_with(outcome, fault),
            },
    {
        demand(to_value(value))
    }
}

/// What the conversion returns is said by the contract of `try_from`, and not
/// by a function of the reply.
impl TryFromSpecImpl<RedisResult> for RedisValue {
    open spec fn obeys_try_from_spec() -> bool {
        false
    }

    open spec fn try_from_spec(v: RedisResult) -> Result<Self, ConversionError> {
        arbitrary()
    }
}

impl TryFrom<RedisResult> for () {
    type Error = ConversionError;

    /// Any reply but an error.
    fn try_from(value: RedisResult) -> (outcome: Result<Self, ConversionError>)
        ensures
            match value@ {
                RedisResultView::Error(error) => fails_with(
                    outcome,
                    ConversionFault::RedisReturnedError { error },
                ),
                _ => outcome is Ok,
            },
    {
        match value {
            RedisResult::Error(error) => Err(ConversionError::RedisReturnedError { error }),
            _ => Ok(()),
        }
    }
}

/// What the conversion returns is said by the contract of `try_from`, and not
/// by a function of the reply.
impl TryFromSpecImpl<RedisResult> for () {
    open spec fn obeys_try_from_spec() -> bool {
        false
    }

    open spec fn try_from_spec(v: RedisResult) -> Result<Self, ConversionError> {
        arbitrary()
    }
}

impl TryFrom<RedisResult> for Option<()> {
    type Error = ConversionError;

    /// `None` for null, and `Some` for any other reply but an error.
    fn try_from(value: RedisResult) -> (outcome: Result<Self, ConversionError>)
        ensures
            match value@ {
                RedisResultView::Error(error) => fails_with(
                    outcome,
                    ConversionFault::RedisReturnedError { error },
                ),
                RedisResultView::Null => outcome matches Ok(None),
                _ => outcome matches Ok(Some(_)),
            },
    {
        match value {
            RedisResult::Error(error) => Err(ConversionError::RedisReturnedError { error }),
            RedisResult::Null => Ok(None),
            _ => Ok(Some(())),
        }
    }
}

/// What the conversion returns is said by the contract of `try_from`, and not
/// by a function of the reply.
impl TryFromSpecImpl<RedisResult> for Option<()> {
    open spec fn obeys_try_from_spec() -> bool {
        false
    }

    open spec fn try_from_spec(v: RedisResult) -> Result<Self, ConversionError> {
        arbitrary()
    }
}

impl TryFrom<RedisResult> for Option<String> {
    type Error = ConversionError;

    /// The text of a byte-string reply that is well-formed UTF-8, and `None`
    /// for null.
    fn try_from(value: RedisResult) -> (outcome: Result<Self, ConversionError>)
        ensures
            match value@ {
                RedisResultView::Null => outcome matches Ok(None),
                RedisResultView::String(bytes) => if valid_utf8(bytes) {
                    outcome matches Ok(Some(text)) && encode_utf8(text@) == bytes
                } else {
                    fails_with(outcome, ConversionFault::InvalidUtf8String)
                },
                other => fails_with(outcome, mismatch(other)),
            },
    {
        match value {
            RedisResult::Null => Ok(None),
            RedisResult::String(bytes) => match reply_text(bytes) {
                Ok(text) => Ok(Some(text)),
                Err(error) => Err(error),
            },
            other => Err(no_match(other)),
        }
    }
}

/// What the conversion returns is said by the contract of `try_from`, and not
/// by a function of the reply.
impl TryFromSpecImpl<RedisResult> for Option<String> {
    open spec fn obeys_try_from_spec() -> bool {
        false
    }

    open spec fn try_from_spec(v: RedisResult) -> Result<Self, ConversionError> {
        arbitrary()
    }
}

impl TryFrom<RedisResult> for String {
    type Error = ConversionError;

    /// The text of a byte-string reply that is well-formed UTF-8.
    fn try_from(value: RedisResult) -> (outcome: Result<Self, ConversionError>)
        ensures
            converts_to_text(value@, outcome),
    {
        match value {
            RedisResult::String(bytes) => reply_text(bytes),
            other => Err(no_match(other)),
        }
    }
}

/// What the conversion returns is said by the contract of `try_from`, and not
/// by a function of the reply.
impl TryFromSpecImpl<RedisResult> for String {
    open spec fn obeys_try_from_spec() -> bool {
        false
    }

    open spec fn try_from_spec(v: RedisResult) -> Result<Self, ConversionError> {
        arbitrary()
    }
}

impl TryFrom<RedisResult> for Option<Vec<u8>> {
    type Error = ConversionError;

    /// The bytes of a byte-string reply, as they are, and `None` for null.
    fn try_from(value: RedisResult) -> (outcome: Result<Self, ConversionError>)
        ensures
            match value@ {
                RedisResultView::Null => outcome matches Ok(None),
                RedisResultView::String(bytes) => outcome matches Ok(Some(found)) && found@
                    == bytes,
                other => fails_with(outcome, mismatch(other)),
            },
    {
        match value {
            RedisResult::Null => Ok(None),
            RedisResult::String(bytes) => Ok(Some(bytes)),
            other => Err(no_match(other)),
        }
    }
}

/// What the conversion returns is said by the contract of `try_from`, and not
/// by a function of the reply.
impl TryFromSpecImpl<RedisResult> for Option<Vec<u8>> {
    open spec fn obeys_try_from_spec() -> bool {
        false
    }

    open spec fn try_from_spec(v: RedisResult) -> Result<Self, ConversionError> {
        arbitrary()
    }
}

impl TryFrom<RedisResult> for Vec<u8> {
    type Error = ConversionError;

    /// The bytes of a byte-string reply, as they are.
    fn try_from(value: RedisResult) -> (outcome: Result<Self, ConversionError>)
        ensures
            match value@ {
                RedisResultView::String(bytes) => outcome matches Ok(found) && found@ == bytes,
                other => fails_with(outcome, mismatch(other)),
            },
    {
        match value {
            RedisResult::String(bytes) => Ok(bytes),
            other => Err(no_match(other)),
        }
    }
}

/// What the conversion returns is said by the contract of `try_from`, and not
/// by a function of the reply.
impl TryFromSpecImpl<RedisResult> for Vec<u8> {
    open spec fn obeys_try_from_spec() -> bool {
        false
    }

    open spec fn try_from_spec(v: RedisResult) -> Result<Self, ConversionError> {
        arbitrary()
    }
}

impl TryFrom<RedisResult> for Option<bool> {
    type Error = ConversionError;

    /// Whether an integer reply is positive, and `None` for null.
    fn try_from(value: RedisResult) -> (outcome: Result<Self, ConversionError>)
        ensures
            match value@ {
                RedisResultView::Null => outcome matches Ok(None),
                RedisResultView::Integer(n) => outcome matches Ok(Some(found)) && found == (n
                    > 0),
                other => fails_with(outcome, mismatch(other)),
            },
    {
        match value {
            RedisResult::Null => Ok(None),
            RedisResult::Integer(n) => Ok(Some(n > 0)),
            other => Err(no_match(other)),
        }
    }
}

/// What the conversion returns is said by the contract of `try_from`, and not
/// by a function of the reply.
impl TryFromSpecImpl<RedisResult> for Option<bool> {
    open spec fn obeys_try_from_spec() -> bool {
        false
    }

    open spec fn try_from_spec(v: RedisResult) -> Result<Self, ConversionError> {
        arbitrary()
    }
}

impl TryFrom<RedisResult> for bool {
    type Error = ConversionError;

    /// Whether an integer reply is positive.
    fn try_from(value: RedisResult) -> (outcome: Result<Self, ConversionError>)
        ensures
            match value@ {
                RedisResultView::Integer(n) => outcome matches Ok(found) && found == (n > 0),
                other => fails_with(outcome, mismatch(other)),
            },
    {
        match value {
            RedisResult::Integer(n) => Ok(n > 0),
            other => Err(no_match(other)),
        }
    }
}

/// What the conversion returns is said by the contract of `try_from`, and not
/// by a function of the reply.
impl TryFromSpecImpl<RedisResult> for bool {
    open spec fn obeys_try_from_spec() -> bool {
        false
    }

    open spec fn try_from_spec(v: RedisResult) -> Result<Self, ConversionError> {
        arbitrary()
    }
}

impl TryFrom<RedisResult> for Option<isize> {
    type Error = ConversionError;

    /// An integer reply narrowed to `isize` by two's-complement truncation,
    /// the number that a text reply denotes in decimal, and `None` for null.
    fn try_from(value: RedisResult) -> (outcome: Result<Self, ConversionError>)
        ensures
            match value@ {
                RedisResultView::Null => outcome matches Ok(None),
                RedisResultView::Integer(n) => outcome matches Ok(Some(found)) && found
                    == n as isize,
                RedisResultView::String(text) => match text_number(
                    text,
                    true,
                    isize::MIN as int,
                    isize::MAX as int,
                ) {
                    Ok(n) => outcome matches Ok(Some(found)) && found == n,
                    Err(fault) => fails_with(outcome, fault),
                },
                other => fails_with(outcome, mismatch(other)),
            },
    {
        match value {
            RedisResult::Null => Ok(None),
            RedisResult::Integer(n) => Ok(Some(#[verifier::truncate] (n as isize))),
            RedisResult::String(bytes) => match reply_text(bytes) {
                Ok(text) => match parse_isize(text.as_str()) {
                    Ok(n) => Ok(Some(n)),
                    Err(error) => Err(
                        ConversionError::CannotParseStringResponse {
                            error: StringParseError::Integer(error),
                        },
                    ),
                },
                Err(error) => Err(error),
            },
            other => Err(no_match(other)),
        }
    }
}

/// What the conversion returns is said by the contract of `try_from`, and not
/// by a function of the reply.
impl TryFromSpecImpl<RedisResult> for Option<isize> {
    open spec fn obeys_try_from_spec() -> bool {
        false
    }

    open spec fn try_from_spec(v: RedisResult) -> Result<Self, ConversionError> {
        arbitrary()
    }
}

impl TryFrom<RedisResult> for isize {
    type Error = ConversionError;

    /// An integer reply narrowed to `isize` by two's-complement truncation, or
    /// the number that a text reply denotes in decimal.
    fn try_from(value: RedisResult) -> (outcome: Result<Self, ConversionError>)
        ensures
            match value@ {
                RedisResultView::Integer(n) => outcome matches Ok(found) && found == n as isize,
                RedisResultView::String(text) => match text_number(
                    text,
                    true,
                    isize::MIN as int,
                    isize::MAX as int,
                ) {
                    Ok(n) => outcome matches Ok(found) && found == n,
                    Err(fault) => fails_with(outcome, fault),
                },
                other => fails_with(outcome, mismatch(other)),
            },
    {
        match value {
            RedisResult::Integer(n) => Ok(#[verifier::truncate] (n as isize)),
            RedisResult::String(bytes) => match reply_text(bytes) {
                Ok(text) => match parse_isize(text.as_str()) {
                    Ok(n) => Ok(n),
                    Err(error) => Err(
                        ConversionError::CannotParseStringResponse {
                            error: StringParseError::Integer(error),
                        },
                    ),
                },
                Err(error) => Err(error),
            },
            other => Err(no_match(other)),
        }
    }
}

/// What the conversion returns is said by the contract of `try_from`, and not
/// by a function of the reply.
impl TryFromSpecImpl<RedisResult> for isize {
    open spec fn obeys_try_from_spec() -> bool {
        false
    }

    open spec fn try_from_spec(v: RedisResult) -> Result<Self, ConversionError> {
        arbitrary()
    }
}

impl TryFrom<RedisResult> for Option<i64> {
    type Error = ConversionError;

    /// An integer reply as it is, the number that a text reply denotes in
    /// decimal, and `None` for null.
    fn try_from(value: RedisResult) -> (outcome: Result<Self, ConversionError>)
        ensures
            match value@ {
                RedisResultView::Null => outcome matches Ok(None),
                RedisResultView::Integer(n) => outcome matches Ok(Some(found)) && found == n as i64,
                RedisResultView::String(text) => match text_number(
                    text,
                    true,
                    i64::MIN as int,
                    i64::MAX as int,
                ) {
                    Ok(n) => outcome matches Ok(Some(found)) && found == n,
                    Err(fault) => fails_with(outcome, fault),
                },
                other => fails_with(outcome, mismatch(other)),
            },
    {
        match value {
            RedisResult::Null => Ok(None),
            RedisResult::Integer(n) => Ok(Some(#[verifier::truncate] (n as i64))),
            RedisResult::String(bytes) => match reply_text(bytes) {
                Ok(text) => match parse_i64(text.as_str()) {
                    Ok(n) => Ok(Some(n)),
                    Err(error) => Err(
                        ConversionError::CannotParseStringResponse {
                            error: StringParseError::Integer(error),
                        },
                    ),
                },
                Err(error) => Err(error),
            },
            other => Err(no_match(other)),
        }
    }
}

/// What the conversion returns is said by the contract of `try_from`, and not
/// by a function of the reply.
impl TryFromSpecImpl<RedisResult> for Option<i64> {
    open spec fn obeys_try_from_spec() -> bool {
        false
    }

    open spec fn try_from_spec(v: RedisResult) -> Result<Self, ConversionError> {
        arbitrary()
    }
}

impl TryFrom<RedisResult> for i64 {
    type Error = ConversionError;

    /// An integer reply as it is, or the number that a text reply denotes in
    /// decimal.
    fn try_from(value: RedisResult) -> (outcome: Result<Self, ConversionError>)
        ensures
            converts_to_i64(value@, outcome),
    {
        match value {
            RedisResult::Integer(n) => Ok(#[verifier::truncate] (n as i64)),
            RedisResult::String(bytes) => match reply_text(bytes) {
                Ok(text) => match parse_i64(text.as_str()) {
                    Ok(n) => Ok(n),
                    Err(error) => Err(
                        ConversionError::CannotParseStringResponse {
                            error: StringParseError::Integer(error),
                        },
                    ),
                },
                Err(error) => Err(error),
            },
            other => Err(no_match(other)),
        }
    }
}

/// What the conversion returns is said by the contract of `try_from`, and not
/// by a function of the reply.
impl TryFromSpecImpl<RedisResult> for i64 {
    open spec fn obeys_try_from_spec() -> bool {
        false
    }

    open spec fn try_from_spec(v: RedisResult) -> Result<Self, ConversionError> {
        arbitrary()
    }
}

impl TryFrom<RedisResult> for Option<i32> {
    type Error = ConversionError;

    /// An integer reply narrowed to `i32` by two's-complement truncation,
    /// the number that a text reply denotes in decimal, and `None` for null.
    fn try_from(value: RedisResult) -> (outcome: Result<Self, ConversionError>)
        ensures
            match value@ {
                RedisResultView::Null => outcome matches Ok(None),
                RedisResultView::Integer(n) => outcome matches Ok(Some(found)) && found == n as i32,
                RedisResultView::String(text) => match text_number(
                    text,
                    true,
                    i32::MIN as int,
                    i32::MAX as int,
                ) {
                    Ok(n) => outcome matches Ok(Some(found)) && found == n,
                    Err(fault) => fails_with(outcome, fault),
                },
                other => fails_with(outcome, mismatch(other)),
            },
    {
        match value {
            RedisResult::Null => Ok(None),
            RedisResult::Integer(n) => Ok(Some(#[verifier::truncate] (n as i32))),
            RedisResult::String(bytes) => match reply_text(bytes) {
                Ok(text) => match parse_i32(text.as_str()) {
                    Ok(n) => Ok(Some(n)),
                    Err(error) => Err(
                        ConversionError::CannotParseStringResponse {
                            error: StringParseError::Integer(error),
                        },
                    ),
                },
                Err(error) => Err(error),
            },
            other => Err(no_match(other)),
        }
    }
}

/// What the conversion returns is said by the contract of `try_from`, and not
/// by a function of the reply.
impl TryFromSpecImpl<RedisResult> for Option<i32> {
    open spec fn obeys_try_from_spec() -> bool {
        false
    }

    open spec fn try_from_spec(v: RedisResult) -> Result<Self, ConversionError> {
        arbitrary()
    }
}

impl TryFrom<RedisResult> for i32 {
    type Error = ConversionError;

    /// An integer reply narrowed to `i32` by two's-complement truncation, or
    /// the number that a text reply denotes in decimal.
    fn try_from(value: RedisResult) -> (outcome: Result<Self, ConversionError>)
        ensures
            match value@ {
                RedisResultView::Integer(n) => outcome matches Ok(found) && found == n as i32,
                RedisResultView::String(text) => match text_number(
                    text,
                    true,
                    i32::MIN as int,
                    i32::MAX as int,
                ) {
                    Ok(n) => outcome matches Ok(found) && found == n,
                    Err(fault) => fails_with(outcome, fault),
                },
                other => fails_with(outcome, mismatch(other)),
            },
    {
        match value {
            RedisResult::Integer(n) => Ok(#[verifier::truncate] (n as i32)),
            RedisResult::String(bytes) => match reply_text(bytes) {
                Ok(text) => match parse_i32(text.as_str()) {
                    Ok(n) => Ok(n),
                    Err(error) => Err(
                        ConversionError::CannotParseStringResponse {
                            error: StringParseError::Integer(error),
                        },
                    ),
                },
                Err(error) => Err(error),
            },
            other => Err(no_match(other)),
        }
    }
}

/// What the conversion returns is said by the contract of `try_from`, and not
/// by a function of the reply.
impl TryFromSpecImpl<RedisResult> for i32 {
    open spec fn obeys_try_from_spec() -> bool {
        false
    }

    open spec fn try_from_spec(v: RedisResult) -> Result<Self, ConversionError> {
        arbitrary()
    }
}

impl TryFrom<RedisResult> for Option<i16> {
    type Error = ConversionError;

    /// An integer reply narrowed to `i16` by two's-complement truncation,
    /// the number that a text reply denotes in decimal, and `None` for null.
    fn try_from(value: RedisResult) -> (outcome: Result<Self, ConversionError>)
        ensures
            match value@ {
                RedisResultView::Null => outcome matches Ok(None),
                RedisResultView::Integer(n) => outcome matches Ok(Some(found)) && found == n as i16,
                RedisResultView::String(text) => match text_number(
                    text,
                    true,
                    i16::MIN as int,
                    i16::MAX as int,
                ) {
                    Ok(n) => outcome matches Ok(Some(found)) && found == n,
                    Err(fault) => fails_with(outcome, fault),
                },
                other => fails_with(outcome, mismatch(other)),
            },
    {
        match value {
            RedisResult::Null => Ok(None),
            RedisResult::Integer(n) => Ok(Some(#[verifier::truncate] (n as i16))),
            RedisResult::String(bytes) => match reply_text(bytes) {
                Ok(text) => match parse_i16(text.as_str()) {
                    Ok(n) => Ok(Some(n)),
                    Err(error) => Err(
                        ConversionError::CannotParseStringResponse {
                            error: StringParseError::Integer(error),
                        },
                    ),
                },
                Err(error) => Err(error),
            },
            other => Err(no_match(other)),
        }
    }
}

/// What the conversion returns is said by the contract of `try_from`, and not
/// by a function of the reply.
impl TryFromSpecImpl<RedisResult> for Option<i16> {
    open spec fn obeys_try_from_spec() -> bool {
        false
    }

    open spec fn try_from_spec(v: RedisResult) -> Result<Self, ConversionError> {
        arbitrary()
    }
}

impl TryFrom<RedisResult> for i16 {
    type Error = ConversionError;

    /// An integer reply narrowed to `i16` by two's-complement truncation, or
    /// the number that a text reply denotes in decimal.
    fn try_from(value: RedisResult) -> (outcome: Result<Self, ConversionError>)
        ensures
            match value@ {
                RedisResultView::Integer(n) => outcome matches Ok(found) && found == n as i16,
                RedisResultView::String(text) => match text_number(
                    text,
                    true,
                    i16::MIN as int,
                    i16::MAX as int,
                ) {
                    Ok(n) => outcome matches Ok(found) && found == n,
                    Err(fault) => fails_with(outcome, fault),
                },
                other => fails_with(outcome, mismatch(other)),
            },
    {
        match value {
            RedisResult::Integer(n) => Ok(#[verifier::truncate] (n as i16)),
            RedisResult::String(bytes) => match reply_text(bytes) {
                Ok(text) => match parse_i16(text.as_str()) {
                    Ok(n) => Ok(n),
                    Err(error) => Err(
                        ConversionError::CannotParseStringResponse {
                            error: StringParseError::Integer(error),
                        },
                    ),
                },
                Err(error) => Err(error),
            },
            other => Err(no_match(other)),
        }
    }
}

/// What the conversion returns is said by the contract of `try_from`, and not
/// by a function of the reply.
impl TryFromSpecImpl<RedisResult> for i16 {
    open spec fn obeys_try_from_spec() -> bool {
        false
    }

    open spec fn try_from_spec(v: RedisResult) -> Result<Self, ConversionError> {
        arbitrary()
    }
}

impl TryFrom<RedisResult> for Option<i8> {
    type Error = ConversionError;

    /// An integer reply narrowed to `i8` by two's-complement truncation,
    /// the number that a text reply denotes in decimal, and `None` for null.
    fn try_from(value: RedisResult) -> (outcome: Result<Self, ConversionError>)
        ensures
            match value@ {
                RedisResultView::Null => outcome matches Ok(None),
                RedisResultView::Integer(n) => outcome matches Ok(Some(found)) && found == n as i8,
                RedisResultView::String(text) => match text_number(
                    text,
                    true,
                    i8::MIN as int,
                    i8::MAX as int,
                ) {
                    Ok(n) => outcome matches Ok(Some(found)) && found == n,
                    Err(fault) => fails_with(outcome, fault),
                },
                other => fails_with(outcome, mismatch(other)),
            },
    {
        match value {
            RedisResult::Null => Ok(None),
            RedisResult::Integer(n) => Ok(Some(#[verifier::truncate] (n as i8))),
            RedisResult::String(bytes) => match reply_text(bytes) {
                Ok(text) => match parse_i8(text.as_str()) {
                    Ok(n) => Ok(Some(n)),
                    Err(error) => Err(
                        ConversionError::CannotParseStringResponse {
                            error: StringParseError::Integer(error),
                        },
                    ),
                },
                Err(error) => Err(error),
            },
            other => Err(no_match(other)),
        }
    }
}

/// What the conversion returns is said by the contract of `try_from`, and not
/// by a function of the reply.
impl TryFromSpecImpl<RedisResult> for Option<i8> {
    open spec fn obeys_try_from_spec() -> bool {
        false
    }

    open spec fn try_from_spec(v: RedisResult) -> Result<Self, ConversionError> {
        arbitrary()
    }
}

impl TryFrom<RedisResult> for i8 {
    type Error = ConversionError;

    /// An integer reply narrowed to `i8` by two's-complement truncation, or
    /// the number that a text reply denotes in decimal.
    fn try_from(value: RedisResult) -> (outcome: Result<Self, ConversionError>)
        ensures
            match value@ {
                RedisResultView::Integer(n) => outcome matches Ok(found) && found == n as i8,
                RedisResultView::String(text) => match text_number(
                    text,
                    true,
                    i8::MIN as int,
                    i8::MAX as int,
                ) {
                    Ok(n) => outcome matches Ok(found) && found == n,
                    Err(fault) => fails_with(outcome, fault),
                },
                other => fails_with(outcome, mismatch(other)),
            },
    {
        match value {
            RedisResult::Integer(n) => Ok(#[verifier::truncate] (n as i8)),
            RedisResult::String(bytes) => match reply_text(bytes) {
                Ok(text) => match parse_i8(text.as_str()) {
                    Ok(n) => Ok(n),
                    Err(error) => Err(
                        ConversionError::CannotParseStringResponse {
                            error: StringParseError::Integer(error),
                        },
                    ),
                },
                Err(error) => Err(error),
            },
            other => Err(no_match(other)),
        }
    }
}

/// What the conversion returns is said by the contract of `try_from`, and not
/// by a function of the reply.
impl TryFromSpecImpl<RedisResult> for i8 {
    open spec fn obeys_try_from_spec() -> bool {
        false
    }

    open spec fn try_from_spec(v: RedisResult) -> Result<Self, ConversionError> {
        arbitrary()
    }
}

impl TryFrom<RedisResult> for Option<usize> {
    type Error = ConversionError;

    /// An integer reply narrowed to `usize` by two's-complement truncation,
    /// the number that a text reply denotes in decimal, and `None` for null.
    fn try_from(value: RedisResult) -> (outcome: Result<Self, ConversionError>)
        ensures
            match value@ {
                RedisResultView::Null => outcome matches Ok(None),
                RedisResultView::Integer(n) => outcome matches Ok(Some(found)) && found
                    == n as usize,
                RedisResultView::String(text) => match text_number(
                    text,
                    false,
                    usize::MIN as int,
                    usize::MAX as int,
                ) {
                    Ok(n) => outcome matches Ok(Some(found)) && found == n,
                    Err(fault) => fails_with(outcome, fault),
                },
                other => fails_with(outcome, mismatch(other)),
            },
    {
        match value {
            RedisResult::Null => Ok(None),
            RedisResult::Integer(n) => Ok(Some(#[verifier::truncate] (n as usize))),
            RedisResult::String(bytes) => match reply_text(bytes) {
                Ok(text) => match parse_usize(text.as_str()) {
                    Ok(n) => Ok(Some(n)),
                    Err(error) => Err(
                        ConversionError::CannotParseStringResponse {
                            error: StringParseError::Integer(error),
                        },
                    ),
                },
                Err(error) => Err(error),
            },
            other => Err(no_match(other)),
        }
    }
}

/// What the conversion returns is said by the contract of `try_from`, and not
/// by a function of the reply.
impl TryFromSpecImpl<RedisResult> for Option<usize> {
    open spec fn obeys_try_from_spec() -> bool {
        false
    }

    open spec fn try_from_spec(v: RedisResult) -> Result<Self, ConversionError> {
        arbitrary()
    }
}

impl TryFrom<RedisResult> for usize {
    type Error = ConversionError;

    /// An integer reply narrowed to `usize` by two's-complement truncation, or
    /// the number that a text reply denotes in decimal.
    fn try_from(value: RedisResult) -> (outcome: Result<Self, ConversionError>)
        ensures
            match value@ {
                RedisResultView::Integer(n) => outcome matches Ok(found) && found == n as usize,
                RedisResultView::String(text) => match text_number(
                    text,
                    false,
                    usize::MIN as int,
                    usize::MAX as int,
                ) {
                    Ok(n) => outcome matches Ok(found) && found == n,
                    Err(fault) => fails_with(outcome, fault),
                },
                other => fails_with(outcome, mismatch(other)),
            },
    {
        match value {
            RedisResult::Integer(n) => Ok(#[verifier::truncate] (n as usize)),
            RedisResult::String(bytes) => match reply_text(bytes) {
                Ok(text) => match parse_usize(text.as_str()) {
                    Ok(n) => Ok(n),
                    Err(error) => Err(
                        ConversionError::CannotParseStringResponse {
                            error: StringParseError::Integer(error),
                        },
                    ),
                },
                Err(error) => Err(error),
            },
            other => Err(no_match(other)),
        }
    }
}

/// What the conversion returns is said by the contract of `try_from`, and not
/// by a function of the reply.
impl TryFromSpecImpl<RedisResult> for usize {
    open spec fn obeys_try_from_spec() -> bool {
        false
    }

    open spec fn try_from_spec(v: RedisResult) -> Result<Self, ConversionError> {
        arbitrary()
    }
}

impl TryFrom<RedisResult> for Option<u64> {
    type Error = ConversionError;

    /// An integer reply narrowed to `u64` by two's-complement truncation,
    /// the number that a text reply denotes in decimal, and `None` for null.
    fn try_from(value: RedisResult) -> (outcome: Result<Self, ConversionError>)
        ensures
            match value@ {
                RedisResultView::Null => outcome matches Ok(None),
                RedisResultView::Integer(n) => outcome matches Ok(Some(found)) && found == n as u64,
                RedisResultView::String(text) => match text_number(
                    text,
                    false,
                    u64::MIN as int,
                    u64::MAX as int,
                ) {
                    Ok(n) => outcome matches Ok(Some(found)) && found == n,
                    Err(fault) => fails_with(outcome, fault),
                },
                other => fails_with(outcome, mismatch(other)),
            },
    {
        match value {
            RedisResult::Null => Ok(None),
            RedisResult::Integer(n) => Ok(Some(#[verifier::truncate] (n as u64))),
            RedisResult::String(bytes) => match reply_text(bytes) {
                Ok(text) => match parse_u64(text.as_str()) {
                    Ok(n) => Ok(Some(n)),
                    Err(error) => Err(
                        ConversionError::CannotParseStringResponse {
                            error: StringParseError::Integer(error),
                        },
                    ),
                },
                Err(error) => Err(error),
            },
            other => Err(no_match(other)),
        }
    }
}

/// What the conversion returns is said by the contract of `try_from`, and not
/// by a function of the reply.
impl TryFromSpecImpl<RedisResult> for Option<u64> {
    open spec fn obeys_try_from_spec() -> bool {
        false
    }

    open spec fn try_from_spec(v: RedisResult) -> Result<Self, ConversionError> {
        arbitrary()
    }
}

impl TryFrom<RedisResult> for u64 {
    type Error = ConversionError;

    /// An integer reply narrowed to `u64` by two's-complement truncation, or
    /// the number that a text reply denotes in decimal.
    fn try_from(value: RedisResult) -> (outcome: Result<Self, ConversionError>)
        ensures
            match value@ {
                RedisResultView::Integer(n) => outcome matches Ok(found) && found == n as u64,
                RedisResultView::String(text) => match text_number(
                    text,
                    false,
                    u64::MIN as int,
                    u64::MAX as int,
                ) {
                    Ok(n) => outcome matches Ok(found) && found == n,
                    Err(fault) => fails_with(outcome, fault),
                },
                other => fails_with(outcome, mismatch(other)),
            },
    {
        match value {
            RedisResult::Integer(n) => Ok(#[verifier::truncate] (n as u64)),
            RedisResult::String(bytes) => match reply_text(bytes) {
                Ok(text) => match parse_u64(text.as_str()) {
                    Ok(n) => Ok(n),
                    Err(error) => Err(
                        ConversionError::CannotParseStringResponse {
                            error: StringParseError::Integer(error),
                        },
                    ),
                },
                Err(error) => Err(error),
            },
            other => Err(no_match(other)),
        }
    }
}

/// What the conversion returns is said by the contract of `try_from`, and not
/// by a function of the reply.
impl TryFromSpecImpl<RedisResult> for u64 {
    open spec fn obeys_try_from_spec() -> bool {
        false
    }

    open spec fn try_from_spec(v: RedisResult) -> Result<Self, ConversionError> {
        arbitrary()
    }
}

impl TryFrom<RedisResult> for Option<u32> {
    type Error = ConversionError;

    /// An integer reply narrowed to `u32` by two's-complement truncation,
    /// the number that a text reply denotes in decimal, and `None` for null.
    fn try_from(value: RedisResult) -> (outcome: Result<Self, ConversionError>)
        ensures
            match value@ {
                RedisResultView::Null => outcome matches Ok(None),
                RedisResultView::Integer(n) => outcome matches Ok(Some(found)) && found == n as u32,
                RedisResultView::String(text) => match text_number(
                    text,
                    false,
                    u32::MIN as int,
                    u32::MAX as int,
                ) {
                    Ok(n) => outcome matches Ok(Some(found)) && found == n,
                    Err(fault) => fails_with(outcome, fault),
                },
                other => fails_with(outcome, mismatch(other)),
            },
    {
        match value {
            RedisResult::Null => Ok(None),
            RedisResult::Integer(n) => Ok(Some(#[verifier::truncate] (n as u32))),
            RedisResult::String(bytes) => match reply_text(bytes) {
                Ok(text) => match parse_u32(text.as_str()) {
                    Ok(n) => Ok(Some(n)),
                    Err(error) => Err(
                        ConversionError::CannotParseStringResponse {
                            error: StringParseError::Integer(error),
                        },
                    ),
                },
                Err(error) => Err(error),
            },
            other => Err(no_match(other)),
        }
    }
}

/// What the conversion returns is said by the contract of `try_from`, and not
/// by a function of the reply.
impl TryFromSpecImpl<RedisResult> for Option<u32> {
    open spec fn obeys_try_from_spec() -> bool {
        false
    }

    open spec fn try_from_spec(v: RedisResult) -> Result<Self, ConversionError> {
        arbitrary()
    }
}

impl TryFrom<RedisResult> for u32 {
    type Error = ConversionError;

    /// An integer reply narrowed to `u32` by two's-complement truncation, or
    /// the number that a text reply denotes in decimal.
    fn try_from(value: RedisResult) -> (outcome: Result<Self, ConversionError>)
        ensures
            match value@ {
                RedisResultView::Integer(n) => outcome matches Ok(found) && found == n as u32,
                RedisResultView::String(text) => match text_number(
                    text,
                    false,
                    u32::MIN as int,
                    u32::MAX as int,
                ) {
                    Ok(n) => outcome matches Ok(found) && found == n,
                    Err(fault) => fails_with(outcome, fault),
                },
                other => fails_with(outcome, mismatch(other)),
            },
    {
        match value {
            RedisResult::Integer(n) => Ok(#[verifier::truncate] (n as u32)),
            RedisResult::String(bytes) => match reply_text(bytes) {
                Ok(text) => match parse_u32(text.as_str()) {
                    Ok(n) => Ok(n),
                    Err(error) => Err(
                        ConversionError::CannotParseStringResponse {
                            error: StringParseError::Integer(error),
                        },
                    ),
                },
                Err(error) => Err(error),
            },
            other => Err(no_match(other)),
        }
    }
}

/// What the conversion returns is said by the contract of `try_from`, and not
/// by a function of the reply.
impl TryFromSpecImpl<RedisResult> for u32 {
    open spec fn obeys_try_from_spec() -> bool {
        false
    }

    open spec fn try_from_spec(v: RedisResult) -> Result<Self, ConversionError> {
        arbitrary()
    }
}

impl TryFrom<RedisResult> for Option<u16> {
    type Error = ConversionError;

    /// An integer reply narrowed to `u16` by two's-complement truncation,
    /// the number that a text reply denotes in decimal, and `None` for null.
    fn try_from(value: RedisResult) -> (outcome: Result<Self, ConversionError>)
        ensures
            match value@ {
                RedisResultView::Null => outcome matches Ok(None),
                RedisResultView::Integer(n) => outcome matches Ok(Some(found)) && found == n as u16,
                RedisResultView::String(text) => match text_number(
                    text,
                    false,
                    u16::MIN as int,
                    u16::MAX as int,
                ) {
                    Ok(n) => outcome matches Ok(Some(found)) && found == n,
                    Err(fault) => fails_with(outcome, fault),
                },
                other => fails_with(outcome, mismatch(other)),
            },
    {
        match value {
            RedisResult::Null => Ok(None),
            RedisResult::Integer(n) => Ok(Some(#[verifier::truncate] (n as u16))),
            RedisResult::String(bytes) => match reply_text(bytes) {
                Ok(text) => match parse_u16(text.as_str()) {
                    Ok(n) => Ok(Some(n)),
                    Err(error) => Err(
                        ConversionError::CannotParseStringResponse {
                            error: StringParseError::Integer(error),
                        },
                    ),
                },
                Err(error) => Err(error),
            },
            other => Err(no_match(other)),
        }
    }
}

/// What the conversion returns is said by the contract of `try_from`, and not
/// by a function of the reply.
impl TryFromSpecImpl<RedisResult> for Option<u16> {
    open spec fn obeys_try_from_spec() -> bool {
        false
    }

    open spec fn try_from_spec(v: RedisResult) -> Result<Self, ConversionError> {
        arbitrary()
    }
}

impl TryFrom<RedisResult> for u16 {
    type Error = ConversionError;

    /// An integer reply narrowed to `u16` by two's-complement truncation, or
    /// the number that a text reply denotes in decimal.
    fn try_from(value: RedisResult) -> (outcome: Result<Self, ConversionError>)
        ensures
            match value@ {
                RedisResultView::Integer(n) => outcome matches Ok(found) && found == n as u16,
                RedisResultView::String(text) => match text_number(
                    text,
                    false,
                    u16::MIN as int,
                    u16::MAX as int,
                ) {
                    Ok(n) => outcome matches Ok(found) && found == n,
                    Err(fault) => fails_with(outcome, fault),
                },
                other => fails_with(outcome, mismatch(other)),
            },
    {
        match value {
            RedisResult::Integer(n) => Ok(#[verifier::truncate] (n as u16)),
            RedisResult::String(bytes) => match reply_text(bytes) {
                Ok(text) => match parse_u16(text.as_str()) {
                    Ok(n) => Ok(n),
                    Err(error) => Err(
                        ConversionError::CannotParseStringResponse {
                            error: StringParseError::Integer(error),
                        },
                    ),
                },
                Err(error) => Err(error),
            },
            other => Err(no_match(other)),
        }
    }
}

/// What the conversion returns is said by the contract of `try_from`, and not
/// by a function of the reply.
impl TryFromSpecImpl<RedisResult> for u16 {
    open spec fn obeys_try_from_spec() -> bool {
        false
    }

    open spec fn try_from_spec(v: RedisResult) -> Result<Self, ConversionError> {
        arbitrary()
    }
}

impl TryFrom<RedisResult> for Option<u8> {
    type Error = ConversionError;

    /// An integer reply narrowed to `u8` by two's-complement truncation,
    /// the number that a text reply denotes in decimal, and `None` for null.
    fn try_from(value: RedisResult) -> (outcome: Result<Self, ConversionError>)
        ensures
            match value@ {
                RedisResultView::Null => outcome matches Ok(None),
                RedisResultView::Integer(n) => outcome matches Ok(Some(found)) && found == n as u8,
                RedisResultView::String(text) => match text_number(
                    text,
                    false,
                    u8::MIN as int,
                    u8::MAX as int,
                ) {
                    Ok(n) => outcome matches Ok(Some(found)) && found == n,
                    Err(fault) => fails_with(outcome, fault),
                },
                other => fails_with(outcome, mismatch(other)),
            },
    {
        match value {
            RedisResult::Null => Ok(None),
            RedisResult::Integer(n) => Ok(Some(#[verifier::truncate] (n as u8))),
            RedisResult::String(bytes) => match reply_text(bytes) {
                Ok(text) => match parse_u8(text.as_str()) {
                    Ok(n) => Ok(Some(n)),
                    Err(error) => Err(
                        ConversionError::CannotParseStringResponse {
                            error: StringParseError::Integer(error),
                        },
                    ),
                },
                Err(error) => Err(error),
            },
            other => Err(no_match(other)),
        }
    }
}

/// What the conversion returns is said by the contract of `try_from`, and not
/// by a function of the reply.
impl TryFromSpecImpl<RedisResult> for Option<u8> {
    open spec fn obeys_try_from_spec() -> bool {
        false
    }

    open spec fn try_from_spec(v: RedisResult) -> Result<Self, ConversionError> {
        arbitrary()
    }
}

impl TryFrom<RedisResult> for u8 {
    type Error = ConversionError;

    /// An integer reply narrowed to `u8` by two's-complement truncation, or
    /// the number that a text reply denotes in decimal.
    fn try_from(value: RedisResult) -> (outcome: Result<Self, ConversionError>)
        ensures
            match value@ {
                RedisResultView::Integer(n) => outcome matches Ok(found) && found == n as u8,
                RedisResultView::String(text) => match text_number(
                    text,
                    false,
                    u8::MIN as int,
                    u8::MAX as int,
                ) {
                    Ok(n) => outcome matches Ok(found) && found == n,
                    Err(fault) => fails_with(outcome, fault),
                },
                other => fails_with(outcome, mismatch(other)),
            },
    {
        match value {
            RedisResult::Integer(n) => Ok(#[verifier::truncate] (n as u8)),
            RedisResult::String(bytes) => match reply_text(bytes) {
                Ok(text) => match parse_u8(text.as_str()) {
                    Ok(n) => Ok(n),
                    Err(error) => Err(
                        ConversionError::CannotParseStringResponse {
                            error: StringParseError::Integer(error),
                        },
                    ),
                },
                Err(error) => Err(error),
            },
            other => Err(no_match(other)),
        }
    }
}

/// What the conversion returns is said by the contract of `try_from`, and not
/// by a function of the reply.
impl TryFromSpecImpl<RedisResult> for u8 {
    open spec fn obeys_try_from_spec() -> bool {
        false
    }

    open spec fn try_from_spec(v: RedisResult) -> Result<Self, ConversionError> {
        arbitrary()
    }
}

} // verus!
