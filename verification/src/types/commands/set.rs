//! The commands that store values: `SET` with its expiry and its guards,
//! `MSET`, `MSETNX` and `GETSET`.
use crate::decimal::{decimal_bytes, nat_text};
use crate::types::command::StructuredCommand;
use crate::types::commands::expiry::{as_millis, duration_is_zero, duration_millis, is_zero};
use crate::types::conversions::{fails_with, no_match};
use crate::types::redis_bytes::RBytes;
use crate::types::redis_values::{
    mismatch, ConversionError, ConversionFault, RedisResult, RedisResultView,
};
use crate::types::resp_bytes::{bulk_array, resp_bytes, slices_view};
use crate::utils::{is_valid_key, key_fits};
use std::marker::PhantomData;
use std::time::Duration;
use vstd::prelude::*;
use vstd::string::StringSliceAdditionalSpecFns;

verus! {

/// The arguments that ask for an expiry: `PX` and the milliseconds in
/// decimal, or nothing.
pub open spec fn expiry_elements(expiry: Option<Duration>) -> Seq<Seq<u8>> {
    match expiry {
        Some(duration) => seq!["PX".spec_bytes(), nat_text(duration_millis(duration))],
        None => Seq::empty(),
    }
}

/// `SET key value`, with an expiry if one was asked for. The reply is
/// dropped unless it is an error.
pub struct SetCommand<'a> {
    key: RBytes<'a>,
    value: RBytes<'a>,
    expiry: Option<Duration>,
}

impl<'a> SetCommand<'a> {
    /// The key to set.
    pub closed spec fn key(&self) -> RBytes<'a> {
        self.key
    }

    /// The value to store.
    pub closed spec fn value(&self) -> RBytes<'a> {
        self.value
    }

    /// The time after which the key expires, if any.
    pub closed spec fn expiry(&self) -> Option<Duration> {
        self.expiry
    }

    pub(crate) fn new(key: RBytes<'a>, value: RBytes<'a>) -> (r: Self)
        ensures
            r.key() == key,
            r.value() == value,
            r.expiry() is None,
    {
        Self { key, value, expiry: None }
    }

    /// The command with the expiry `duration`. A duration of zero is a
    /// programming error.
    pub fn with_expiry(self, duration: Duration) -> (r: Self)
        requires
            !duration_is_zero(duration),
        ensures
            r.key() == self.key(),
            r.value() == self.value(),
            r.expiry() == Some(duration),
    {
        Self { key: self.key, value: self.value, expiry: Some(duration) }
    }

    /// The command with the expiry `duration`, or the command as it was
    /// when `duration` is zero.
    pub fn try_with_expiry(self, duration: Duration) -> (r: Result<Self, Self>)
        ensures
            match r {
                Ok(command) => {
                    &&& !duration_is_zero(duration)
                    &&& command.key() == self.key()
                    &&& command.value() == self.value()
                    &&& command.expiry() == Some(duration)
                },
                Err(command) => duration_is_zero(duration) && command == self,
            },
    {
        if is_zero(&duration) {
            Err(self)
        } else {
            Ok(self.with_expiry(duration))
        }
    }

    /// The command that sets the key only if it exists already.
    pub fn if_exists(self) -> (r: SetIfExists<'a>)
        ensures
            r.key() == self.key(),
            r.value() == self.value(),
            r.expiry() == self.expiry(),
            r.only_if_exists(),
    {
        SetIfExists { key: self.key, expiry: self.expiry, value: self.value, exists: true }
    }

    /// The command that sets the key only if it does not exist yet.
    pub fn if_not_exists(self) -> (r: SetIfExists<'a>)
        ensures
            r.key() == self.key(),
            r.value() == self.value(),
            r.expiry() == self.expiry(),
            !r.only_if_exists(),
    {
        SetIfExists { key: self.key, expiry: self.expiry, value: self.value, exists: false }
    }
}

/// `SET key value` with the guard `XX` or `NX`, and with an expiry if one
/// was asked for. The reply tells whether the server set the key.
pub struct SetIfExists<'a> {
    key: RBytes<'a>,
    value: RBytes<'a>,
    expiry: Option<Duration>,
    exists: bool,
}

impl<'a> SetIfExists<'a> {
    /// The key to set.
    pub closed spec fn key(&self) -> RBytes<'a> {
        self.key
    }

    /// The value to store.
    pub closed spec fn value(&self) -> RBytes<'a> {
        self.value
    }

    /// The time after which the key expires, if any.
    pub closed spec fn expiry(&self) -> Option<Duration> {
        self.expiry
    }

    /// True when the key is set only if it exists, false when it is set
    /// only if it does not.
    pub closed spec fn only_if_exists(&self) -> bool {
        self.exists
    }

    /// The command with the expiry `duration`. A duration of zero is a
    /// programming error.
    pub fn with_expiry(self, duration: Duration) -> (r: Self)
        requires
            !duration_is_zero(duration),
        ensures
            r.key() == self.key(),
            r.value() == self.value(),
            r.only_if_exists() == self.only_if_exists(),
            r.expiry() == Some(duration),
    {
        Self { key: self.key, value: self.value, expiry: Some(duration), exists: self.exists }
    }

    /// The command with the expiry `duration`, or the command as it was
    /// when `duration` is zero.
    pub fn try_with_expiry(self, duration: Duration) -> (r: Result<Self, Self>)
        ensures
            match r {
                Ok(command) => {
                    &&& !duration_is_zero(duration)
                    &&& command.key() == self.key()
                    &&& command.value() == self.value()
                    &&& command.only_if_exists() == self.only_if_exists()
                    &&& command.expiry() == Some(duration)
                },
                Err(command) => duration_is_zero(duration) && command == self,
            },
    {
        if is_zero(&duration) {
            Err(self)
        } else {
            Ok(self.with_expiry(duration))
        }
    }
}

impl<'a> StructuredCommand for SetCommand<'a> {
    type Output = ();

    open spec fn elements(&self) -> Seq<Seq<u8>> {
        seq!["SET".spec_bytes(), self.key()@, self.value()@] + expiry_elements(self.expiry())
    }

    open spec fn encodable(&self) -> bool {
        key_fits(self.key()@)
    }

    open spec fn converts(
        &self,
        result: RedisResult,
        outcome: Result<(), ConversionError>,
    ) -> bool {
        match result@ {
            RedisResultView::Error(error) => fails_with(
                outcome,
                ConversionFault::RedisReturnedError { error },
            ),
            _ => outcome is Ok,
        }
    }

    fn is_encodable(&self) -> (r: bool) {
        is_valid_key(self.key.as_bytes())
    }

    fn get_bytes(&self) -> (bytes: Vec<u8>) {
        match self.expiry {
            Some(duration) => {
                let millis = decimal_bytes(as_millis(&duration));
                let items: Vec<&[u8]> = vec![
                    "SET".as_bytes(),
                    self.key.as_bytes(),
                    self.value.as_bytes(),
                    "PX".as_bytes(),
                    millis.as_slice(),
                ];
                assert(slices_view(items@) =~= self.elements());
                resp_bytes(items.as_slice())
            },
            None => {
                let items: Vec<&[u8]> = vec![
                    "SET".as_bytes(),
                    self.key.as_bytes(),
                    self.value.as_bytes(),
                ];
                assert(slices_view(items@) =~= self.elements());
                resp_bytes(items.as_slice())
            },
        }
    }

    fn convert_redis_result(self, result: RedisResult) -> (outcome: Result<(), ConversionError>) {
        match result {
            RedisResult::Error(error) => Err(ConversionError::RedisReturnedError { error }),
            _ => Ok(()),
        }
    }
}

/// The argument that guards a `SET`: `XX` or `NX`.
pub open spec fn guard_element(only_if_exists: bool) -> Seq<u8> {
    if only_if_exists {
        "XX".spec_bytes()
    } else {
        "NX".spec_bytes()
    }
}

impl<'a> StructuredCommand for SetIfExists<'a> {
    type Output = bool;

    open spec fn elements(&self) -> Seq<Seq<u8>> {
        seq!["SET".spec_bytes(), self.key()@, self.value()@] + expiry_elements(self.expiry())
            + seq![guard_element(self.only_if_exists())]
    }

    open spec fn encodable(&self) -> bool {
        key_fits(self.key()@)
    }

    /// A null reply says that the server did not set the key; any other
    /// reply but an error says that it did.
    open spec fn converts(
        &self,
        result: RedisResult,
        outcome: Result<bool, ConversionError>,
    ) -> bool {
        match result@ {
            RedisResultView::Null => outcome == Ok::<bool, ConversionError>(false),
            RedisResultView::Error(error) => fails_with(
                outcome,
                ConversionFault::RedisReturnedError { error },
            ),
            _ => outcome == Ok::<bool, ConversionError>(true),
        }
    }

    fn is_encodable(&self) -> (r: bool) {
        is_valid_key(self.key.as_bytes())
    }

    fn get_bytes(&self) -> (bytes: Vec<u8>) {
        let exists_tag = if self.exists {
            "XX"
        } else {
            "NX"
        };
        match self.expiry {
            Some(duration) => {
                let millis = decimal_bytes(as_millis(&duration));
                let items: Vec<&[u8]> = vec![
                    "SET".as_bytes(),
                    self.key.as_bytes(),
                    self.value.as_bytes(),
                    "PX".as_bytes(),
                    millis.as_slice(),
                    exists_tag.as_bytes(),
                ];
                assert(slices_view(items@) =~= self.elements());
                resp_bytes(items.as_slice())
            },
            None => {
                let items: Vec<&[u8]> = vec![
                    "SET".as_bytes(),
                    self.key.as_bytes(),
                    self.value.as_bytes(),
                    exists_tag.as_bytes(),
                ];
                assert(slices_view(items@) =~= self.elements());
                resp_bytes(items.as_slice())
            },
        }
    }

    fn convert_redis_result(self, result: RedisResult) -> (outcome: Result<bool, ConversionError>) {
        match result {
            RedisResult::Null => Ok(false),
            RedisResult::Error(error) => Err(ConversionError::RedisReturnedError { error }),
            _ => Ok(true),
        }
    }
}

/// The byte sequences of a run of pairs: each key and then its value.
pub open spec fn pairs_view<'a>(pairs: Seq<(RBytes<'a>, RBytes<'a>)>) -> Seq<Seq<u8>> {
    Seq::new(
        2 * pairs.len(),
        |i: int|
            if i % 2 == 0 {
                pairs[i / 2].0@
            } else {
                pairs[i / 2].1@
            },
    )
}

/// True when the key of each pair is within the size limit.
pub open spec fn pair_keys_fit<'a>(pairs: Seq<(RBytes<'a>, RBytes<'a>)>) -> bool {
    forall|i: int| 0 <= i < pairs.len() ==> key_fits((#[trigger] pairs[i]).0@)
}

/// Tells whether the key of each pair is within the size limit.
fn check_pair_keys<'a>(pairs: &Vec<(RBytes<'a>, RBytes<'a>)>) -> (r: bool)
    ensures
        r == pair_keys_fit(pairs@),
{
    let mut i: usize = 0;
    while i < pairs.len()
        invariant
            i <= pairs.len(),
            forall|j: int| 0 <= j < i ==> key_fits((#[trigger] pairs@[j]).0@),
        decreases pairs.len() - i,
    {
        if !is_valid_key(pairs[i].0.as_bytes()) {
            return false;
        }
        i += 1;
    }
    true
}

/// Encodes `name` with the pairs as its arguments.
fn pairs_bytes<'a>(name: &str, pairs: &Vec<(RBytes<'a>, RBytes<'a>)>) -> (bytes: Vec<u8>)
    ensures
        bytes@ == bulk_array(seq![name.spec_bytes()] + pairs_view(pairs@)),
{
    let mut items: Vec<&[u8]> = Vec::new();
    items.push(name.as_bytes());
    let mut i: usize = 0;
    proof {
        assert(slices_view(items@) =~= seq![name.spec_bytes()] + pairs_view(
            pairs@.subrange(0, 0),
        ));
    }
    while i < pairs.len()
        invariant
            i <= pairs.len(),
            slices_view(items@) == seq![name.spec_bytes()] + pairs_view(
                pairs@.subrange(0, i as int),
            ),
        decreases pairs.len() - i,
    {
        let ghost before = slices_view(items@);
        items.push(pairs[i].0.as_bytes());
        items.push(pairs[i].1.as_bytes());
        proof {
            let key = pairs@[i as int].0@;
            let value = pairs@[i as int].1@;
            assert(slices_view(items@) =~= before.push(key).push(value));
            let shorter = pairs_view(pairs@.subrange(0, i as int));
            let longer = pairs_view(pairs@.subrange(0, i + 1));
            assert(longer =~= shorter.push(key).push(value)) by {
                assert(longer.len() == shorter.len() + 2);
                assert forall|j: int| 0 <= j < longer.len() implies longer[j] == shorter.push(
                    key,
                ).push(value)[j] by {
                    if j < shorter.len() {
                        assert(j / 2 < i);
                    } else {
                        assert(j / 2 == i);
                    }
                }
            }
            assert(slices_view(items@) =~= seq![name.spec_bytes()] + longer);
        }
        i += 1;
    }
    proof {
        assert(pairs@.subrange(0, pairs.len() as int) =~= pairs@);
    }
    resp_bytes(items.as_slice())
}

/// `MSET key value [key value ...]`. The reply is dropped unless it is an
/// error.
pub struct SetMany<'a> {
    key_value_pairs: Vec<(RBytes<'a>, RBytes<'a>)>,
}

impl<'a> SetMany<'a> {
    /// The pairs to set, each a key and its value.
    pub closed spec fn pairs(&self) -> Seq<(RBytes<'a>, RBytes<'a>)> {
        self.key_value_pairs@
    }

    /// The command with one more pair at its end.
    pub fn add<K: Into<RBytes<'a>>, V: Into<RBytes<'a>>>(self, key: K, value: V) -> (r: Self)
        ensures
            r.pairs().len() == self.pairs().len() + 1,
            r.pairs().subrange(0, self.pairs().len() as int) == self.pairs(),
            call_ensures(K::into, (key,), r.pairs().last().0),
            call_ensures(V::into, (value,), r.pairs().last().1),
    {
        let mut command = self;
        command.key_value_pairs.push((key.into(), value.into()));
        proof {
            assert(command.key_value_pairs@.subrange(0, self.pairs().len() as int)
                =~= self.pairs());
        }
        command
    }

    /// The command with `pairs` in place of the pairs it had.
    pub fn with_pairs<K: Into<RBytes<'a>>, V: Into<RBytes<'a>>>(self, pairs: Vec<(K, V)>) -> (r:
        Self)
        ensures
            r.pairs().len() == pairs@.len(),
            forall|i: int|
                0 <= i < pairs@.len() ==> {
                    &&& call_ensures(K::into, ((#[trigger] pairs@[i]).0,), r.pairs()[i].0)
                    &&& call_ensures(V::into, (pairs@[i].1,), r.pairs()[i].1)
                },
    {
        let ghost given = pairs@;
        let mut converted: Vec<(RBytes<'a>, RBytes<'a>)> = Vec::new();
        for pair in iter: pairs
            invariant
                iter.seq() == given,
                converted@.len() == iter.index(),
                forall|i: int|
                    0 <= i < iter.index() ==> {
                        &&& call_ensures(K::into, ((#[trigger] given[i]).0,), converted@[i].0)
                        &&& call_ensures(V::into, (given[i].1,), converted@[i].1)
                    },
        {
            let (first, second) = pair;
            converted.push((first.into(), second.into()));
        }
        SetMany { key_value_pairs: converted }
    }

    /// The command that sets the pairs only if none of the keys exists.
    pub fn if_none_exists(self) -> (r: SetManyIfExists<'a>)
        ensures
            r.pairs() == self.pairs(),
    {
        SetManyIfExists { key_value_pairs: self.key_value_pairs }
    }
}

impl<'a> StructuredCommand for SetMany<'a> {
    type Output = ();

    open spec fn elements(&self) -> Seq<Seq<u8>> {
        seq!["MSET".spec_bytes()] + pairs_view(self.pairs())
    }

    open spec fn encodable(&self) -> bool {
        pair_keys_fit(self.pairs())
    }

    open spec fn converts(
        &self,
        result: RedisResult,
        outcome: Result<(), ConversionError>,
    ) -> bool {
        match result@ {
            RedisResultView::Error(error) => fails_with(
                outcome,
                ConversionFault::RedisReturnedError { error },
            ),
            _ => outcome is Ok,
        }
    }

    fn is_encodable(&self) -> (r: bool) {
        check_pair_keys(&self.key_value_pairs)
    }

    fn get_bytes(&self) -> (bytes: Vec<u8>) {
        pairs_bytes("MSET", &self.key_value_pairs)
    }

    fn convert_redis_result(self, result: RedisResult) -> (outcome: Result<(), ConversionError>) {
        match result {
            RedisResult::Error(error) => Err(ConversionError::RedisReturnedError { error }),
            _ => Ok(()),
        }
    }
}

/// `MSETNX key value [key value ...]`. The reply tells whether the server
/// set the pairs.
pub struct SetManyIfExists<'a> {
    key_value_pairs: Vec<(RBytes<'a>, RBytes<'a>)>,
}

impl<'a> SetManyIfExists<'a> {
    /// The pairs to set, each a key and its value.
    pub closed spec fn pairs(&self) -> Seq<(RBytes<'a>, RBytes<'a>)> {
        self.key_value_pairs@
    }
}

impl<'a> StructuredCommand for SetManyIfExists<'a> {
    type Output = bool;

    open spec fn elements(&self) -> Seq<Seq<u8>> {
        seq!["MSETNX".spec_bytes()] + pairs_view(self.pairs())
    }

    open spec fn encodable(&self) -> bool {
        pair_keys_fit(self.pairs())
    }

    /// The server replies 1 when it set the pairs and 0 when it set none.
    open spec fn converts(
        &self,
        result: RedisResult,
        outcome: Result<bool, ConversionError>,
    ) -> bool {
        match result@ {
            RedisResultView::Integer(0) => outcome == Ok::<bool, ConversionError>(false),
            RedisResultView::Integer(1) => outcome == Ok::<bool, ConversionError>(true),
            other => fails_with(outcome, mismatch(other)),
        }
    }

    fn is_encodable(&self) -> (r: bool) {
        check_pair_keys(&self.key_value_pairs)
    }

    fn get_bytes(&self) -> (bytes: Vec<u8>) {
        pairs_bytes("MSETNX", &self.key_value_pairs)
    }

    fn convert_redis_result(self, result: RedisResult) -> (outcome: Result<bool, ConversionError>) {
        match result {
            RedisResult::Integer(0) => Ok(false),
            RedisResult::Integer(1) => Ok(true),
            other => Err(no_match(other)),
        }
    }
}

/// `MSET`, without pairs so far.
pub fn mset<'a>() -> (r: SetMany<'a>)
    ensures
        r.pairs() == Seq::<(RBytes<'a>, RBytes<'a>)>::empty(),
{
    SetMany { key_value_pairs: Vec::new() }
}

/// `GETSET key value`: stores the value and replies with the one that the
/// key held before, converted to `T`.
pub struct GetSet<'a, T> {
    key: RBytes<'a>,
    value: RBytes<'a>,
    _t: PhantomData<T>,
}

impl<'a, T> GetSet<'a, T> {
    /// The key to set.
    pub closed spec fn key(&self) -> RBytes<'a> {
        self.key
    }

    /// The value to store.
    pub closed spec fn value(&self) -> RBytes<'a> {
        self.value
    }
}

impl<'a, T> StructuredCommand for GetSet<'a, T> where
    Option<T>: TryFrom<RedisResult, Error = ConversionError>,
 {
    type Output = Option<T>;

    open spec fn elements(&self) -> Seq<Seq<u8>> {
        seq!["GETSET".spec_bytes(), self.key()@, self.value()@]
    }

    open spec fn encodable(&self) -> bool {
        key_fits(self.key()@)
    }

    /// The reply is converted as the optional `T` is from any reply.
    open spec fn converts(
        &self,
        result: RedisResult,
        outcome: Result<Option<T>, ConversionError>,
    ) -> bool {
        call_ensures(<Option<T> as TryFrom<RedisResult>>::try_from, (result,), outcome)
    }

    fn is_encodable(&self) -> (r: bool) {
        is_valid_key(self.key.as_bytes())
    }

    fn get_bytes(&self) -> (bytes: Vec<u8>) {
        let items: Vec<&[u8]> = vec![
            "GETSET".as_bytes(),
            self.key.as_bytes(),
            self.value.as_bytes(),
        ];
        assert(slices_view(items@) =~= self.elements());
        resp_bytes(items.as_slice())
    }

    fn convert_redis_result(self, result: RedisResult) -> (outcome: Result<
        Option<T>,
        ConversionError,
    >) {
        <Option<T> as TryFrom<RedisResult>>::try_from(result)
    }
}

/// `GETSET key value`.
pub fn getset<'a, T, K: Into<RBytes<'a>>, V: Into<RBytes<'a>>>(key: K, value: V) -> (r: GetSet<
    'a,
    T,
>)
    ensures
        call_ensures(K::into, (key,), r.key()),
        call_ensures(V::into, (value,), r.value()),
{
    GetSet { key: key.into(), value: value.into(), _t: PhantomData }
}

} // verus!
