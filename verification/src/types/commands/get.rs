//! The commands that fetch values: `GET`, with a default if one is wanted,
//! and `MGET`.
use crate::types::command::{args_view, push_args, StructuredCommand};
use crate::types::conversions::{converts_to_vec, to_vec};
use crate::types::redis_bytes::RBytes;
use crate::types::redis_values::{ConversionError, RedisResult};
use crate::types::resp_bytes::{resp_bytes, slices_view};
use crate::utils::{is_valid_key, key_fits};
use std::marker::PhantomData;
use vstd::prelude::*;
use vstd::string::StringSliceAdditionalSpecFns;

verus! {

/// `GET key`: replies with the value that the key holds, converted to `T`,
/// or with `None` when it holds none.
pub struct Get<'a, T> {
    key: RBytes<'a>,
    _t: PhantomData<T>,
}

impl<'a, T> Get<'a, T> {
    /// The key to fetch.
    pub closed spec fn key(&self) -> RBytes<'a> {
        self.key
    }

    fn new(key: RBytes<'a>) -> (r: Self)
        ensures
            r.key() == key,
    {
        Self { key, _t: PhantomData }
    }

    /// The command that replies with `default` where the key holds no value.
    pub fn with_default(self, default: T) -> (r: GetWithDefault<'a, T>)
        ensures
            r.get_command() == self,
            r.default() == default,
    {
        GetWithDefault { get_command: self, default }
    }
}

impl<'a, T> StructuredCommand for Get<'a, T> where
    Option<T>: TryFrom<RedisResult, Error = ConversionError>,
 {
    type Output = Option<T>;

    open spec fn elements(&self) -> Seq<Seq<u8>> {
        seq!["GET".spec_bytes(), self.key()@]
    }

    open spec fn encodable(&self) -> bool {
        key_fits(self.key()@)
    }

    /// The reply is converted as the optional `T` is from any reply.
    open spec fn converts(
        &self,
        result: RedisResult,
        outcome: Result<Option<T>, ConversionError>,
    ) -> bool {
        call_ensures(<Option<T> as TryFrom<RedisResult>>::try_from, (result,), outcome)
    }

    fn is_encodable(&self) -> (r: bool) {
        is_valid_key(self.key.as_bytes())
    }

    fn get_bytes(&self) -> (bytes: Vec<u8>) {
        let items: Vec<&[u8]> = vec!["GET".as_bytes(), self.key.as_bytes()];
        assert(slices_view(items@) =~= self.elements());
        resp_bytes(items.as_slice())
    }

    fn convert_redis_result(self, result: RedisResult) -> (outcome: Result<
        Option<T>,
        ConversionError,
    >) {
        <Option<T> as TryFrom<RedisResult>>::try_from(result)
    }
}

/// `GET key`, with a value to reply with where the key holds none.
pub struct GetWithDefault<'a, T> {
    get_command: Get<'a, T>,
    default: T,
}

impl<'a, T> GetWithDefault<'a, T> {
    /// The command that fetches the value.
    pub closed spec fn get_command(&self) -> Get<'a, T> {
        self.get_command
    }

    /// The value that stands in where the key holds none.
    pub closed spec fn default(&self) -> T {
        self.default
    }
}

/// What a converted reply becomes when `default` stands in for `None`.
pub open spec fn or_default<T>(
    converted: Result<Option<T>, ConversionError>,
    default: T,
) -> Result<T, ConversionError> {
    match converted {
        Ok(Some(value)) => Ok(value),
        Ok(None) => Ok(default),
        Err(error) => Err(error),
    }
}

impl<'a, T> StructuredCommand for GetWithDefault<'a, T> where
    Option<T>: TryFrom<RedisResult, Error = ConversionError>,
 {
    type Output = T;

    open spec fn elements(&self) -> Seq<Seq<u8>> {
        seq!["GET".spec_bytes(), self.get_command().key()@]
    }

    open spec fn encodable(&self) -> bool {
        key_fits(self.get_command().key()@)
    }

    /// The reply is converted as the optional `T` is from any reply, and
    /// then the default stands in for `None`.
    open spec fn converts(
        &self,
        result: RedisResult,
        outcome: Result<T, ConversionError>,
    ) -> bool {
        exists|converted: Result<Option<T>, ConversionError>|
            {
                &&& call_ensures(
                    <Option<T> as TryFrom<RedisResult>>::try_from,
                    (result,),
                    converted,
                )
                &&& outcome == or_default(converted, self.default())
            }
    }

    fn is_encodable(&self) -> (r: bool) {
        self.get_command.is_encodable()
    }

    fn get_bytes(&self) -> (bytes: Vec<u8>) {
        self.get_command.get_bytes()
    }

    fn convert_redis_result(self, result: RedisResult) -> (outcome: Result<T, ConversionError>) {
        let intermediate = <Option<T> as TryFrom<RedisResult>>::try_from(result);
        let ghost converted = intermediate;
        let outcome = match intermediate {
            Ok(Some(value)) => Ok(value),
            Ok(None) => Ok(self.default),
            Err(error) => Err(error),
        };
        proof {
            assert(call_ensures(
                <Option<T> as TryFrom<RedisResult>>::try_from,
                (result,),
                converted,
            ));
            assert(outcome == or_default(converted, self.default()));
        }
        outcome
    }
}

/// `GET key`.
pub fn get<'a, T, B: Into<RBytes<'a>>>(key: B) -> (r: Get<'a, T>)
    ensures
        call_ensures(B::into, (key,), r.key()),
{
    Get::new(key.into())
}

/// True when each of `keys` is within the size limit.
pub open spec fn keys_fit<'a>(keys: Seq<RBytes<'a>>) -> bool {
    forall|i: int| 0 <= i < keys.len() ==> key_fits((#[trigger] keys[i])@)
}

/// Tells whether each of `keys` is within the size limit.
pub fn check_keys<'a>(keys: &Vec<RBytes<'a>>) -> (r: bool)
    ensures
        r == keys_fit(keys@),
{
    let mut i: usize = 0;
    while i < keys.len()
        invariant
            i <= keys.len(),
            forall|j: int| 0 <= j < i ==> key_fits((#[trigger] keys@[j])@),
        decreases keys.len() - i,
    {
        if !is_valid_key(keys[i].as_bytes()) {
            return false;
        }
        i += 1;
    }
    true
}

/// `MGET key [key ...]`: replies with one entry for each key, in the order
/// of the keys, each converted to `T` or `None` where the key holds no
/// value.
pub struct GetMultipleList<'a, T> {
    keys: Vec<RBytes<'a>>,
    _t: PhantomData<T>,
}

impl<'a, T> GetMultipleList<'a, T> {
    /// The keys to fetch.
    pub closed spec fn keys(&self) -> Seq<RBytes<'a>> {
        self.keys@
    }

    /// The command with one more key at its end.
    pub fn key<K: Into<RBytes<'a>>>(self, key: K) -> (r: Self)
        ensures
            r.keys().len() == self.keys().len() + 1,
            r.keys().subrange(0, self.keys().len() as int) == self.keys(),
            call_ensures(K::into, (key,), r.keys().last()),
    {
        let mut command = self;
        command.keys.push(key.into());
        proof {
            assert(command.keys@.subrange(0, self.keys().len() as int) =~= self.keys());
        }
        command
    }

    /// The command with `keys` in place of the keys it had.
    pub fn with_keys<K: Into<RBytes<'a>>>(self, keys: Vec<K>) -> (r: Self)
        ensures
            r.keys().len() == keys@.len(),
            forall|i: int|
                0 <= i < keys@.len() ==> call_ensures(
                    K::into,
                    (#[trigger] keys@[i],),
                    r.keys()[i],
                ),
    {
        let ghost given = keys@;
        let mut converted: Vec<RBytes<'a>> = Vec::new();
        for key in iter: keys
            invariant
                iter.seq() == given,
                converted@.len() == iter.index(),
                forall|i: int|
                    0 <= i < iter.index() ==> call_ensures(
                        K::into,
                        (#[trigger] given[i],),
                        converted@[i],
                    ),
        {
            converted.push(key.into());
        }
        GetMultipleList { keys: converted, _t: PhantomData }
    }
}

impl<'a, T> StructuredCommand for GetMultipleList<'a, T> where
    Option<T>: TryFrom<RedisResult, Error = ConversionError>,
 {
    type Output = Vec<Option<T>>;

    open spec fn elements(&self) -> Seq<Seq<u8>> {
        seq!["MGET".spec_bytes()] + args_view(self.keys())
    }

    open spec fn encodable(&self) -> bool {
        keys_fit(self.keys())
    }

    /// An array reply is converted item by item, each as the optional `T`
    /// is from any reply; any other reply is a mismatch.
    open spec fn converts(
        &self,
        result: RedisResult,
        outcome: Result<Vec<Option<T>>, ConversionError>,
    ) -> bool {
        converts_to_vec::<Option<T>>(result, outcome)
    }

    fn is_encodable(&self) -> (r: bool) {
        check_keys(&self.keys)
    }

    fn get_bytes(&self) -> (bytes: Vec<u8>) {
        let mut items: Vec<&[u8]> = Vec::new();
        items.push("MGET".as_bytes());
        proof {
            assert(slices_view(items@) =~= seq!["MGET".spec_bytes()]);
        }
        push_args(&mut items, &self.keys);
        resp_bytes(items.as_slice())
    }

    fn convert_redis_result(self, result: RedisResult) -> (outcome: Result<
        Vec<Option<T>>,
        ConversionError,
    >) {
        to_vec::<Option<T>>(result)
    }
}

/// `MGET`, without keys so far.
pub fn mget<'a, T>() -> (r: GetMultipleList<'a, T>)
    ensures
        r.keys() == Seq::<RBytes<'a>>::empty(),
{
    GetMultipleList { keys: Vec::new(), _t: PhantomData }
}

} // verus!
