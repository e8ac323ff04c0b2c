//! The commands that count: `INCR`, `DECR`, `INCRBY` and `DECRBY`.
use crate::decimal::{decimal_bytes, nat_text};
use crate::types::command::StructuredCommand;
use crate::types::conversions::converts_to_i64;
use crate::types::redis_bytes::RBytes;
use crate::types::redis_values::{ConversionError, RedisResult};
use crate::types::resp_bytes::{resp_bytes, slices_view};
use crate::utils::{is_valid_key, key_fits};
use vstd::prelude::*;
use vstd::string::StringSliceAdditionalSpecFns;

verus! {

/// A change of the number that a key holds, by a signed amount. The reply
/// is the number after the change.
pub struct Increment<'a> {
    key: RBytes<'a>,
    by: i128,
}

impl<'a> Increment<'a> {
    /// The key whose number changes.
    pub closed spec fn key(&self) -> RBytes<'a> {
        self.key
    }

    /// The amount that is added to the number; negative to take away.
    pub closed spec fn amount(&self) -> int {
        self.by as int
    }

    fn new(key: RBytes<'a>, by: i128) -> (r: Self)
        ensures
            r.key() == key,
            r.amount() == by,
    {
        Self { key, by }
    }
}

/// `INCR key`: adds one.
pub fn incr<'a, K: Into<RBytes<'a>>>(key: K) -> (r: Increment<'a>)
    ensures
        call_ensures(K::into, (key,), r.key()),
        r.amount() == 1,
{
    Increment::new(key.into(), 1)
}

/// Adds `by`, which may be negative.
pub fn incr_by<'a, K: Into<RBytes<'a>>>(key: K, by: i64) -> (r: Increment<'a>)
    ensures
        call_ensures(K::into, (key,), r.key()),
        r.amount() == by,
{
    Increment::new(key.into(), by as i128)
}

/// `DECR key`: takes one away.
pub fn decr<'a, K: Into<RBytes<'a>>>(key: K) -> (r: Increment<'a>)
    ensures
        call_ensures(K::into, (key,), r.key()),
        r.amount() == -1,
{
    Increment::new(key.into(), -1)
}

/// Takes `by` away, which may be negative.
pub fn decr_by<'a, K: Into<RBytes<'a>>>(key: K, by: i64) -> (r: Increment<'a>)
    ensures
        call_ensures(K::into, (key,), r.key()),
        r.amount() == -by,
{
    Increment::new(key.into(), -(by as i128))
}

/// The elements of a change by `amount`: `INCR` or `DECR` for a change by
/// one, and otherwise `INCRBY` or `DECRBY` with the magnitude of the amount.
/// The sign picks the command and never reaches the argument.
pub open spec fn increment_elements(key: Seq<u8>, amount: int) -> Seq<Seq<u8>> {
    if amount == 1 {
        seq!["INCR".spec_bytes(), key]
    } else if amount == -1 {
        seq!["DECR".spec_bytes(), key]
    } else if amount >= 0 {
        seq!["INCRBY".spec_bytes(), key, nat_text(amount as nat)]
    } else {
        seq!["DECRBY".spec_bytes(), key, nat_text((-amount) as nat)]
    }
}

impl<'a> StructuredCommand for Increment<'a> {
    type Output = i64;

    open spec fn elements(&self) -> Seq<Seq<u8>> {
        increment_elements(self.key()@, self.amount())
    }

    open spec fn encodable(&self) -> bool {
        key_fits(self.key()@)
    }

    /// The reply is converted as `i64` is from any reply.
    open spec fn converts(
        &self,
        result: RedisResult,
        outcome: Result<i64, ConversionError>,
    ) -> bool {
        converts_to_i64(result@, outcome)
    }

    fn is_encodable(&self) -> (r: bool) {
        is_valid_key(self.key.as_bytes())
    }

    fn get_bytes(&self) -> (bytes: Vec<u8>) {
        if self.by == 1 {
            let items: Vec<&[u8]> = vec!["INCR".as_bytes(), self.key.as_bytes()];
            assert(slices_view(items@) =~= self.elements());
            resp_bytes(items.as_slice())
        } else if self.by == -1 {
            let items: Vec<&[u8]> = vec!["DECR".as_bytes(), self.key.as_bytes()];
            assert(slices_view(items@) =~= self.elements());
            resp_bytes(items.as_slice())
        } else if self.by >= 0 {
            let amount = decimal_bytes(self.by as u128);
            let items: Vec<&[u8]> = vec![
                "INCRBY".as_bytes(),
                self.key.as_bytes(),
                amount.as_slice(),
            ];
            assert(slices_view(items@) =~= self.elements());
            resp_bytes(items.as_slice())
        } else {
            let magnitude: u128 = if self.by == i128::MIN {
                0x8000_0000_0000_0000_0000_0000_0000_0000u128
            } else {
                (-self.by) as u128
            };
            let amount = decimal_bytes(magnitude);
            let items: Vec<&[u8]> = vec![
                "DECRBY".as_bytes(),
                self.key.as_bytes(),
                amount.as_slice(),
            ];
            assert(slices_view(items@) =~= self.elements());
            resp_bytes(items.as_slice())
        }
    }

    fn convert_redis_result(self, result: RedisResult) -> (outcome: Result<i64, ConversionError>) {
        <i64 as TryFrom<RedisResult>>::try_from(result)
    }
}

} // verus!
