//! The commands that work on the bits of a value: `SETBIT`, `GETBIT`,
//! `BITCOUNT`, `BITPOS` and `BITOP`.
use crate::decimal::{decimal_bytes, int_text, nat_text, signed_decimal_bytes};
use crate::types::command::{args_view, push_args, StructuredCommand};
use crate::types::commands::get::{check_keys, keys_fit};
use crate::types::conversions::{fails_with, no_match};
use crate::types::redis_bytes::RBytes;
use crate::types::redis_values::{mismatch, ConversionError, RedisResult, RedisResultView};
use crate::types::resp_bytes::{resp_bytes, slices_view};
use crate::utils::{is_valid_key, key_fits};
use std::ops::{Range, RangeFrom, RangeInclusive};
use vstd::prelude::*;
use vstd::string::StringSliceAdditionalSpecFns;

verus! {

/// `std::ops::RangeFrom`, with its one field: the first index of the range.
#[verifier::external_type_specification]
#[verifier::reject_recursive_types(Idx)]
pub struct ExRangeFrom<Idx>(RangeFrom<Idx>);

/// `RangeInclusive::into_inner`: the lower bound of the range and its upper
/// bound, which the range includes.
#[verifier::external_body]
fn inclusive_bounds(range: RangeInclusive<i64>) -> (r: (i64, i64))
    ensures
        r.0 == range@.start,
        r.1 == range@.end,
{
    range.into_inner()
}

/// The text of a bit: `1` or `0`.
pub open spec fn bit_text(bit: bool) -> Seq<u8> {
    if bit {
        "1".spec_bytes()
    } else {
        "0".spec_bytes()
    }
}

/// The text of a bit.
fn bit_str(bit: bool) -> (text: &'static str)
    ensures
        text.spec_bytes() == bit_text(bit),
{
    if bit {
        "1"
    } else {
        "0"
    }
}

/// True when `outcome` is what a reply that holds one bit converts to: the
/// integers 1 and 0 are the two bits, and any other reply is a mismatch.
pub open spec fn converts_bit(
    result: RedisResult,
    outcome: Result<bool, ConversionError>,
) -> bool {
    match result@ {
        RedisResultView::Integer(1) => outcome == Ok::<bool, ConversionError>(true),
        RedisResultView::Integer(0) => outcome == Ok::<bool, ConversionError>(false),
        other => fails_with(outcome, mismatch(other)),
    }
}

/// Converts a reply that holds one bit.
fn convert_bit(result: RedisResult) -> (outcome: Result<bool, ConversionError>)
    ensures
        converts_bit(result, outcome),
{
    match result {
        RedisResult::Integer(1) => Ok(true),
        RedisResult::Integer(0) => Ok(false),
        other => Err(no_match(other)),
    }
}

/// True when `outcome` is what a reply that holds a count converts to: an
/// integer that is not negative, narrowed to 32 bits, and a mismatch for any
/// other reply.
pub open spec fn converts_count(
    result: RedisResult,
    outcome: Result<u32, ConversionError>,
) -> bool {
    match result@ {
        RedisResultView::Integer(n) if n >= 0 => outcome == Ok::<u32, ConversionError>(n as u32),
        other => fails_with(outcome, mismatch(other)),
    }
}

/// Converts a reply that holds a count.
fn convert_count(result: RedisResult) -> (outcome: Result<u32, ConversionError>)
    ensures
        converts_count(result, outcome),
{
    match result {
        RedisResult::Integer(n) => {
            if n >= 0 {
                Ok(#[verifier::truncate] (n as u32))
            } else {
                Err(no_match(RedisResult::Integer(n)))
            }
        },
        other => Err(no_match(other)),
    }
}

/// `SETBIT key offset bit`. The reply is the bit that was there before.
#[derive(Debug)]
pub struct SetBit<'a> {
    key: RBytes<'a>,
    offset: u32,
    value: bool,
}

impl<'a> SetBit<'a> {
    /// The key that holds the bits.
    pub closed spec fn key(&self) -> RBytes<'a> {
        self.key
    }

    /// The offset of the bit.
    pub closed spec fn offset(&self) -> u32 {
        self.offset
    }

    /// The bit to store.
    pub closed spec fn value(&self) -> bool {
        self.value
    }
}

impl<'a> StructuredCommand for SetBit<'a> {
    type Output = bool;

    open spec fn elements(&self) -> Seq<Seq<u8>> {
        seq![
            "SETBIT".spec_bytes(),
            self.key()@,
            nat_text(self.offset() as nat),
            bit_text(self.value()),
        ]
    }

    open spec fn encodable(&self) -> bool {
        key_fits(self.key()@)
    }

    open spec fn converts(
        &self,
        result: RedisResult,
        outcome: Result<bool, ConversionError>,
    ) -> bool {
        converts_bit(result, outcome)
    }

    fn is_encodable(&self) -> (r: bool) {
        is_valid_key(self.key.as_bytes())
    }

    fn get_bytes(&self) -> (bytes: Vec<u8>) {
        let offset = decimal_bytes(self.offset as u128);
        let items: Vec<&[u8]> = vec![
            "SETBIT".as_bytes(),
            self.key.as_bytes(),
            offset.as_slice(),
            bit_str(self.value).as_bytes(),
        ];
        assert(slices_view(items@) =~= self.elements());
        resp_bytes(items.as_slice())
    }

    fn convert_redis_result(self, result: RedisResult) -> (outcome: Result<bool, ConversionError>) {
        convert_bit(result)
    }
}

/// `SETBIT key offset bit`.
pub fn setbit<'a, K: Into<RBytes<'a>>>(key: K, offset: u32, value: bool) -> (r: SetBit<'a>)
    ensures
        call_ensures(K::into, (key,), r.key()),
        r.offset() == offset,
        r.value() == value,
{
    SetBit { key: key.into(), offset, value }
}

/// `GETBIT key offset`. The reply is the bit at the offset.
#[derive(Debug)]
pub struct GetBit<'a> {
    key: RBytes<'a>,
    offset: u32,
}

impl<'a> GetBit<'a> {
    /// The key that holds the bits.
    pub closed spec fn key(&self) -> RBytes<'a> {
        self.key
    }

    /// The offset of the bit.
    pub closed spec fn offset(&self) -> u32 {
        self.offset
    }
}

impl<'a> StructuredCommand for GetBit<'a> {
    type Output = bool;

    open spec fn elements(&self) -> Seq<Seq<u8>> {
        seq!["GETBIT".spec_bytes(), self.key()@, nat_text(self.offset() as nat)]
    }

    open spec fn encodable(&self) -> bool {
        key_fits(self.key()@)
    }

    open spec fn converts(
        &self,
        result: RedisResult,
        outcome: Result<bool, ConversionError>,
    ) -> bool {
        converts_bit(result, outcome)
    }

    fn is_encodable(&self) -> (r: bool) {
        is_valid_key(self.key.as_bytes())
    }

    fn get_bytes(&self) -> (bytes: Vec<u8>) {
        let offset = decimal_bytes(self.offset as u128);
        let items: Vec<&[u8]> = vec![
            "GETBIT".as_bytes(),
            self.key.as_bytes(),
            offset.as_slice(),
        ];
        assert(slices_view(items@) =~= self.elements());
        resp_bytes(items.as_slice())
    }

    fn convert_redis_result(self, result: RedisResult) -> (outcome: Result<bool, ConversionError>) {
        convert_bit(result)
    }
}

/// `GETBIT key offset`.
pub fn getbit<'a, K: Into<RBytes<'a>>>(key: K, offset: u32) -> (r: GetBit<'a>)
    ensures
        call_ensures(K::into, (key,), r.key()),
        r.offset() == offset,
{
    GetBit { key: key.into(), offset }
}

/// A range of bytes with both of its ends. Its bounds are the first and the
/// last byte of the range, as the server counts them: both belong to it.
pub trait RangeWithBounds: Sized {
    /// The first and the last byte of the range.
    spec fn bounds(&self) -> (i64, i64);

    /// True when the last byte of the range is a 64-bit number.
    spec fn bounded(&self) -> bool;

    /// The first and the last byte of the range.
    fn into_bounds(self) -> (r: (i64, i64))
        requires
            self.bounded(),
        ensures
            r == self.bounds(),
    ;
}

impl RangeWithBounds for Range<i64> {
    /// A range that leaves its end out ends one byte before it.
    open spec fn bounds(&self) -> (i64, i64) {
        (self.start, (self.end - 1) as i64)
    }

    open spec fn bounded(&self) -> bool {
        self.end > i64::MIN
    }

    fn into_bounds(self) -> (r: (i64, i64)) {
        (self.start, self.end - 1)
    }
}

impl RangeWithBounds for RangeInclusive<i64> {
    open spec fn bounds(&self) -> (i64, i64) {
        (self@.start, self@.end)
    }

    open spec fn bounded(&self) -> bool {
        true
    }

    fn into_bounds(self) -> (r: (i64, i64)) {
        inclusive_bounds(self)
    }
}

/// A range of bytes that may have no end.
pub trait RangeWithLowerBound: Sized {
    /// The first byte of the range, and the last when the range has one.
    spec fn lower_bounds(&self) -> (i64, Option<i64>);

    /// True when the last byte of the range, if any, is a 64-bit number.
    spec fn lower_bounded(&self) -> bool;

    /// The first byte of the range, and the last when the range has one.
    fn into_bounds(self) -> (r: (i64, Option<i64>))
        requires
            self.lower_bounded(),
        ensures
            r == self.lower_bounds(),
    ;
}

impl<T> RangeWithLowerBound for T where T: RangeWithBounds {
    open spec fn lower_bounds(&self) -> (i64, Option<i64>) {
        (self.bounds().0, Some(self.bounds().1))
    }

    open spec fn lower_bounded(&self) -> bool {
        self.bounded()
    }

    fn into_bounds(self) -> (r: (i64, Option<i64>)) {
        let (lower, upper) = RangeWithBounds::into_bounds(self);
        (lower, Some(upper))
    }
}

impl RangeWithLowerBound for RangeFrom<i64> {
    open spec fn lower_bounds(&self) -> (i64, Option<i64>) {
        (self.start, None)
    }

    open spec fn lower_bounded(&self) -> bool {
        true
    }

    fn into_bounds(self) -> (r: (i64, Option<i64>)) {
        (self.start, None)
    }
}

/// `BITCOUNT key [start end]`. The reply is the number of bits that are set.
#[derive(Debug)]
pub struct BitCount<'a> {
    key: RBytes<'a>,
    indices: Option<(i64, i64)>,
}

impl<'a> BitCount<'a> {
    /// The key that holds the bits.
    pub closed spec fn key(&self) -> RBytes<'a> {
        self.key
    }

    /// The first and the last byte to count in, if not all are counted.
    pub closed spec fn indices(&self) -> Option<(i64, i64)> {
        self.indices
    }

    /// The command that counts in the bytes of `range` only.
    pub fn in_range<R: RangeWithBounds>(self, range: R) -> (r: Self)
        requires
            range.bounded(),
        ensures
            r.key() == self.key(),
            r.indices() == Some(range.bounds()),
    {
        BitCount { key: self.key, indices: Some(range.into_bounds()) }
    }
}

/// The arguments that give a range with both ends, or nothing.
pub open spec fn indices_elements(indices: Option<(i64, i64)>) -> Seq<Seq<u8>> {
    match indices {
        Some((start, end)) => seq![int_text(start as int), int_text(end as int)],
        None => Seq::empty(),
    }
}

impl<'a> StructuredCommand for BitCount<'a> {
    type Output = u32;

    open spec fn elements(&self) -> Seq<Seq<u8>> {
        seq!["BITCOUNT".spec_bytes(), self.key()@] + indices_elements(self.indices())
    }

    open spec fn encodable(&self) -> bool {
        key_fits(self.key()@)
    }

    open spec fn converts(
        &self,
        result: RedisResult,
        outcome: Result<u32, ConversionError>,
    ) -> bool {
        converts_count(result, outcome)
    }

    fn is_encodable(&self) -> (r: bool) {
        is_valid_key(self.key.as_bytes())
    }

    fn get_bytes(&self) -> (bytes: Vec<u8>) {
        match self.indices {
            Some((start, end)) => {
                let first = signed_decimal_bytes(start as i128);
                let last = signed_decimal_bytes(end as i128);
                let items: Vec<&[u8]> = vec![
                    "BITCOUNT".as_bytes(),
                    self.key.as_bytes(),
                    first.as_slice(),
                    last.as_slice(),
                ];
                assert(slices_view(items@) =~= self.elements());
                resp_bytes(items.as_slice())
            },
            None => {
                let items: Vec<&[u8]> = vec!["BITCOUNT".as_bytes(), self.key.as_bytes()];
                assert(slices_view(items@) =~= self.elements());
                resp_bytes(items.as_slice())
            },
        }
    }

    fn convert_redis_result(self, result: RedisResult) -> (outcome: Result<u32, ConversionError>) {
        convert_count(result)
    }
}

/// `BITCOUNT key`.
pub fn bitcount<'a, K: Into<RBytes<'a>>>(key: K) -> (r: BitCount<'a>)
    ensures
        call_ensures(K::into, (key,), r.key()),
        r.indices() is None,
{
    BitCount { key: key.into(), indices: None }
}

/// `BITPOS key bit [start [end]]`. The reply is the offset of the first bit
/// that equals `bit`, or `None` when there is no such bit.
pub struct BitPos<'a> {
    key: RBytes<'a>,
    bit: bool,
    range: Option<(i64, Option<i64>)>,
}

impl<'a> BitPos<'a> {
    /// The key that holds the bits.
    pub closed spec fn key(&self) -> RBytes<'a> {
        self.key
    }

    /// The bit to look for.
    pub closed spec fn bit(&self) -> bool {
        self.bit
    }

    /// The first byte to look in, and the last when there is one, if not
    /// all bytes are looked in.
    pub closed spec fn range(&self) -> Option<(i64, Option<i64>)> {
        self.range
    }

    /// The command that looks in the bytes of `range` only.
    pub fn in_range<R: RangeWithLowerBound>(self, range: R) -> (r: Self)
        requires
            range.lower_bounded(),
        ensures
            r.key() == self.key(),
            r.bit() == self.bit(),
            r.range() == Some(range.lower_bounds()),
    {
        BitPos { key: self.key, bit: self.bit, range: Some(range.into_bounds()) }
    }
}

/// The arguments that give a range that may have no end, or nothing.
pub open spec fn range_elements(range: Option<(i64, Option<i64>)>) -> Seq<Seq<u8>> {
    match range {
        Some((start, Some(end))) => seq![int_text(start as int), int_text(end as int)],
        Some((start, None)) => seq![int_text(start as int)],
        None => Seq::empty(),
    }
}

impl<'a> StructuredCommand for BitPos<'a> {
    type Output = Option<u32>;

    open spec fn elements(&self) -> Seq<Seq<u8>> {
        seq!["BITPOS".spec_bytes(), self.key()@, bit_text(self.bit())] + range_elements(
            self.range(),
        )
    }

    open spec fn encodable(&self) -> bool {
        key_fits(self.key()@)
    }

    /// An integer that is not negative is the offset, narrowed to 32 bits;
    /// -1 says that there is no such bit; any other reply is a mismatch.
    open spec fn converts(
        &self,
        result: RedisResult,
        outcome: Result<Option<u32>, ConversionError>,
    ) -> bool {
        match result@ {
            RedisResultView::Integer(n) if n >= 0 => outcome == Ok::<
                Option<u32>,
                ConversionError,
            >(Some(n as u32)),
            RedisResultView::Integer(-1) => outcome == Ok::<Option<u32>, ConversionError>(None),
            other => fails_with(outcome, mismatch(other)),
        }
    }

    fn is_encodable(&self) -> (r: bool) {
        is_valid_key(self.key.as_bytes())
    }

    fn get_bytes(&self) -> (bytes: Vec<u8>) {
        match self.range {
            Some((start, Some(end))) => {
                let first = signed_decimal_bytes(start as i128);
                let last = signed_decimal_bytes(end as i128);
                let items: Vec<&[u8]> = vec![
                    "BITPOS".as_bytes(),
                    self.key.as_bytes(),
                    bit_str(self.bit).as_bytes(),
                    first.as_slice(),
                    last.as_slice(),
                ];
                assert(slices_view(items@) =~= self.elements());
                resp_bytes(items.as_slice())
            },
            Some((start, None)) => {
                let first = signed_decimal_bytes(start as i128);
                let items: Vec<&[u8]> = vec![
                    "BITPOS".as_bytes(),
                    self.key.as_bytes(),
                    bit_str(self.bit).as_bytes(),
                    first.as_slice(),
                ];
                assert(slices_view(items@) =~= self.elements());
                resp_bytes(items.as_slice())
            },
            None => {
                let items: Vec<&[u8]> = vec![
                    "BITPOS".as_bytes(),
                    self.key.as_bytes(),
                    bit_str(self.bit).as_bytes(),
                ];
                assert(slices_view(items@) =~= self.elements());
                resp_bytes(items.as_slice())
            },
        }
    }

    fn convert_redis_result(self, result: RedisResult) -> (outcome: Result<
        Option<u32>,
        ConversionError,
    >) {
        match result {
            RedisResult::Integer(n) => {
                if n >= 0 {
                    Ok(Some(#[verifier::truncate] (n as u32)))
                } else if n == -1 {
                    Ok(None)
                } else {
                    Err(no_match(RedisResult::Integer(n)))
                }
            },
            other => Err(no_match(other)),
        }
    }
}

/// `BITPOS key bit`.
pub fn bitpos<'a, K: Into<RBytes<'a>>>(key: K, bit: bool) -> (r: BitPos<'a>)
    ensures
        call_ensures(K::into, (key,), r.key()),
        r.bit() == bit,
        r.range() is None,
{
    BitPos { key: key.into(), bit, range: None }
}

/// `BITOP NOT destination source`. The reply is the length of the value
/// stored at the destination.
pub struct BitOpUnary<'a> {
    destination: RBytes<'a>,
    source: RBytes<'a>,
}

impl<'a> BitOpUnary<'a> {
    /// The key that takes the outcome.
    pub closed spec fn destination(&self) -> RBytes<'a> {
        self.destination
    }

    /// The key whose bits are inverted.
    pub closed spec fn source(&self) -> RBytes<'a> {
        self.source
    }

    /// The inversion of `source` into `destination`.
    pub(crate) fn new(destination: RBytes<'a>, source: RBytes<'a>) -> (r: Self)
        ensures
            r.destination() == destination,
            r.source() == source,
    {
        BitOpUnary { destination, source }
    }
}

impl<'a> StructuredCommand for BitOpUnary<'a> {
    type Output = u32;

    open spec fn elements(&self) -> Seq<Seq<u8>> {
        seq!["BITOP".spec_bytes(), "NOT".spec_bytes(), self.destination()@, self.source()@]
    }

    open spec fn encodable(&self) -> bool {
        key_fits(self.destination()@) && key_fits(self.source()@)
    }

    open spec fn converts(
        &self,
        result: RedisResult,
        outcome: Result<u32, ConversionError>,
    ) -> bool {
        converts_count(result, outcome)
    }

    fn is_encodable(&self) -> (r: bool) {
        is_valid_key(self.destination.as_bytes()) && is_valid_key(self.source.as_bytes())
    }

    fn get_bytes(&self) -> (bytes: Vec<u8>) {
        let items: Vec<&[u8]> = vec![
            "BITOP".as_bytes(),
            "NOT".as_bytes(),
            self.destination.as_bytes(),
            self.source.as_bytes(),
        ];
        assert(slices_view(items@) =~= self.elements());
        resp_bytes(items.as_slice())
    }

    fn convert_redis_result(self, result: RedisResult) -> (outcome: Result<u32, ConversionError>) {
        convert_count(result)
    }
}

/// `BITOP operation destination source [source ...]`, for the operations
/// that take any number of sources. The reply is the length of the value
/// stored at the destination.
pub struct BitOpNAry<'a> {
    command: &'static str,
    destination: RBytes<'a>,
    sources: Vec<RBytes<'a>>,
}

impl<'a> BitOpNAry<'a> {
    /// The name of the operation.
    pub closed spec fn operation(&self) -> &'static str {
        self.command
    }

    /// The key that takes the outcome.
    pub closed spec fn destination(&self) -> RBytes<'a> {
        self.destination
    }

    /// The keys whose bits are combined.
    pub closed spec fn sources(&self) -> Seq<RBytes<'a>> {
        self.sources@
    }

    /// The combination of `source` into `destination` by `command`.
    pub(crate) fn new(
        command: &'static str,
        destination: RBytes<'a>,
        source: RBytes<'a>,
    ) -> (r: Self)
        ensures
            r.operation() == command,
            r.destination() == destination,
            r.sources() == seq![source],
    {
        let mut sources: Vec<RBytes<'a>> = Vec::new();
        sources.push(source);
        assert(sources@ =~= seq![source]);
        BitOpNAry { command, destination, sources }
    }

    /// The command with one more source at its end.
    pub fn with_source<K: Into<RBytes<'a>>>(self, source: K) -> (r: Self)
        ensures
            r.operation() == self.operation(),
            r.destination() == self.destination(),
            r.sources().len() == self.sources().len() + 1,
            r.sources().subrange(0, self.sources().len() as int) == self.sources(),
            call_ensures(K::into, (source,), r.sources().last()),
    {
        let mut command = self;
        command.sources.push(source.into());
        proof {
            assert(command.sources@.subrange(0, self.sources().len() as int)
                =~= self.sources());
        }
        command
    }
}

impl<'a> StructuredCommand for BitOpNAry<'a> {
    type Output = u32;

    open spec fn elements(&self) -> Seq<Seq<u8>> {
        seq!["BITOP".spec_bytes(), self.operation().spec_bytes(), self.destination()@]
            + args_view(self.sources())
    }

    open spec fn encodable(&self) -> bool {
        key_fits(self.destination()@) && keys_fit(self.sources())
    }

    open spec fn converts(
        &self,
        result: RedisResult,
        outcome: Result<u32, ConversionError>,
    ) -> bool {
        converts_count(result, outcome)
    }

    fn is_encodable(&self) -> (r: bool) {
        is_valid_key(self.destination.as_bytes()) && check_keys(&self.sources)
    }

    fn get_bytes(&self) -> (bytes: Vec<u8>) {
        let mut items: Vec<&[u8]> = vec![
            "BITOP".as_bytes(),
            self.command.as_bytes(),
            self.destination.as_bytes(),
        ];
        proof {
            assert(slices_view(items@) =~= seq![
                "BITOP".spec_bytes(),
                self.operation().spec_bytes(),
                self.destination()@,
            ]);
        }
        push_args(&mut items, &self.sources);
        resp_bytes(items.as_slice())
    }

    fn convert_redis_result(self, result: RedisResult) -> (outcome: Result<u32, ConversionError>) {
        convert_count(result)
    }
}

} // verus!
