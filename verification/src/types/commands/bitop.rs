//! The operations of `BITOP`, one function each.
use crate::types::commands::bit_commands::{BitOpNAry, BitOpUnary};
use crate::types::redis_bytes::RBytes;
use vstd::prelude::*;

verus! {

/// `BITOP NOT destination source`.
pub fn not<'a, D: Into<RBytes<'a>>, S: Into<RBytes<'a>>>(destination: D, source: S) -> (r:
    BitOpUnary<'a>)
    ensures
        call_ensures(D::into, (destination,), r.destination()),
        call_ensures(S::into, (source,), r.source()),
{
    BitOpUnary::new(destination.into(), source.into())
}

/// `BITOP AND destination source`.
pub fn and<'a, D: Into<RBytes<'a>>, S: Into<RBytes<'a>>>(destination: D, source: S) -> (r:
    BitOpNAry<'a>)
    ensures
        r.operation() == "AND",
        call_ensures(D::into, (destination,), r.destination()),
        r.sources().len() == 1,
        call_ensures(S::into, (source,), r.sources()[0]),
{
    BitOpNAry::new("AND", destination.into(), source.into())
}

/// `BITOP OR destination source`.
pub fn or<'a, D: Into<RBytes<'a>>, S: Into<RBytes<'a>>>(destination: D, source: S) -> (r:
    BitOpNAry<'a>)
    ensures
        r.operation() == "OR",
        call_ensures(D::into, (destination,), r.destination()),
        r.sources().len() == 1,
        call_ensures(S::into, (source,), r.sources()[0]),
{
    BitOpNAry::new("OR", destination.into(), source.into())
}

/// `BITOP XOR destination source`.
pub fn xor<'a, D: Into<RBytes<'a>>, S: Into<RBytes<'a>>>(destination: D, source: S) -> (r:
    BitOpNAry<'a>)
    ensures
        r.operation() == "XOR",
        call_ensures(D::into, (destination,), r.destination()),
        r.sources().len() == 1,
        call_ensures(S::into, (source,), r.sources()[0]),
{
    BitOpNAry::new("XOR", destination.into(), source.into())
}

} // verus!
