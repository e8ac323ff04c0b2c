//! The typed commands. Each carries the type that the reply is converted to
//! and the conversion that gets it there.
pub mod bit_commands;
pub mod bitop;
pub mod expiry;
pub mod get;
pub mod increment;
pub mod set;
pub mod util_commands;

pub use bit_commands::{bitcount, bitpos, getbit, setbit};
pub use get::{get, mget};
pub use increment::{decr, decr_by, incr, incr_by};
pub use set::{getset, mset};
pub use util_commands::{echo, ping};

use crate::types::redis_bytes::RBytes;
use vstd::prelude::*;

verus! {

/// `SET key value`.
pub fn set<'a, K: Into<RBytes<'a>>, V: Into<RBytes<'a>>>(key: K, value: V) -> (r:
    self::set::SetCommand<'a>)
    ensures
        call_ensures(K::into, (key,), r.key()),
        call_ensures(V::into, (value,), r.value()),
        r.expiry() is None,
{
    self::set::SetCommand::new(key.into(), value.into())
}

} // verus!
