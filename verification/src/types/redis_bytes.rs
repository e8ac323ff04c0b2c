//! The arguments of a command: byte sequences, borrowed where the caller
//! lends them and owned where they have to be made.
use crate::decimal::{
    decimal_bytes, int_text, is_digit, lemma_nat_text_digits, nat_text, push_decimal,
    signed_decimal_bytes,
};
use crate::sans_io::encoding::lemma_ascii_is_utf8;
use crate::text::{char_to_string, str_from_utf8, string_from_utf8};
use std::borrow::Cow;
use vstd::prelude::*;
use vstd::slice::slice_to_vec;
use vstd::std_specs::convert::FromSpecImpl;
use vstd::string::StringSliceAdditionalSpecFns;
use vstd::utf8::{encode_utf8, valid_utf8};

verus! {

/// The text of a boolean that is sent as content: `true` or `false`.
pub open spec fn bool_text(value: bool) -> Seq<u8> {
    if value {
        seq![116u8, 114u8, 117u8, 101u8]
    } else {
        seq![102u8, 97u8, 108u8, 115u8, 101u8]
    }
}

/// One argument of a command, or its name: a sequence of bytes that goes
/// into the request frame as it is. It need not be text.
#[derive(Debug)]
pub struct RBytes<'a>(Cow<'a, [u8]>);

impl<'a> View for RBytes<'a> {
    type V = Seq<u8>;

    closed spec fn view(&self) -> Seq<u8> {
        self.0@
    }
}

impl<'a> RBytes<'a> {
    /// The bytes of the argument.
    pub fn as_bytes(&self) -> (bytes: &[u8])
        ensures
            bytes@ == self@,
    {
        match &self.0 {
            Cow::Borrowed(bytes) => bytes,
            Cow::Owned(bytes) => bytes.as_slice(),
        }
    }

    /// An argument that borrows `bytes`.
    pub fn borrowed(bytes: &'a [u8]) -> (r: Self)
        ensures
            r@ == bytes@,
    {
        RBytes(Cow::Borrowed(bytes))
    }

    /// An argument that owns `bytes`.
    pub fn owned(bytes: Vec<u8>) -> (r: Self)
        ensures
            r@ == bytes@,
    {
        RBytes(Cow::Owned(bytes))
    }
}

/// What `{:?}` writes for text: the text between double quotes, with the
/// characters that need it escaped. `text` and the result are UTF-8.
pub uninterp spec fn escaped(text: Seq<u8>) -> Seq<u8>;

/// `format!("{:?}", text)`: the text between double quotes, with the
/// characters that need it escaped.
#[verifier::external_body]
fn debug_str(text: &str) -> (r: String)
    ensures
        encode_utf8(r@) == escaped(text.spec_bytes()),
{
    format!("{:?}", text)
}

/// The numbers of `bytes` in decimal, with a comma and a space between each
/// two.
pub open spec fn list_text(bytes: Seq<u8>) -> Seq<u8>
    decreases bytes.len(),
{
    if bytes.len() == 0 {
        Seq::empty()
    } else if bytes.len() == 1 {
        nat_text(bytes[0] as nat)
    } else {
        list_text(bytes.drop_last()) + seq![44u8, 32u8] + nat_text(bytes.last() as nat)
    }
}

/// How an argument is shown to a reader: as text where its bytes are
/// well-formed UTF-8, and as a list of numbers where they are not.
pub open spec fn shown(bytes: Seq<u8>) -> Seq<u8> {
    if valid_utf8(bytes) {
        "RBytes(b".spec_bytes() + escaped(bytes) + ")".spec_bytes()
    } else {
        "RBytes([".spec_bytes() + list_text(bytes) + "])".spec_bytes()
    }
}

/// The decimal text of a number is well-formed UTF-8.
proof fn lemma_nat_text_is_utf8(n: nat)
    ensures
        valid_utf8(nat_text(n)),
{
    lemma_nat_text_digits(n);
    let text = nat_text(n);
    assert forall|i: int| 0 <= i < text.len() implies #[trigger] text[i] < 128 by {
        assert(is_digit(text[i]));
    }
    lemma_ascii_is_utf8(text);
}

/// Appends the numbers of `bytes` in decimal to `out`, with a comma and a
/// space between each two.
fn push_list(out: &mut Vec<u8>, bytes: &[u8])
    requires
        valid_utf8(old(out)@),
    ensures
        final(out)@ == old(out)@ + list_text(bytes@),
        valid_utf8(final(out)@),
{
    let mut i: usize = 0;
    proof {
        assert(bytes@.subrange(0, 0) =~= Seq::<u8>::empty());
        assert(out@ =~= old(out)@ + list_text(bytes@.subrange(0, 0)));
    }
    while i < bytes.len()
        invariant
            i <= bytes.len(),
            out@ == old(out)@ + list_text(bytes@.subrange(0, i as int)),
            valid_utf8(out@),
        decreases bytes.len() - i,
    {
        let ghost before = out@;
        let ghost shorter = bytes@.subrange(0, i as int);
        let ghost longer = bytes@.subrange(0, i + 1);
        if i > 0 {
            out.push(44u8);
            out.push(32u8);
        }
        let ghost middle = out@;
        push_decimal(out, bytes[i] as u128);
        proof {
            assert(longer.drop_last() =~= shorter);
            assert(longer.last() == bytes@[i as int]);
            let number = nat_text(bytes@[i as int] as nat);
            lemma_nat_text_is_utf8(bytes@[i as int] as nat);
            if i > 0 {
                let separator = seq![44u8, 32u8];
                assert(middle =~= before + separator);
                assert forall|j: int| 0 <= j < separator.len() implies #[trigger] separator[j]
                    < 128 by {}
                lemma_ascii_is_utf8(separator);
                vstd::utf8::valid_utf8_concat(before, separator);
                vstd::utf8::valid_utf8_concat(middle, number);
                assert(out@ =~= old(out)@ + list_text(longer));
            } else {
                assert(shorter =~= Seq::<u8>::empty());
                vstd::utf8::valid_utf8_concat(before, number);
                assert(out@ =~= old(out)@ + list_text(longer));
            }
        }
        i += 1;
    }
    proof {
        assert(bytes@.subrange(0, bytes.len() as int) =~= bytes@);
    }
}

impl<'a> RBytes<'a> {
    /// The argument as a reader would want to see it: `RBytes(b"...")` with
    /// the text where the bytes are well-formed UTF-8, and `RBytes([...])`
    /// with the numbers of the bytes where they are not.
    pub fn debug_string(&self) -> (r: String)
        ensures
            encode_utf8(r@) == shown(self@),
    {
        let bytes = self.as_bytes();
        let mut out: Vec<u8> = Vec::new();
        match str_from_utf8(bytes) {
            Ok(text) => {
                let inner = debug_str(text);
                out.extend_from_slice("RBytes(b".as_bytes());
                out.extend_from_slice(inner.as_str().as_bytes());
                out.extend_from_slice(")".as_bytes());
                proof {
                    let head = "RBytes(b".spec_bytes();
                    let tail = ")".spec_bytes();
                    vstd::utf8::encode_utf8_valid_utf8("RBytes(b"@);
                    vstd::utf8::encode_utf8_valid_utf8(inner@);
                    vstd::utf8::encode_utf8_valid_utf8(")"@);
                    vstd::utf8::valid_utf8_concat(head, escaped(self@));
                    vstd::utf8::valid_utf8_concat(head + escaped(self@), tail);
                    assert(out@ =~= shown(self@));
                }
            },
            Err(_) => {
                out.extend_from_slice("RBytes([".as_bytes());
                proof {
                    vstd::utf8::encode_utf8_valid_utf8("RBytes(["@);
                    assert(out@ =~= "RBytes([".spec_bytes());
                }
                push_list(&mut out, bytes);
                let ghost listed = out@;
                out.extend_from_slice("])".as_bytes());
                proof {
                    vstd::utf8::encode_utf8_valid_utf8("])"@);
                    vstd::utf8::valid_utf8_concat(listed, "])".spec_bytes());
                    assert(out@ =~= shown(self@));
                }
            },
        }
        match string_from_utf8(out) {
            Ok(text) => text,
            Err(_) => vstd::pervasive::unreached(),
        }
    }
}

impl<'a> PartialEq for RBytes<'a> {
    /// Two arguments are equal when they hold the same bytes, whoever owns
    /// them.
    fn eq(&self, other: &Self) -> (r: bool) {
        let left = self.as_bytes();
        let right = other.as_bytes();
        if left.len() != right.len() {
            return false;
        }
        let mut i: usize = 0;
        while i < left.len()
            invariant
                left@ == self@,
                right@ == other@,
                left.len() == right.len(),
                i <= left.len(),
                forall|j: int| 0 <= j < i ==> left@[j] == right@[j],
            decreases left.len() - i,
        {
            if left[i] != right[i] {
                return false;
            }
            i += 1;
        }
        assert(self@ =~= other@);
        true
    }
}

impl<'a> vstd::std_specs::cmp::PartialEqSpecImpl for RBytes<'a> {
    open spec fn obeys_eq_spec() -> bool {
        true
    }

    open spec fn eq_spec(&self, other: &Self) -> bool {
        self@ == other@
    }
}

impl<'a> Eq for RBytes<'a> {

}

impl<'a> From<String> for RBytes<'a> {
    /// The UTF-8 bytes of the text.
    fn from(other: String) -> (r: Self)
        ensures
            r@ == encode_utf8(other@),
    {
        RBytes(Cow::Owned(slice_to_vec(other.as_str().as_bytes())))
    }
}

/// What the conversion returns is said by the contract of `from`, and not by
/// a function of the value.
impl<'a> FromSpecImpl<String> for RBytes<'a> {
    open spec fn obeys_from_spec() -> bool {
        false
    }

    open spec fn from_spec(v: String) -> Self {
        arbitrary()
    }
}

impl<'a> From<&'a str> for RBytes<'a> {
    /// The UTF-8 bytes of the text, borrowed.
    fn from(other: &'a str) -> (r: Self)
        ensures
            r@ == other.spec_bytes(),
    {
        RBytes(Cow::Borrowed(other.as_bytes()))
    }
}

/// What the conversion returns is said by the contract of `from`, and not by
/// a function of the value.
impl<'a> FromSpecImpl<&'a str> for RBytes<'a> {
    open spec fn obeys_from_spec() -> bool {
        false
    }

    open spec fn from_spec(v: &'a str) -> Self {
        arbitrary()
    }
}

impl<'a> From<char> for RBytes<'a> {
    /// The UTF-8 bytes of the character.
    fn from(other: char) -> (r: Self)
        ensures
            r@ == encode_utf8(seq![other]),
    {
        let text = char_to_string(other);
        RBytes(Cow::Owned(slice_to_vec(text.as_str().as_bytes())))
    }
}

/// What the conversion returns is said by the contract of `from`, and not by
/// a function of the value.
impl<'a> FromSpecImpl<char> for RBytes<'a> {
    open spec fn obeys_from_spec() -> bool {
        false
    }

    open spec fn from_spec(v: char) -> Self {
        arbitrary()
    }
}

impl<'a> From<bool> for RBytes<'a> {
    /// `true` or `false`, as content. Bit commands write `1` or `0` instead.
    fn from(other: bool) -> (r: Self)
        ensures
            r@ == bool_text(other),
    {
        let text: Vec<u8> = if other {
            vec![116u8, 114u8, 117u8, 101u8]
        } else {
            vec![102u8, 97u8, 108u8, 115u8, 101u8]
        };
        assert(text@ =~= bool_text(other));
        RBytes(Cow::Owned(text))
    }
}

/// What the conversion returns is said by the contract of `from`, and not by
/// a function of the value.
impl<'a> FromSpecImpl<bool> for RBytes<'a> {
    open spec fn obeys_from_spec() -> bool {
        false
    }

    open spec fn from_spec(v: bool) -> Self {
        arbitrary()
    }
}

impl<'a> From<&'a [u8]> for RBytes<'a> {
    /// The bytes themselves, borrowed.
    fn from(other: &'a [u8]) -> (r: Self)
        ensures
            r@ == other@,
    {
        RBytes(Cow::Borrowed(other))
    }
}

/// What the conversion returns is said by the contract of `from`, and not by
/// a function of the value.
impl<'a> FromSpecImpl<&'a [u8]> for RBytes<'a> {
    open spec fn obeys_from_spec() -> bool {
        false
    }

    open spec fn from_spec(v: &'a [u8]) -> Self {
        arbitrary()
    }
}

impl<'a> From<Vec<u8>> for RBytes<'a> {
    /// The bytes themselves, owned.
    fn from(other: Vec<u8>) -> (r: Self)
        ensures
            r@ == other@,
    {
        RBytes(Cow::Owned(other))
    }
}

/// What the conversion returns is said by the contract of `from`, and not by
/// a function of the value.
impl<'a> FromSpecImpl<Vec<u8>> for RBytes<'a> {
    open spec fn obeys_from_spec() -> bool {
        false
    }

    open spec fn from_spec(v: Vec<u8>) -> Self {
        arbitrary()
    }
}

impl<'a, const N: usize> From<&'a [u8; N]> for RBytes<'a> {
    /// The bytes of the array, borrowed.
    fn from(other: &'a [u8; N]) -> (r: Self)
        ensures
            r@ == other@,
    {
        RBytes(Cow::Borrowed(other.as_slice()))
    }
}

/// What the conversion returns is said by the contract of `from`, and not by
/// a function of the value.
impl<'a, const N: usize> FromSpecImpl<&'a [u8; N]> for RBytes<'a> {
    open spec fn obeys_from_spec() -> bool {
        false
    }

    open spec fn from_spec(v: &'a [u8; N]) -> Self {
        arbitrary()
    }
}

impl<'a> From<isize> for RBytes<'a> {
    /// The number in decimal.
    fn from(other: isize) -> (r: Self)
        ensures
            r@ == int_text(other as int),
    {
        RBytes(Cow::Owned(signed_decimal_bytes(other as i128)))
    }
}

/// What the conversion returns is said by the contract of `from`, and not by
/// a function of the value.
impl<'a> FromSpecImpl<isize> for RBytes<'a> {
    open spec fn obeys_from_spec() -> bool {
        false
    }

    open spec fn from_spec(v: isize) -> Self {
        arbitrary()
    }
}

impl<'a> From<i64> for RBytes<'a> {
    /// The number in decimal.
    fn from(other: i64) -> (r: Self)
        ensures
            r@ == int_text(other as int),
    {
        RBytes(Cow::Owned(signed_decimal_bytes(other as i128)))
    }
}

/// What the conversion returns is said by the contract of `from`, and not by
/// a function of the value.
impl<'a> FromSpecImpl<i64> for RBytes<'a> {
    open spec fn obeys_from_spec() -> bool {
        false
    }

    open spec fn from_spec(v: i64) -> Self {
        arbitrary()
    }
}

impl<'a> From<i32> for RBytes<'a> {
    /// The number in decimal.
    fn from(other: i32) -> (r: Self)
        ensures
            r@ == int_text(other as int),
    {
        RBytes(Cow::Owned(signed_decimal_bytes(other as i128)))
    }
}

/// What the conversion returns is said by the contract of `from`, and not by
/// a function of the value.
impl<'a> FromSpecImpl<i32> for RBytes<'a> {
    open spec fn obeys_from_spec() -> bool {
        false
    }

    open spec fn from_spec(v: i32) -> Self {
        arbitrary()
    }
}

impl<'a> From<i16> for RBytes<'a> {
    /// The number in decimal.
    fn from(other: i16) -> (r: Self)
        ensures
            r@ == int_text(other as int),
    {
        RBytes(Cow::Owned(signed_decimal_bytes(other as i128)))
    }
}

/// What the conversion returns is said by the contract of `from`, and not by
/// a function of the value.
impl<'a> FromSpecImpl<i16> for RBytes<'a> {
    open spec fn obeys_from_spec() -> bool {
        false
    }

    open spec fn from_spec(v: i16) -> Self {
        arbitrary()
    }
}

impl<'a> From<i8> for RBytes<'a> {
    /// The number in decimal.
    fn from(other: i8) -> (r: Self)
        ensures
            r@ == int_text(other as int),
    {
        RBytes(Cow::Owned(signed_decimal_bytes(other as i128)))
    }
}

/// What the conversion returns is said by the contract of `from`, and not by
/// a function of the value.
impl<'a> FromSpecImpl<i8> for RBytes<'a> {
    open spec fn obeys_from_spec() -> bool {
        false
    }

    open spec fn from_spec(v: i8) -> Self {
        arbitrary()
    }
}

impl<'a> From<usize> for RBytes<'a> {
    /// The number in decimal.
    fn from(other: usize) -> (r: Self)
        ensures
            r@ == nat_text(other as nat),
    {
        RBytes(Cow::Owned(decimal_bytes(other as u128)))
    }
}

/// What the conversion returns is said by the contract of `from`, and not by
/// a function of the value.
impl<'a> FromSpecImpl<usize> for RBytes<'a> {
    open spec fn obeys_from_spec() -> bool {
        false
    }

    open spec fn from_spec(v: usize) -> Self {
        arbitrary()
    }
}

impl<'a> From<u64> for RBytes<'a> {
    /// The number in decimal.
    fn from(other: u64) -> (r: Self)
        ensures
            r@ == nat_text(other as nat),
    {
        RBytes(Cow::Owned(decimal_bytes(other as u128)))
    }
}

/// What the conversion returns is said by the contract of `from`, and not by
/// a function of the value.
impl<'a> FromSpecImpl<u64> for RBytes<'a> {
    open spec fn obeys_from_spec() -> bool {
        false
    }

    open spec fn from_spec(v: u64) -> Self {
        arbitrary()
    }
}

impl<'a> From<u32> for RBytes<'a> {
    /// The number in decimal.
    fn from(other: u32) -> (r: Self)
        ensures
            r@ == nat_text(other as nat),
    {
        RBytes(Cow::Owned(decimal_bytes(other as u128)))
    }
}

/// What the conversion returns is said by the contract of `from`, and not by
/// a function of the value.
impl<'a> FromSpecImpl<u32> for RBytes<'a> {
    open spec fn obeys_from_spec() -> bool {
        false
    }

    open spec fn from_spec(v: u32) -> Self {
        arbitrary()
    }
}

impl<'a> From<u16> for RBytes<'a> {
    /// The number in decimal.
    fn from(other: u16) -> (r: Self)
        ensures
            r@ == nat_text(other as nat),
    {
        RBytes(Cow::Owned(decimal_bytes(other as u128)))
    }
}

/// What the conversion returns is said by the contract of `from`, and not by
/// a function of the value.
impl<'a> FromSpecImpl<u16> for RBytes<'a> {
    open spec fn obeys_from_spec() -> bool {
        false
    }

    open spec fn from_spec(v: u16) -> Self {
        arbitrary()
    }
}

impl<'a> From<u8> for RBytes<'a> {
    /// The number in decimal.
    fn from(other: u8) -> (r: Self)
        ensures
            r@ == nat_text(other as nat),
    {
        RBytes(Cow::Owned(decimal_bytes(other as u128)))
    }
}

/// What the conversion returns is said by the contract of `from`, and not by
/// a function of the value.
impl<'a> FromSpecImpl<u8> for RBytes<'a> {
    open spec fn obeys_from_spec() -> bool {
        false
    }

    open spec fn from_spec(v: u8) -> Self {
        arbitrary()
    }
}

} // verus!
