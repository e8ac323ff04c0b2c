//! Decimal ASCII text: how integers are written into request frames and how
//! the digits of a response are read back as a number.
use vstd::prelude::*;

verus! {

/// The ASCII code of `'0'`.
pub const ZERO: u8 = 48;

/// The ASCII code of `'-'`.
pub const MINUS: u8 = 45;

/// The ASCII code of `'+'`.
pub const PLUS: u8 = 43;

/// The ASCII digit that stands for `d`, for `0 <= d <= 9`.
pub open spec fn digit(d: int) -> u8 {
    (48 + d) as u8
}

/// The decimal text of a natural number: no sign, no leading zeros.
pub open spec fn nat_text(n: nat) -> Seq<u8>
    decreases n,
{
    if n < 10 {
        seq![digit(n as int)]
    } else {
        nat_text(n / 10).push(digit((n % 10) as int))
    }
}

/// The decimal text of an integer: a `'-'` in front of the magnitude of a
/// negative number, and nothing in front of the others.
pub open spec fn int_text(n: int) -> Seq<u8> {
    if n < 0 {
        seq![MINUS] + nat_text((-n) as nat)
    } else {
        nat_text(n as nat)
    }
}

/// True when `b` is one of the ASCII digits `'0'..='9'`.
pub open spec fn is_digit(b: u8) -> bool {
    48 <= b <= 57
}

/// True when every byte of `text` is an ASCII digit.
pub open spec fn all_digits(text: Seq<u8>) -> bool {
    forall|i: int| 0 <= i < text.len() ==> is_digit(#[trigger] text[i])
}

/// The number that a run of ASCII digits stands for, read most significant
/// digit first. The empty run stands for zero.
pub open spec fn digits_value(text: Seq<u8>) -> nat
    decreases text.len(),
{
    if text.len() == 0 {
        0
    } else {
        (digits_value(text.drop_last()) * 10 + (text.last() - 48)) as nat
    }
}

/// The integer that `text` denotes in decimal, if it denotes one: an optional
/// `'+'`, or for signed targets an optional `'-'`, followed by at least one
/// digit and nothing else.
pub open spec fn decimal_value(text: Seq<u8>, signed: bool) -> Option<int> {
    if text.len() == 0 {
        None
    } else {
        let negative = signed && text[0] == MINUS;
        let body = if text[0] == PLUS || negative {
            text.subrange(1, text.len() as int)
        } else {
            text
        };
        if body.len() == 0 || !all_digits(body) {
            None
        } else if negative {
            Some(-(digits_value(body) as int))
        } else {
            Some(digits_value(body) as int)
        }
    }
}

/// The integer that `text` denotes, when it denotes one that lies in
/// `lo..=hi`.
pub open spec fn decimal_in_range(text: Seq<u8>, signed: bool, lo: int, hi: int) -> Option<int> {
    match decimal_value(text, signed) {
        Some(v) => if lo <= v <= hi {
            Some(v)
        } else {
            None
        },
        None => None,
    }
}

/// The decimal text of a natural number is a non-empty run of digits that
/// stands for that number.
pub proof fn lemma_nat_text_digits(n: nat)
    ensures
        nat_text(n).len() >= 1,
        all_digits(nat_text(n)),
        digits_value(nat_text(n)) == n,
    decreases n,
{
    if n < 10 {
        let t = nat_text(n);
        assert(t.drop_last() =~= Seq::<u8>::empty());
        assert(digits_value(t.drop_last()) == 0);
    } else {
        lemma_nat_text_digits(n / 10);
        let head = nat_text(n / 10);
        let t = nat_text(n);
        assert(t == head.push(digit((n % 10) as int)));
        assert(t.drop_last() =~= head);
        assert(t.last() == digit((n % 10) as int));
        assert forall|i: int| 0 <= i < t.len() implies is_digit(#[trigger] t[i]) by {
            if i < head.len() {
                assert(t[i] == head[i]);
            }
        }
    }
}

/// Reading back the decimal text of an integer gives that integer, whether
/// or not the reader accepts a sign, as long as the integer is not negative
/// when it does not.
pub proof fn lemma_decimal_value_of_text(n: int, signed: bool)
    requires
        signed || n >= 0,
    ensures
        decimal_value(int_text(n), signed) == Some(n),
{
    if n < 0 {
        let m = (-n) as nat;
        lemma_nat_text_digits(m);
        let t = int_text(n);
        assert(t.subrange(1, t.len() as int) =~= nat_text(m));
    } else {
        lemma_nat_text_digits(n as nat);
        let t = int_text(n);
        assert(is_digit(t[0]));
    }
}

/// No byte of the decimal text of an integer is a control character or lies
/// outside ASCII: each is a digit or the minus sign.
pub proof fn lemma_int_text_bytes(n: int)
    ensures
        int_text(n).len() >= 1,
        forall|i: int|
            0 <= i < int_text(n).len() ==> is_digit(#[trigger] int_text(n)[i]) || int_text(n)[i]
                == MINUS,
{
    if n < 0 {
        lemma_nat_text_digits((-n) as nat);
    } else {
        lemma_nat_text_digits(n as nat);
    }
}

/// Appends the decimal text of `n` to `out`.
pub fn push_decimal(out: &mut Vec<u8>, n: u128)
    ensures
        final(out)@ == old(out)@ + nat_text(n as nat),
    decreases n,
{
    if n >= 10 {
        push_decimal(out, n / 10);
    }
    let d: u8 = (n % 10) as u8;
    out.push(ZERO + d);
    proof {
        if n >= 10 {
            assert(final(out)@ =~= old(out)@ + nat_text(n as nat));
        } else {
            assert(final(out)@ =~= old(out)@ + nat_text(n as nat));
        }
    }
}

/// Appends the decimal text of `n` to `out`, with a leading `'-'` when `n`
/// is negative.
pub fn push_signed_decimal(out: &mut Vec<u8>, n: i128)
    ensures
        final(out)@ == old(out)@ + int_text(n as int),
{
    if n < 0 {
        out.push(MINUS);
        let magnitude: u128 = if n == i128::MIN {
            0x8000_0000_0000_0000_0000_0000_0000_0000u128
        } else {
            (-n) as u128
        };
        push_decimal(out, magnitude);
        assert(final(out)@ =~= old(out)@ + int_text(n as int));
    } else {
        push_decimal(out, n as u128);
    }
}

/// The decimal text of `n` as a fresh byte vector.
pub fn decimal_bytes(n: u128) -> (text: Vec<u8>)
    ensures
        text@ == nat_text(n as nat),
{
    let mut text = Vec::new();
    push_decimal(&mut text, n);
    assert(text@ =~= nat_text(n as nat));
    text
}

/// The decimal text of the signed number `n` as a fresh byte vector.
pub fn signed_decimal_bytes(n: i128) -> (text: Vec<u8>)
    ensures
        text@ == int_text(n as int),
{
    let mut text = Vec::new();
    push_signed_decimal(&mut text, n);
    assert(text@ =~= int_text(n as int));
    text
}

} // verus!
