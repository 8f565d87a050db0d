//! Text helpers: decimal numbers as bytes, and base64.

use vstd::prelude::*;
use vstd::utf8::{encode_scalar, encode_utf8};

verus! {

/// The decimal digits of a natural number, as ASCII bytes.
pub open spec fn decimal_digits(n: nat) -> Seq<u8>
    decreases n,
{
    if n < 10 {
        seq![(48 + n) as u8]
    } else {
        decimal_digits(n / 10).push((48 + n % 10) as u8)
    }
}

/// The decimal text of an integer, as ASCII bytes: a minus sign before the
/// digits of a negative number.
pub open spec fn decimal(n: int) -> Seq<u8> {
    if n < 0 {
        seq![45u8] + decimal_digits((-n) as nat)
    } else {
        decimal_digits(n as nat)
    }
}

/// Appends the decimal text of `n` to `out`.
pub fn push_decimal(out: &mut Vec<u8>, n: i64)
    ensures
        final(out)@ == old(out)@ + decimal(n as int),
{
    let mut magnitude: u64 = if n < 0 {
        out.push(45u8);
        if n == i64::MIN {
            9223372036854775808u64
        } else {
            (-n) as u64
        }
    } else {
        n as u64
    };
    let ghost start = out@;
    let ghost whole = magnitude as nat;
    let mut reversed: Vec<u8> = Vec::new();
    while magnitude >= 10
        invariant
            decimal_digits(whole) == decimal_digits(magnitude as nat) + reversed@.reverse(),
        decreases magnitude,
    {
        let digit: u8 = (48 + magnitude % 10) as u8;
        proof {
            let before = reversed@;
            assert(decimal_digits(magnitude as nat) == decimal_digits(
                (magnitude / 10) as nat,
            ).push(digit));
            assert(before.push(digit).reverse() =~= seq![digit] + before.reverse());
            assert(decimal_digits((magnitude / 10) as nat).push(digit) + before.reverse()
                =~= decimal_digits((magnitude / 10) as nat) + (seq![digit] + before.reverse()));
        }
        reversed.push(digit);
        magnitude = magnitude / 10;
    }
    out.push((48 + magnitude) as u8);
    assert(decimal_digits(magnitude as nat) == seq![(48 + magnitude) as u8]);
    let mut i: usize = reversed.len();
    while i > 0
        invariant
            i <= reversed@.len(),
            out@ == start + decimal_digits(magnitude as nat) + reversed@.reverse().take(
                reversed@.len() - i,
            ),
        decreases i,
    {
        i = i - 1;
        let ghost done = reversed@.len() - i - 1;
        assert(reversed@.reverse().take(done + 1) =~= reversed@.reverse().take(done).push(
            reversed@[i as int],
        ));
        out.push(reversed[i]);
    }
    assert(reversed@.reverse().take(reversed@.len() as int) =~= reversed@.reverse());
    assert(out@ =~= old(out)@ + decimal(n as int));
}

/// What `base64::decode` makes of text in the standard alphabet; none where
/// it refuses the text.
pub uninterp spec fn base64_decoded(encoded: Seq<u8>) -> Option<Seq<u8>>;

/// `base64::decode`. Claims only that the outcome is a function of the
/// input: the bytes decoded are `base64_decoded` of it, and an error means
/// there are none. The input is kept short of the length at which
/// `base64::decode` gives up on sizing its buffer.
#[verifier::external_body]
pub(crate) fn base64_decode(encoded: &[u8]) -> (r: Option<Vec<u8>>)
    requires
        encoded@.len() + 3 <= usize::MAX,
    ensures
        match r {
            Some(bytes) => base64_decoded(encoded@) == Some(bytes@),
            None => base64_decoded(encoded@) is None,
        },
{
    base64::decode(encoded).ok()
}

/// The number that a string of decimal digits stands for.
pub open spec fn digits_value(digits: Seq<u8>) -> nat
    decreases digits.len(),
{
    if digits.len() == 0 {
        0
    } else {
        digits_value(digits.drop_last()) * 10 + (digits.last() - 48) as nat
    }
}

/// The digits of a number are digits, there is at least one of them, and
/// they stand for the number.
pub proof fn lemma_decimal_digits(n: nat)
    ensures
        decimal_digits(n).len() >= 1,
        forall|i: int| 0 <= i < decimal_digits(n).len() ==> 48 <= #[trigger] decimal_digits(n)[i] <= 57,
        digits_value(decimal_digits(n)) == n,
    decreases n,
{
    if n < 10 {
        let digits = decimal_digits(n);
        assert(digits.len() == 1 && digits.last() == (48 + n) as u8);
        assert(digits.drop_last() =~= Seq::<u8>::empty());
        assert(digits_value(digits.drop_last()) == 0);
    } else {
        lemma_decimal_digits(n / 10);
        let before = decimal_digits(n / 10);
        let last = (48 + n % 10) as u8;
        assert(decimal_digits(n) == before.push(last));
        assert(before.push(last).drop_last() =~= before);
        assert(before.push(last).last() == last);
        assert(digits_value(before.push(last)) == digits_value(before) * 10 + (last - 48) as nat);
    }
}

/// Two integers with the same decimal text are the same integer.
pub proof fn lemma_decimal_injective(x: int, y: int)
    requires
        decimal(x) == decimal(y),
    ensures
        x == y,
{
    let dx = decimal_digits((if x < 0 { -x } else { x }) as nat);
    let dy = decimal_digits((if y < 0 { -y } else { y }) as nat);
    lemma_decimal_digits((if x < 0 { -x } else { x }) as nat);
    lemma_decimal_digits((if y < 0 { -y } else { y }) as nat);
    if x < 0 {
        assert(decimal(x)[0] == 45u8);
        if y < 0 {
            assert(dx =~= decimal(x).skip(1));
            assert(dy =~= decimal(y).skip(1));
        } else {
            assert(decimal(y)[0] == dy[0]);
        }
    } else {
        if y < 0 {
            assert(decimal(y)[0] == 45u8);
            assert(decimal(x)[0] == dx[0]);
        }
    }
}

/// The decimal text of an integer holds no colon.
pub proof fn lemma_decimal_has_no_colon(n: int)
    ensures
        forall|i: int| 0 <= i < decimal(n).len() ==> #[trigger] decimal(n)[i] != 58u8,
{
    lemma_decimal_digits((if n < 0 { -n } else { n }) as nat);
    if n < 0 {
        let digits = decimal_digits((-n) as nat);
        assert forall|i: int| 0 <= i < decimal(n).len() implies #[trigger] decimal(n)[i]
            != 58u8 by {
            if i > 0 {
                assert(decimal(n)[i] == digits[i - 1]);
            }
        }
    }
}

/// Whether a text holds no colon.
pub open spec fn colon_free(text: Seq<char>) -> bool {
    forall|i: int| 0 <= i < text.len() ==> #[trigger] text[i] != ':'
}

proof fn lemma_scalar_bytes(v: u32)
    by (bit_vector)
    requires
        v != 58u32,
    ensures
        v <= 0x7F ==> (v & 0x7F) as u8 != 58u8,
        (0xC0u8 | ((v >> 6) & 0x1F) as u8) != 58u8,
        (0xE0u8 | ((v >> 12) & 0x0F) as u8) != 58u8,
        (0xF0u8 | ((v >> 18) & 0x7) as u8) != 58u8,
        (0x80u8 | (v & 0x3F) as u8) != 58u8,
        (0x80u8 | ((v >> 6) & 0x3F) as u8) != 58u8,
        (0x80u8 | ((v >> 12) & 0x3F) as u8) != 58u8,
{
}

/// The UTF-8 bytes of a text without a colon hold no colon byte.
pub proof fn lemma_colon_free_bytes(text: Seq<char>)
    requires
        colon_free(text),
    ensures
        forall|i: int|
            0 <= i < encode_utf8(text).len() ==> #[trigger] encode_utf8(text)[i] != 58u8,
    decreases text.len(),
{
    if text.len() > 0 {
        let v = text[0] as u32;
        let first = encode_scalar(v);
        let rest = text.drop_first();
        assert(text[0] != ':');
        assert(v != 58u32) by {
            assert(':' as u32 == 58u32);
            vstd::utf8::char_u32_cast(':', 58u32);
            vstd::utf8::char_u32_cast(text[0], v);
        }
        vstd::utf8::char_is_scalar(text[0]);
        lemma_scalar_bytes(v);
        assert(colon_free(rest)) by {
            assert forall|i: int| 0 <= i < rest.len() implies #[trigger] rest[i] != ':' by {
                assert(rest[i] == text[i + 1]);
            }
        }
        lemma_colon_free_bytes(rest);
        assert forall|i: int| 0 <= i < first.len() implies first[i] != 58u8 by {}
        assert forall|i: int| 0 <= i < encode_utf8(text).len() implies #[trigger] encode_utf8(
            text,
        )[i] != 58u8 by {
            if i >= first.len() {
                assert(encode_utf8(text)[i] == encode_utf8(rest)[i - first.len()]);
            } else {
                assert(encode_utf8(text)[i] == first[i]);
            }
        }
    }
}

/// Two texts with the same UTF-8 bytes are the same text.
pub proof fn lemma_utf8_injective(a: Seq<char>, b: Seq<char>)
    requires
        encode_utf8(a) == encode_utf8(b),
    ensures
        a == b,
{
    vstd::utf8::encode_utf8_decode_utf8(a);
    vstd::utf8::encode_utf8_decode_utf8(b);
}

/// Whether a byte string holds no colon byte.
pub open spec fn no_colon_byte(bytes: Seq<u8>) -> bool {
    forall|i: int| 0 <= i < bytes.len() ==> #[trigger] bytes[i] != 58u8
}

/// Two equal byte strings, each ending in a colon and a last field that
/// holds no colon, agree on the last field and on what comes before the
/// colon.
pub proof fn lemma_split_at_last_colon(a: Seq<u8>, x: Seq<u8>, b: Seq<u8>, y: Seq<u8>)
    requires
        no_colon_byte(x),
        no_colon_byte(y),
        a + seq![58u8] + x == b + seq![58u8] + y,
    ensures
        a == b,
        x == y,
{
    let whole = a + seq![58u8] + x;
    let other = b + seq![58u8] + y;
    assert(whole.len() == a.len() + 1 + x.len());
    assert(other.len() == b.len() + 1 + y.len());
    assert((a + seq![58u8])[a.len() as int] == 58u8);
    assert((b + seq![58u8])[b.len() as int] == 58u8);
    assert(whole[a.len() as int] == 58u8);
    assert(other[b.len() as int] == 58u8);
    if a.len() < b.len() {
        assert(whole[b.len() as int] == x[b.len() - a.len() - 1]);
        assert(x[b.len() - a.len() - 1] != 58u8);
        assert(false);
    }
    if b.len() < a.len() {
        assert(other[a.len() as int] == y[a.len() - b.len() - 1]);
        assert(y[a.len() - b.len() - 1] != 58u8);
        assert(false);
    }
    assert(a =~= whole.take(a.len() as int));
    assert(b =~= other.take(b.len() as int));
    assert(x =~= whole.skip(a.len() as int + 1));
    assert(y =~= other.skip(b.len() as int + 1));
}

} // verus!
