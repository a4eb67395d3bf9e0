//! Numbers on the wire: every field wider than a byte is sent most
//! significant byte first.
use vstd::prelude::*;

verus! {

/// The number that two bytes stand for, the more significant one first.
pub open spec fn u16_from_be(high: u8, low: u8) -> u16 {
    (high as nat * 256 + low as nat) as u16
}

/// The number that three bytes stand for, the most significant one first.
pub open spec fn u24_from_be(high: u8, middle: u8, low: u8) -> u32 {
    (high as nat * 65536 + middle as nat * 256 + low as nat) as u32
}

/// The two bytes of a 16-bit number, the more significant one first.
pub open spec fn u16_be_bytes(value: u16) -> Seq<u8> {
    seq![(value / 256) as u8, (value % 256) as u8]
}

/// The three least significant bytes of a number, the most significant of
/// them first. The highest byte of the number is dropped.
pub open spec fn u24_be_bytes(value: u32) -> Seq<u8> {
    seq![((value / 65536) % 256) as u8, ((value / 256) % 256) as u8, (value % 256) as u8]
}

/// The number that a sequence of bytes stands for, the most significant
/// byte first.
pub open spec fn be_value(bytes: Seq<u8>) -> nat
    decreases bytes.len(),
{
    if bytes.len() == 0 {
        0
    } else {
        256 * be_value(bytes.drop_last()) + bytes.last() as nat
    }
}

/// The `width` least significant bytes of `value`, the most significant of
/// them first. A width that is larger than the value needs gives leading
/// zero bytes; a smaller one drops the value's upper bytes.
pub open spec fn be_bytes(value: nat, width: nat) -> Seq<u8>
    decreases width,
{
    if width == 0 {
        Seq::empty()
    } else {
        be_bytes(value / 256, (width - 1) as nat).push((value % 256) as u8)
    }
}

/// The least number of bytes that can hold `value`: none for zero.
pub open spec fn significant_bytes(value: nat) -> nat
    decreases value,
{
    if value == 0 {
        0
    } else {
        1 + significant_bytes(value / 256)
    }
}

/// 256 to the power of `exponent`.
pub open spec fn pow256(exponent: nat) -> nat
    decreases exponent,
{
    if exponent == 0 {
        1
    } else {
        256 * pow256((exponent - 1) as nat)
    }
}

/// `be_bytes` gives as many bytes as asked for.
pub proof fn lemma_be_bytes_len(value: nat, width: nat)
    ensures
        be_bytes(value, width).len() == width,
    decreases width,
{
    if width > 0 {
        lemma_be_bytes_len(value / 256, (width - 1) as nat);
    }
}

/// A value fits into `width` bytes exactly when it is below 256 to the
/// power of `width`.
pub proof fn lemma_significant_bytes_bound(value: nat, width: nat)
    ensures
        significant_bytes(value) <= width <==> value < pow256(width),
    decreases width,
{
    if width == 0 {
    } else if value == 0 {
        lemma_pow256_positive(width);
    } else {
        lemma_significant_bytes_bound(value / 256, (width - 1) as nat);
    }
}

/// No power of 256 is zero.
pub proof fn lemma_pow256_positive(exponent: nat)
    ensures
        pow256(exponent) > 0,
    decreases exponent,
{
    if exponent > 0 {
        lemma_pow256_positive((exponent - 1) as nat);
    }
}

/// Decoding what `be_bytes` encoded gives the value back, as far as the
/// width held it.
pub proof fn lemma_be_value_of_be_bytes(value: nat, width: nat)
    ensures
        be_value(be_bytes(value, width)) == value % pow256(width),
        significant_bytes(value) <= width ==> be_value(be_bytes(value, width)) == value,
    decreases width,
{
    lemma_pow256_positive(width);
    lemma_significant_bytes_bound(value, width);
    if width == 0 {
    } else {
        let rest = be_bytes(value / 256, (width - 1) as nat);
        let low = (value % 256) as u8;
        lemma_be_value_of_be_bytes(value / 256, (width - 1) as nat);
        assert(be_bytes(value, width).drop_last() =~= rest);
        assert(be_bytes(value, width).last() == low);
        let p = pow256((width - 1) as nat);
        lemma_pow256_positive((width - 1) as nat);
        assert(256 * ((value / 256) % p) + value % 256 == value % (256 * p)) by {
            vstd::arithmetic::div_mod::lemma_breakdown(value as int, 256, p as int);
            vstd::arithmetic::div_mod::lemma_fundamental_div_mod(value as int, 256);
        }
    }
    if significant_bytes(value) <= width {
        vstd::arithmetic::div_mod::lemma_small_mod(value, pow256(width));
    }
}

/// The two bytes of a 16-bit number, decoded again, give the number, and
/// they are what `be_bytes` gives for the width two.
pub proof fn lemma_u16_round_trip(value: u16)
    ensures
        u16_from_be(u16_be_bytes(value)[0], u16_be_bytes(value)[1]) == value,
        u16_be_bytes(value) == be_bytes(value as nat, 2),
{
    reveal_with_fuel(be_bytes, 3);
    assert(be_bytes(value as nat, 2) =~= u16_be_bytes(value));
}

/// The three bytes of a number, decoded again, give the number without what
/// lay above its lowest 24 bits, and they are what `be_bytes` gives for the
/// width three.
pub proof fn lemma_u24_round_trip(value: u32)
    ensures
        u24_from_be(u24_be_bytes(value)[0], u24_be_bytes(value)[1], u24_be_bytes(value)[2])
            == value % 0x100_0000,
        u24_be_bytes(value) == be_bytes(value as nat, 3),
{
    reveal_with_fuel(be_bytes, 4);
    assert(be_bytes(value as nat, 3) =~= u24_be_bytes(value));
}

/// Decodes two bytes, the more significant one first.
pub fn read_u16_be(high: u8, low: u8) -> (value: u16)
    ensures
        value == u16_from_be(high, low),
{
    (high as u16) * 256 + (low as u16)
}

/// Decodes three bytes, the most significant one first.
pub fn read_u24_be(high: u8, middle: u8, low: u8) -> (value: u32)
    ensures
        value == u24_from_be(high, middle, low),
{
    (high as u32) * 65536 + (middle as u32) * 256 + (low as u32)
}

/// Appends the `width` least significant bytes of `value` to `out`, the
/// most significant of them first.
pub fn append_be(out: &mut Vec<u8>, value: u64, width: u8)
    ensures
        final(out)@ == old(out)@ + be_bytes(value as nat, width as nat),
    decreases width,
{
    if width > 0 {
        append_be(out, value / 256, width - 1);
        out.push((value % 256) as u8);
        assert(out@ =~= old(out)@ + be_bytes(value as nat, width as nat));
    } else {
        assert(out@ =~= old(out)@ + be_bytes(value as nat, width as nat));
    }
}

/// The least number of bytes that can hold `value`.
pub fn byte_width(value: u64) -> (width: u8)
    ensures
        width == significant_bytes(value as nat),
        width <= 8,
{
    let mut rest: u64 = value;
    let mut width: u8 = 0;
    proof {
        reveal_with_fuel(pow256, 9);
        assert(pow256(8) == 0x1_0000_0000_0000_0000);
        lemma_significant_bytes_bound(value as nat, 8);
    }
    while rest > 0
        invariant
            width + significant_bytes(rest as nat) == significant_bytes(value as nat),
            significant_bytes(value as nat) <= 8,
        decreases rest,
    {
        rest = rest / 256;
        width = width + 1;
    }
    width
}

} // verus!
