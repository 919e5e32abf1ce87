//! Fixed-width lower-case hexadecimal fields, as pagination cursors hold
//! them.

use vstd::prelude::*;

verus! {

/// `16` to the power `width`.
pub open spec fn pow16(width: nat) -> nat
    decreases width,
{
    if width == 0 {
        1
    } else {
        16 * pow16((width - 1) as nat)
    }
}

/// The character that writes the digit `d`, for `d < 16`.
pub open spec fn hex_digit(d: nat) -> u8 {
    if d < 10 {
        (48 + d) as u8
    } else {
        (87 + d) as u8
    }
}

/// Whether `c` is one of `0`..`9`, `a`..`f`.
pub open spec fn is_hex_digit(c: u8) -> bool {
    (48 <= c <= 57) || (97 <= c <= 102)
}

/// The digit that the character `c` writes.
pub open spec fn hex_digit_value(c: u8) -> nat {
    if c <= 57 {
        (c - 48) as nat
    } else {
        (c - 87) as nat
    }
}

/// Whether every character of `s` is a lower-case hexadecimal digit.
pub open spec fn all_hex(s: Seq<u8>) -> bool {
    forall|i: int| 0 <= i < s.len() ==> is_hex_digit(#[trigger] s[i])
}

/// `n` written with exactly `width` digits, most significant first. Digits
/// of `n` beyond `width` are dropped.
pub open spec fn hex_fixed(n: nat, width: nat) -> Seq<u8>
    decreases width,
{
    if width == 0 {
        Seq::empty()
    } else {
        hex_fixed(n / 16, (width - 1) as nat).push(hex_digit(n % 16))
    }
}

/// The number that the digits `s` write, most significant first.
pub open spec fn hex_value(s: Seq<u8>) -> nat
    decreases s.len(),
{
    if s.len() == 0 {
        0
    } else {
        hex_value(s.drop_last()) * 16 + hex_digit_value(s.last())
    }
}

/// A field of `width` digits has `width` characters, all of them digits.
pub proof fn lemma_hex_fixed_shape(n: nat, width: nat)
    ensures
        hex_fixed(n, width).len() == width,
        all_hex(hex_fixed(n, width)),
    decreases width,
{
    if width > 0 {
        lemma_hex_fixed_shape(n / 16, (width - 1) as nat);
    }
}

/// Reading a field gives back the number that was written, as long as the
/// number fits the width.
pub proof fn lemma_hex_value_of_fixed(n: nat, width: nat)
    requires
        n < pow16(width),
    ensures
        hex_value(hex_fixed(n, width)) == n,
    decreases width,
{
    if width > 0 {
        let rest = hex_fixed(n / 16, (width - 1) as nat);
        lemma_hex_value_of_fixed(n / 16, (width - 1) as nat);
        assert(hex_fixed(n, width).drop_last() == rest);
    }
}

/// What a run of digits writes is below `16` to the power of its length.
pub proof fn lemma_hex_value_bound(s: Seq<u8>)
    requires
        all_hex(s),
    ensures
        hex_value(s) < pow16(s.len()),
    decreases s.len(),
{
    if s.len() > 0 {
        lemma_hex_value_bound(s.drop_last());
        assert(is_hex_digit(s[s.len() - 1]));
    }
}

/// Writing what a run of digits reads as, at the same width, gives the run
/// back: every number has one spelling per width.
pub proof fn lemma_hex_fixed_of_value(s: Seq<u8>)
    requires
        all_hex(s),
    ensures
        hex_fixed(hex_value(s), s.len()) == s,
    decreases s.len(),
{
    if s.len() > 0 {
        let c = s.last();
        assert(is_hex_digit(s[s.len() - 1]));
        lemma_hex_fixed_of_value(s.drop_last());
        let v = hex_value(s);
        assert(v / 16 == hex_value(s.drop_last()));
        assert(hex_digit(v % 16) == c);
        assert(hex_fixed(v, s.len()) == s.drop_last().push(c));
        assert(s.drop_last().push(c) =~= s);
    } else {
        assert(hex_fixed(hex_value(s), s.len()) =~= s);
    }
}

/// A higher power of `16` is no smaller.
pub proof fn lemma_pow16_monotonic(a: nat, b: nat)
    requires
        a <= b,
    ensures
        pow16(a) <= pow16(b),
        pow16(a) >= 1,
    decreases b,
{
    if a < b {
        lemma_pow16_monotonic(a, (b - 1) as nat);
    } else if a > 0 {
        lemma_pow16_monotonic((a - 1) as nat, (a - 1) as nat);
    }
}

/// The widths that cursors use, as numbers.
pub proof fn lemma_pow16_values()
    ensures
        pow16(2) == 0x100,
        pow16(8) == 0x1_0000_0000,
        pow16(16) == 0x1_0000_0000_0000_0000,
{
    reveal_with_fuel(pow16, 17);
}

/// Appends `n` to `out` as a field of `width` digits.
pub fn push_hex(out: &mut Vec<u8>, n: u64, width: u8)
    ensures
        final(out)@ == old(out)@ + hex_fixed(n as nat, width as nat),
    decreases width,
{
    if width > 0 {
        push_hex(out, n / 16, width - 1);
        let d: u8 = (n % 16) as u8;
        let c: u8 = if d < 10 {
            48 + d
        } else {
            87 + d
        };
        out.push(c);
        assert(out@ =~= old(out)@ + hex_fixed(n as nat, width as nat));
    } else {
        assert(out@ =~= old(out)@ + hex_fixed(n as nat, width as nat));
    }
}

/// Reads the field of `width` digits that starts at `start`. `None` means
/// that some character of it is not a lower-case hexadecimal digit.
pub fn parse_hex(bytes: &Vec<u8>, start: usize, width: u8) -> (value: Option<u64>)
    requires
        start + width <= bytes.len(),
        width <= 16,
    ensures
        value is Some <==> all_hex(bytes@.subrange(start as int, start + width)),
        value matches Some(v) ==> v == hex_value(bytes@.subrange(start as int, start + width)),
{
    let ghost field = bytes@.subrange(start as int, start + width);
    let mut acc: u64 = 0;
    let mut i: u8 = 0;
    while i < width
        invariant
            i <= width <= 16,
            start + width <= bytes.len(),
            field == bytes@.subrange(start as int, start + width),
            all_hex(field.take(i as int)),
            acc == hex_value(field.take(i as int)),
        decreases width - i,
    {
        let c: u8 = bytes[start + i as usize];
        assert(c == field[i as int]);
        let d: u8 = if 48 <= c && c <= 57 {
            c - 48
        } else if 97 <= c && c <= 102 {
            c - 87
        } else {
            assert(!is_hex_digit(field[i as int]));
            return None;
        };
        proof {
            let prefix = field.take(i as int);
            let next = field.take(i + 1);
            assert(next.drop_last() =~= prefix);
            assert(next.last() == c);
            lemma_hex_value_bound(prefix);
            lemma_pow16_monotonic(i as nat, 15);
            lemma_pow16_values();
            assert forall|j: int| 0 <= j < next.len() implies is_hex_digit(#[trigger] next[j]) by {
                if j < i {
                    assert(next[j] == prefix[j]);
                }
            }
        }
        acc = acc * 16 + d as u64;
        i = i + 1;
    }
    assert(field.take(width as int) =~= field);
    Some(acc)
}

} // verus!
