//! Verified text rendering of numbers: hexadecimal, decimal and binary
//! digit sequences, used by the fault reports and the register-read
//! command.

use vstd::prelude::*;
use vstd::string::StrSliceExecFns;

verus! {

/// The character for one digit value below 16.
pub open spec fn spec_digit(n: int) -> char {
    if n == 0 {
        '0'
    } else if n == 1 {
        '1'
    } else if n == 2 {
        '2'
    } else if n == 3 {
        '3'
    } else if n == 4 {
        '4'
    } else if n == 5 {
        '5'
    } else if n == 6 {
        '6'
    } else if n == 7 {
        '7'
    } else if n == 8 {
        '8'
    } else if n == 9 {
        '9'
    } else if n == 10 {
        'a'
    } else if n == 11 {
        'b'
    } else if n == 12 {
        'c'
    } else if n == 13 {
        'd'
    } else if n == 14 {
        'e'
    } else {
        'f'
    }
}

/// The last `n` base-`base` digits of `v`, most significant first,
/// zero-padded to exactly `n` characters.
pub open spec fn spec_digits(v: nat, base: nat, n: nat) -> Seq<char>
    decreases n,
{
    if n == 0 {
        Seq::empty()
    } else {
        spec_digits(v / base, base, (n - 1) as nat).push(spec_digit((v % base) as int))
    }
}

/// A `u64` rendered as `0x` followed by its 16 zero-padded hex digits.
pub open spec fn spec_hex_u64(v: u64) -> Seq<char> {
    seq!['0', 'x'] + spec_digits(v as nat, 16, 16)
}

/// A `u8` rendered as `0x` followed by its 2 zero-padded hex digits.
pub open spec fn spec_hex_u8(v: u8) -> Seq<char> {
    seq!['0', 'x'] + spec_digits(v as nat, 16, 2)
}

/// A `u64` rendered as `0b` followed by its 64 zero-padded binary digits.
pub open spec fn spec_bin_u64(v: u64) -> Seq<char> {
    seq!['0', 'b'] + spec_digits(v as nat, 2, 64)
}

/// A `u64` rendered in decimal without leading zeros (a single `0` for 0).
pub open spec fn spec_dec_u64(v: u64) -> Seq<char>
    decreases v,
{
    if v < 10 {
        seq![spec_digit(v as int)]
    } else {
        spec_dec_u64((v / 10) as u64).push(spec_digit((v % 10) as int))
    }
}

/// `true` or `false` as characters.
pub open spec fn spec_bool(b: bool) -> Seq<char> {
    if b {
        seq!['t', 'r', 'u', 'e']
    } else {
        seq!['f', 'a', 'l', 's', 'e']
    }
}

/// One digit character for a value below 16.
pub fn digit_char(n: u8) -> (r: char)
    requires
        n < 16,
    ensures
        r == spec_digit(n as int),
{
    match n {
        0 => '0',
        1 => '1',
        2 => '2',
        3 => '3',
        4 => '4',
        5 => '5',
        6 => '6',
        7 => '7',
        8 => '8',
        9 => '9',
        10 => 'a',
        11 => 'b',
        12 => 'c',
        13 => 'd',
        14 => 'e',
        _ => 'f',
    }
}

/// Append the last `n` base-`base` digits of `v`, most significant first.
pub fn push_digits(out: &mut Vec<char>, v: u64, base: u64, n: u8)
    requires
        2 <= base <= 16,
    ensures
        final(out)@ == old(out)@ + spec_digits(v as nat, base as nat, n as nat),
    decreases n,
{
    if n == 0 {
        proof {
            assert(old(out)@ + spec_digits(v as nat, base as nat, 0) =~= old(out)@);
        }
    } else {
        push_digits(out, v / base, base, n - 1);
        out.push(digit_char((v % base) as u8));
    }
}

/// Append a `u64` as `0x` and 16 zero-padded hex digits.
pub fn push_hex_u64(out: &mut Vec<char>, v: u64)
    ensures
        final(out)@ == old(out)@ + spec_hex_u64(v),
{
    out.push('0');
    out.push('x');
    push_digits(out, v, 16, 16);
    proof {
        assert(old(out)@ + spec_hex_u64(v) =~= old(out)@.push('0').push('x') + spec_digits(
            v as nat,
            16,
            16,
        ));
    }
}

/// Append a `u8` as `0x` and 2 zero-padded hex digits.
pub fn push_hex_u8(out: &mut Vec<char>, v: u8)
    ensures
        final(out)@ == old(out)@ + spec_hex_u8(v),
{
    out.push('0');
    out.push('x');
    push_digits(out, v as u64, 16, 2);
    proof {
        assert(old(out)@ + spec_hex_u8(v) =~= old(out)@.push('0').push('x') + spec_digits(
            v as nat,
            16,
            2,
        ));
    }
}

/// Append a `u64` as `0b` and 64 zero-padded binary digits.
pub fn push_bin_u64(out: &mut Vec<char>, v: u64)
    ensures
        final(out)@ == old(out)@ + spec_bin_u64(v),
{
    out.push('0');
    out.push('b');
    push_digits(out, v, 2, 64);
    proof {
        assert(old(out)@ + spec_bin_u64(v) =~= old(out)@.push('0').push('b') + spec_digits(
            v as nat,
            2,
            64,
        ));
    }
}

/// Append a `u64` in decimal without leading zeros.
pub fn push_dec_u64(out: &mut Vec<char>, v: u64)
    ensures
        final(out)@ == old(out)@ + spec_dec_u64(v),
    decreases v,
{
    if v < 10 {
        out.push(digit_char(v as u8));
        proof {
            assert(old(out)@ + spec_dec_u64(v) =~= old(out)@.push(spec_digit(v as int)));
        }
    } else {
        push_dec_u64(out, v / 10);
        out.push(digit_char((v % 10) as u8));
    }
}

/// Append the characters of a string.
pub fn push_str_chars(out: &mut Vec<char>, s: &str)
    ensures
        final(out)@ == old(out)@ + s@,
{
    let n = s.unicode_len();
    let mut i: usize = 0;
    while i < n
        invariant
            i <= n,
            n == s@.len(),
            out@ == old(out)@ + s@.subrange(0, i as int),
        decreases n - i,
    {
        out.push(s.get_char(i));
        proof {
            assert(old(out)@ + s@.subrange(0, i + 1) =~= (old(out)@ + s@.subrange(
                0,
                i as int,
            )).push(s@[i as int]));
        }
        i += 1;
    }
    proof {
        assert(s@.subrange(0, n as int) =~= s@);
        assert(out@ == old(out)@ + s@);
    }
}

/// Append `true` or `false`.
pub fn push_bool(out: &mut Vec<char>, b: bool)
    ensures
        final(out)@ == old(out)@ + spec_bool(b),
{
    if b {
        push_str_chars(out, "true");
        proof {
            reveal_strlit("true");
            assert("true"@ =~= spec_bool(true));
        }
    } else {
        push_str_chars(out, "false");
        proof {
            reveal_strlit("false");
            assert("false"@ =~= spec_bool(false));
        }
    }
}

} // verus!
