//! Hexadecimal rendering, used for the objcopy section plan (lowercase, as
//! the `{:#x}` notation writes it) and for cpio archive headers (eight
//! uppercase digits, fixed width).

use vstd::prelude::*;

verus! {

/// The lowercase hexadecimal digit for a value below 16.
pub open spec fn spec_hex_digit(d: nat) -> char {
    if d == 0 {
        '0'
    } else if d == 1 {
        '1'
    } else if d == 2 {
        '2'
    } else if d == 3 {
        '3'
    } else if d == 4 {
        '4'
    } else if d == 5 {
        '5'
    } else if d == 6 {
        '6'
    } else if d == 7 {
        '7'
    } else if d == 8 {
        '8'
    } else if d == 9 {
        '9'
    } else if d == 10 {
        'a'
    } else if d == 11 {
        'b'
    } else if d == 12 {
        'c'
    } else if d == 13 {
        'd'
    } else if d == 14 {
        'e'
    } else {
        'f'
    }
}

/// The lowercase hexadecimal digits of a number, most significant first,
/// without leading zeroes ("0" for zero itself).
pub open spec fn spec_hex_digits(n: nat) -> Seq<char>
    decreases n,
{
    if n < 16 {
        seq![spec_hex_digit(n)]
    } else {
        spec_hex_digits(n / 16).push(spec_hex_digit(n % 16))
    }
}

fn hex_digit_char(d: u64) -> (c: char)
    requires
        d < 16,
    ensures
        c == spec_hex_digit(d as nat),
{
    if d == 0 {
        '0'
    } else if d == 1 {
        '1'
    } else if d == 2 {
        '2'
    } else if d == 3 {
        '3'
    } else if d == 4 {
        '4'
    } else if d == 5 {
        '5'
    } else if d == 6 {
        '6'
    } else if d == 7 {
        '7'
    } else if d == 8 {
        '8'
    } else if d == 9 {
        '9'
    } else if d == 10 {
        'a'
    } else if d == 11 {
        'b'
    } else if d == 12 {
        'c'
    } else if d == 13 {
        'd'
    } else if d == 14 {
        'e'
    } else {
        'f'
    }
}

/// Relies on String::push of std: appends exactly the given character.
#[verifier::external_body]
pub(crate) fn push_char(s: &mut String, c: char)
    ensures
        final(s)@ == old(s)@.push(c),
{
    s.push(c);
}

/// The number written in lowercase hexadecimal, without a prefix.
pub fn hex_string(n: u64) -> (r: String)
    ensures
        r@ == spec_hex_digits(n as nat),
    decreases n,
{
    if n < 16 {
        let mut r = String::new();
        push_char(&mut r, hex_digit_char(n));
        proof {
            assert(r@ =~= spec_hex_digits(n as nat));
        }
        r
    } else {
        let mut r = hex_string(n / 16);
        push_char(&mut r, hex_digit_char(n % 16));
        r
    }
}

/// The uppercase hexadecimal digit for a value below 16, as an ASCII byte.
pub open spec fn spec_hex_byte(d: nat) -> u8 {
    if d < 10 {
        (48 + d) as u8  // '0' is 48
    } else {
        (65 + (d - 10)) as u8  // 'A' is 65
    }
}

/// A 32-bit value as eight uppercase hexadecimal ASCII bytes, most
/// significant digit first: the fixed-width field form of a cpio header.
pub open spec fn spec_hex8(n: u32) -> Seq<u8> {
    seq![
        spec_hex_byte(((n >> 28u32) & 0xf) as nat),
        spec_hex_byte(((n >> 24u32) & 0xf) as nat),
        spec_hex_byte(((n >> 20u32) & 0xf) as nat),
        spec_hex_byte(((n >> 16u32) & 0xf) as nat),
        spec_hex_byte(((n >> 12u32) & 0xf) as nat),
        spec_hex_byte(((n >> 8u32) & 0xf) as nat),
        spec_hex_byte(((n >> 4u32) & 0xf) as nat),
        spec_hex_byte((n & 0xf) as nat),
    ]
}

fn hex_byte(d: u32) -> (b: u8)
    requires
        d < 16,
    ensures
        b == spec_hex_byte(d as nat),
{
    if d < 10 {
        48 + (d as u8)
    } else {
        65 + ((d - 10) as u8)
    }
}

fn nibble(n: u32, sh: u32) -> (d: u32)
    requires
        sh <= 28,
    ensures
        d == (n >> sh) & 0xf,
        d < 16,
{
    let d: u32 = (n >> sh) & 0xf;
    assert(d < 16) by (bit_vector)
        requires
            d == (n >> sh) & 0xf,
    ;
    d
}

/// Append the eight-digit uppercase hexadecimal form of `n` to `buf`.
pub fn push_hex8(buf: &mut Vec<u8>, n: u32)
    ensures
        final(buf)@ == old(buf)@ + spec_hex8(n),
{
    buf.push(hex_byte(nibble(n, 28)));
    buf.push(hex_byte(nibble(n, 24)));
    buf.push(hex_byte(nibble(n, 20)));
    buf.push(hex_byte(nibble(n, 16)));
    buf.push(hex_byte(nibble(n, 12)));
    buf.push(hex_byte(nibble(n, 8)));
    buf.push(hex_byte(nibble(n, 4)));
    buf.push(hex_byte(nibble(n, 0)));
    proof {
        assert((n >> 0u32) & 0xf == n & 0xf) by (bit_vector);
        assert(buf@ =~= old(buf)@ + spec_hex8(n));
    }
}

} // verus!
