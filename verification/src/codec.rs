//! Text renderings used by the canonical serializations.
//!
//! Block headers and transaction records are hashed as text: unsigned and
//! signed integers appear in decimal, digests appear as lowercase
//! hexadecimal. These functions are verified against the spec functions
//! `dec_of_u64`, `dec_of_i64` and `hex_of`, which the hashing contracts are
//! stated over.

use vstd::prelude::*;

verus! {

/// The sixteen lowercase hexadecimal digit characters in value order; the
/// first ten double as the decimal digits.
pub const HEX_DIGITS: [char; 16] = [
    '0',
    '1',
    '2',
    '3',
    '4',
    '5',
    '6',
    '7',
    '8',
    '9',
    'a',
    'b',
    'c',
    'd',
    'e',
    'f',
];

/// Decimal rendering of an unsigned value, most significant digit first,
/// no leading zeros (a single `'0'` for zero).
pub open spec fn dec_of_u64(n: nat) -> Seq<char>
    decreases n,
{
    if n < 10 {
        seq![HEX_DIGITS@[n as int]]
    } else {
        dec_of_u64(n / 10).push(HEX_DIGITS@[(n % 10) as int])
    }
}

/// Decimal rendering of a signed value: a `'-'` sign for negative values,
/// then the decimal digits of the magnitude.
pub open spec fn dec_of_i64(n: int) -> Seq<char> {
    if n >= 0 {
        dec_of_u64(n as nat)
    } else {
        seq!['-'] + dec_of_u64((-n) as nat)
    }
}

/// Lowercase hexadecimal rendering of a byte sequence, two digits per byte.
pub open spec fn hex_of(data: Seq<u8>) -> Seq<char>
    decreases data.len(),
{
    if data.len() == 0 {
        seq![]
    } else {
        seq![
            HEX_DIGITS@[(data.first() / 16) as int],
            HEX_DIGITS@[(data.first() % 16) as int],
        ] + hex_of(data.drop_first())
    }
}

/// Relies on `String::push`: appends the given character to the end of the
/// string.
#[verifier::external_body]
fn push_char(s: &mut String, c: char)
    ensures
        final(s)@ == old(s)@.push(c),
{
    s.push(c);
}

/// Renders `n` in decimal, as `dec_of_u64` describes.
pub fn u64_to_dec(n: u64) -> (r: String)
    ensures
        r@ == dec_of_u64(n as nat),
    decreases n,
{
    if n < 10 {
        let mut s = String::new();
        push_char(&mut s, HEX_DIGITS[n as usize]);
        proof {
            assert(s@ =~= dec_of_u64(n as nat));
        }
        s
    } else {
        let mut s = u64_to_dec(n / 10);
        push_char(&mut s, HEX_DIGITS[(n % 10) as usize]);
        s
    }
}

/// Renders `n` in decimal, as `dec_of_i64` describes.
pub fn i64_to_dec(n: i64) -> (r: String)
    ensures
        r@ == dec_of_i64(n as int),
{
    if n >= 0 {
        u64_to_dec(n as u64)
    } else {
        let magnitude: u64 = (-(n as i128)) as u64;
        let mut s = String::new();
        push_char(&mut s, '-');
        let digits = u64_to_dec(magnitude);
        vstd::string::StringExecFns::append(&mut s, digits.as_str());
        proof {
            assert(magnitude as nat == (-(n as int)) as nat);
            assert(s@ =~= dec_of_i64(n as int));
        }
        s
    }
}

/// Renders a byte vector in lowercase hexadecimal, as `hex_of` describes.
pub fn bytes_to_hex(data: &Vec<u8>) -> (r: String)
    ensures
        r@ == hex_of(data@),
{
    let mut r = String::new();
    let mut i: usize = 0;
    proof {
        assert(data@.skip(0) =~= data@);
    }
    while i < data.len()
        invariant
            i <= data@.len(),
            hex_of(data@) =~= r@ + hex_of(data@.skip(i as int)),
        decreases data@.len() - i,
    {
        let byte = data[i];
        push_char(&mut r, HEX_DIGITS[(byte / 16) as usize]);
        push_char(&mut r, HEX_DIGITS[(byte % 16) as usize]);
        proof {
            assert(data@.skip(i as int).drop_first() =~= data@.skip(i as int + 1));
        }
        i = i + 1;
    }
    proof {
        assert(hex_of(data@.skip(i as int)) =~= seq![]);
        assert(r@ =~= hex_of(data@));
    }
    r
}

} // verus!
