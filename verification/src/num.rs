//! Decimal rendering of unsigned integers, for query parameters and JSON
//! bodies.

use vstd::prelude::*;

verus! {

/// The decimal digits of `n`, as ASCII bytes, most significant first.
pub open spec fn dec_digits(n: nat) -> Seq<u8>
    decreases n,
{
    if n < 10 {
        seq![(0x30 + n) as u8]
    } else {
        dec_digits(n / 10) + seq![(0x30 + n % 10) as u8]
    }
}

/// The decimal digits of `n`, as characters.
pub open spec fn dec_chars(n: nat) -> Seq<char> {
    dec_digits(n).map_values(|b: u8| b as char)
}

/// Relies on `String::push`: appends one character.
#[verifier::external_body]
pub(crate) fn string_push(s: &mut String, c: char)
    ensures
        final(s)@ == old(s)@.push(c),
{
    s.push(c);
}

fn push_dec_bytes(n: u64, out: &mut Vec<u8>)
    ensures
        final(out)@ == old(out)@ + dec_digits(n as nat),
    decreases n,
{
    if n >= 10 {
        push_dec_bytes(n / 10, out);
    }
    out.push(0x30 + (n % 10) as u8);
    assert(out@ =~= old(out)@ + dec_digits(n as nat));
}

/// Renders `n` in decimal, as ASCII bytes.
pub fn u64_to_dec_bytes(n: u64) -> (v: Vec<u8>)
    ensures
        v@ == dec_digits(n as nat),
{
    let mut v: Vec<u8> = Vec::new();
    push_dec_bytes(n, &mut v);
    assert(v@ =~= dec_digits(n as nat));
    v
}

/// Renders `n` in decimal, as a string.
pub fn u64_to_string(n: u64) -> (s: String)
    ensures
        s@ == dec_chars(n as nat),
{
    let bytes = u64_to_dec_bytes(n);
    let mut s = String::new();
    let len = bytes.len();
    for i in 0..len
        invariant
            len == bytes@.len(),
            bytes@ == dec_digits(n as nat),
            s@.len() == i,
            forall|j: int| 0 <= j < i ==> s@[j] == dec_chars(n as nat)[j],
    {
        string_push(&mut s, bytes[i] as char);
    }
    assert(s@ =~= dec_chars(n as nat));
    s
}

} // verus!
