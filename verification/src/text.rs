//! Small text utilities shared by the slug, signing and validation code:
//! appending a single character to a `String`, and printing a `u64` in
//! decimal.

use vstd::prelude::*;

verus! {

/// Relies on `String::push`: appends the given character to the end of the
/// string.
#[verifier::external_body]
pub fn push_char(s: &mut String, c: char)
    ensures
        final(s)@ == old(s)@.push(c),
{
    s.push(c);
}

/// Character-by-character string equality.
pub fn str_eq(a: &str, b: &str) -> (r: bool)
    ensures
        r == (a@ == b@),
{
    let na = a.unicode_len();
    let nb = b.unicode_len();
    if na != nb {
        return false;
    }
    let mut i: usize = 0;
    while i < na
        invariant
            i <= na,
            na == a@.len(),
            na == b@.len(),
            forall|j: int| 0 <= j < i ==> a@[j] == b@[j],
        decreases na - i,
    {
        if a.get_char(i) != b.get_char(i) {
            return false;
        }
        i = i + 1;
    }
    proof {
        assert(a@ =~= b@);
    }
    true
}

/// The character for a single decimal digit.
pub open spec fn digit_char(d: nat) -> char
    recommends
        d < 10,
{
    ((d + ('0' as nat)) as u8) as char
}

/// The decimal representation of `n`, most significant digit first, with no
/// leading zeros (and `"0"` for zero).
pub open spec fn dec_spec(n: nat) -> Seq<char>
    decreases n,
{
    if n < 10 {
        seq![digit_char(n)]
    } else {
        dec_spec(n / 10).push(digit_char(n % 10))
    }
}

/// Prints `n` in decimal, exactly as `dec_spec` describes.
pub fn u64_to_dec(n: u64) -> (r: String)
    ensures
        r@ == dec_spec(n as nat),
{
    let mut chars: Vec<char> = Vec::new();
    let mut m: u64 = n;
    if m == 0 {
        chars.push('0');
        assert(chars@ =~= dec_spec(0));
    } else {
        while m > 0
            invariant
                m <= n,
                m > 0 ==> dec_spec(n as nat) =~= dec_spec(m as nat) + chars@,
                m == 0 ==> dec_spec(n as nat) =~= chars@,
                m == 0 ==> n > 0,
            decreases m,
        {
            let d: u64 = m % 10;
            let next: u64 = m / 10;
            let c: char = (d as u8 + 48) as char;
            assert(c == digit_char(d as nat));
            chars.insert(0, c);
            proof {
                if next > 0 {
                    assert(dec_spec(m as nat) =~= dec_spec(next as nat).push(
                        digit_char((m % 10) as nat),
                    ));
                    assert(dec_spec(next as nat) + chars@ =~= dec_spec(n as nat));
                } else {
                    assert(m < 10);
                    assert(dec_spec(m as nat) =~= seq![digit_char(m as nat)]);
                    assert(chars@ =~= dec_spec(n as nat));
                }
            }
            m = next;
        }
    }
    let mut r = String::new();
    let mut i: usize = 0;
    while i < chars.len()
        invariant
            i <= chars.len(),
            r@ =~= chars@.take(i as int),
        decreases chars.len() - i,
    {
        push_char(&mut r, chars[i]);
        i = i + 1;
    }
    proof {
        assert(r@ =~= chars@);
    }
    r
}

} // verus!
