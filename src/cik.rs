//! Central Index Key formatting.

use vstd::prelude::*;

use crate::text::{
    all_digits, ascii_digits, char_is_digit, decimal_text, is_ascii_digit,
    lemma_ascii_digits_are_digits, push_decimal,
};

verus! {

/// Width of a canonical CIK.
pub const CIK_WIDTH: usize = 10;

/// `d` padded on the left with zeros to ten characters.
pub open spec fn zero_padded(d: Seq<char>) -> Seq<char> {
    Seq::new((10 - d.len()) as nat, |i: int| '0') + d
}

/// Formats a CIK as ten digits with leading zeros.
///
/// Every character that is not an ASCII digit is dropped first. The result
/// is an error when no digit is left or when more than ten are.
pub fn format_cik(cik: &str) -> (r: Result<String, &'static str>)
    ensures
        r is Ok <==> 1 <= ascii_digits(cik@).len() <= 10,
        r matches Ok(s) ==> s@ == zero_padded(ascii_digits(cik@)),
        r matches Ok(s) ==> s@.len() == 10 && all_digits(s@),
        ascii_digits(cik@).len() == 0 ==> (r matches Err(e) && e@
            == "CIK must contain at least one digit"@),
        ascii_digits(cik@).len() > 10 ==> (r matches Err(e) && e@
            == "CIK cannot be longer than 10 digits"@),
{
    let len = cik.unicode_len();
    let mut digits = String::new();
    let mut n: usize = 0;
    let mut i: usize = 0;
    while i < len
        invariant
            len == cik@.len(),
            i <= len,
            digits@ == ascii_digits(cik@.subrange(0, i as int)),
            n == digits@.len(),
            n <= i,
        decreases len - i,
    {
        let c = cik.get_char(i);
        let ghost prev = cik@.subrange(0, i as int);
        let ghost next = cik@.subrange(0, i + 1);
        assert(next.drop_last() =~= prev);
        assert(next.last() == c);
        if char_is_digit(c) {
            digits.push(c);
            n = n + 1;
        }
        i = i + 1;
    }
    assert(cik@.subrange(0, len as int) =~= cik@);
    if n == 0 {
        return Err("CIK must contain at least one digit");
    }
    if n > CIK_WIDTH {
        return Err("CIK cannot be longer than 10 digits");
    }
    let mut out = String::new();
    let mut k: usize = 0;
    while k < CIK_WIDTH - n
        invariant
            n <= CIK_WIDTH,
            k <= CIK_WIDTH - n,
            out@ =~= Seq::new(k as nat, |j: int| '0'),
        decreases CIK_WIDTH - n - k,
    {
        out.push('0');
        k = k + 1;
    }
    out.append(digits.as_str());
    proof {
        lemma_ascii_digits_are_digits(cik@);
        let d = ascii_digits(cik@);
        assert forall|j: int| 0 <= j < out@.len() implies #[trigger] is_ascii_digit(out@[j]) by {
            if j >= 10 - d.len() {
                assert(out@[j] == d[j - (10 - d.len())]);
            }
        }
    }
    Ok(out)
}

/// The decimal rendering of `n`, padded on the left with zeros to at least
/// ten characters.
pub open spec fn padded_decimal(n: nat) -> Seq<char> {
    let d = decimal_text(n);
    if d.len() >= 10 {
        d
    } else {
        zero_padded(d)
    }
}

/// A numeric CIK as text of at least ten digits, with leading zeros.
pub fn cik_as_string(cik: u64) -> (r: String)
    ensures
        r@ == padded_decimal(cik as nat),
{
    let mut digits = String::new();
    push_decimal(&mut digits, cik);
    let n = digits.as_str().unicode_len();
    if n >= CIK_WIDTH {
        return digits;
    }
    let mut out = String::new();
    let mut k: usize = 0;
    while k < CIK_WIDTH - n
        invariant
            n < CIK_WIDTH,
            k <= CIK_WIDTH - n,
            out@ =~= Seq::new(k as nat, |j: int| '0'),
        decreases CIK_WIDTH - n - k,
    {
        out.push('0');
        k = k + 1;
    }
    out.append(digits.as_str());
    out
}

} // verus!
