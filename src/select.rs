//! Selections over lists of reported values: the values of one company, of
//! one fiscal period or of one form, and the value with the latest date.

use vstd::prelude::*;

use crate::text::{parse_bounded, parse_unsigned, same_text};

verus! {

/// The positions below `n` whose CIK is `c`, in increasing order.
pub open spec fn positions_of(ciks: Seq<u64>, c: u64, n: int) -> Seq<usize>
    decreases n,
{
    if n <= 0 {
        Seq::empty()
    } else if ciks[n - 1] == c {
        positions_of(ciks, c, n - 1).push((n - 1) as usize)
    } else {
        positions_of(ciks, c, n - 1)
    }
}

/// The positions of the values that belong to the company `cik`, in order.
/// `cik` is read as an unsigned number; where it is none, nothing matches.
pub fn positions_for_company(ciks: &Vec<u64>, cik: &str) -> (r: Vec<usize>)
    ensures
        r@ == (match parse_unsigned(cik@, u64::MAX as nat) {
            Some(c) => positions_of(ciks@, c as u64, ciks@.len() as int),
            None => Seq::empty(),
        }),
{
    let c = match parse_bounded(cik, u64::MAX) {
        Some(c) => c,
        None => {
            return Vec::new();
        },
    };
    let mut out: Vec<usize> = Vec::new();
    let n = ciks.len();
    let mut i: usize = 0;
    while i < n
        invariant
            n == ciks@.len(),
            i <= n,
            out@ == positions_of(ciks@, c, i as int),
        decreases n - i,
    {
        if ciks[i] == c {
            out.push(i);
        }
        i = i + 1;
    }
    out
}

/// Whether a value's fiscal year and period are `year` and `period`.
pub open spec fn is_fiscal_period(key: (Option<i32>, Option<String>), year: i32, period: Seq<char>) -> bool {
    key.0 == Some(year) && (key.1 matches Some(p) && p@ == period)
}

/// The positions below `n` of the values of fiscal `year` and `period`, in
/// increasing order.
pub open spec fn fiscal_positions(
    keys: Seq<(Option<i32>, Option<String>)>,
    year: i32,
    period: Seq<char>,
    n: int,
) -> Seq<usize>
    decreases n,
{
    if n <= 0 {
        Seq::empty()
    } else if is_fiscal_period(keys[n - 1], year, period) {
        fiscal_positions(keys, year, period, n - 1).push((n - 1) as usize)
    } else {
        fiscal_positions(keys, year, period, n - 1)
    }
}

/// The positions of the values whose fiscal year is `fiscal_year` and whose
/// fiscal period is `fiscal_period`, in order. Each key is a value's
/// (fiscal year, fiscal period); either may be missing.
pub fn positions_for_fiscal_period(
    keys: &Vec<(Option<i32>, Option<String>)>,
    fiscal_year: i32,
    fiscal_period: &str,
) -> (r: Vec<usize>)
    ensures
        r@ == fiscal_positions(keys@, fiscal_year, fiscal_period@, keys@.len() as int),
{
    let mut out: Vec<usize> = Vec::new();
    let n = keys.len();
    let mut i: usize = 0;
    while i < n
        invariant
            n == keys@.len(),
            i <= n,
            out@ == fiscal_positions(keys@, fiscal_year, fiscal_period@, i as int),
        decreases n - i,
    {
        let matches = match (&keys[i].0, &keys[i].1) {
            (Some(y), Some(p)) => *y == fiscal_year && same_text(p.as_str(), fiscal_period),
            _ => false,
        };
        if matches {
            out.push(i);
        }
        i = i + 1;
    }
    out
}

/// The positions below `n` of the values filed on form `form`, in
/// increasing order.
pub open spec fn form_positions(forms: Seq<String>, form: Seq<char>, n: int) -> Seq<usize>
    decreases n,
{
    if n <= 0 {
        Seq::empty()
    } else if forms[n - 1]@ == form {
        form_positions(forms, form, n - 1).push((n - 1) as usize)
    } else {
        form_positions(forms, form, n - 1)
    }
}

/// The positions of the values filed on form `form` (such as `10-K`), in
/// order.
pub fn positions_for_form(forms: &Vec<String>, form: &str) -> (r: Vec<usize>)
    ensures
        r@ == form_positions(forms@, form@, forms@.len() as int),
{
    let mut out: Vec<usize> = Vec::new();
    let n = forms.len();
    let mut i: usize = 0;
    while i < n
        invariant
            n == forms@.len(),
            i <= n,
            out@ == form_positions(forms@, form@, i as int),
        decreases n - i,
    {
        if same_text(forms[i].as_str(), form) {
            out.push(i);
        }
        i = i + 1;
    }
    out
}

/// `a` sorts at or before `b`: lexicographic order of characters, which is
/// the byte order of their UTF-8 encodings.
pub open spec fn text_le(a: Seq<char>, b: Seq<char>) -> bool
    decreases a.len(),
{
    if a.len() == 0 {
        true
    } else if b.len() == 0 {
        false
    } else if a[0] != b[0] {
        (a[0] as int) < (b[0] as int)
    } else {
        text_le(a.drop_first(), b.drop_first())
    }
}

pub proof fn lemma_text_le_reflexive(a: Seq<char>)
    ensures
        text_le(a, a),
    decreases a.len(),
{
    if a.len() > 0 {
        lemma_text_le_reflexive(a.drop_first());
    }
}

pub proof fn lemma_text_le_total(a: Seq<char>, b: Seq<char>)
    ensures
        text_le(a, b) || text_le(b, a),
    decreases a.len(),
{
    if a.len() > 0 && b.len() > 0 && a[0] == b[0] {
        lemma_text_le_total(a.drop_first(), b.drop_first());
    }
}

pub proof fn lemma_text_le_transitive(a: Seq<char>, b: Seq<char>, c: Seq<char>)
    requires
        text_le(a, b),
        text_le(b, c),
    ensures
        text_le(a, c),
    decreases a.len(),
{
    if a.len() > 0 && b.len() > 0 && c.len() > 0 && a[0] == b[0] && b[0] == c[0] {
        lemma_text_le_transitive(a.drop_first(), b.drop_first(), c.drop_first());
    }
}

/// Whether `a` sorts at or before `b`.
pub fn text_at_or_before(a: &str, b: &str) -> (r: bool)
    ensures
        r == text_le(a@, b@),
{
    let alen = a.unicode_len();
    let blen = b.unicode_len();
    let mut k: usize = 0;
    assert(a@.skip(0) =~= a@);
    assert(b@.skip(0) =~= b@);
    while k < alen && k < blen && a.get_char(k) == b.get_char(k)
        invariant
            alen == a@.len(),
            blen == b@.len(),
            k <= alen,
            k <= blen,
            text_le(a@, b@) == text_le(a@.skip(k as int), b@.skip(k as int)),
        decreases alen - k,
    {
        let ghost sa = a@.skip(k as int);
        let ghost sb = b@.skip(k as int);
        assert(sa.drop_first() =~= a@.skip(k + 1));
        assert(sb.drop_first() =~= b@.skip(k + 1));
        k = k + 1;
    }
    if k == alen {
        true
    } else if k == blen {
        false
    } else {
        let ca = a.get_char(k);
        let cb = b.get_char(k);
        assert(a@.skip(k as int)[0] == ca);
        assert(b@.skip(k as int)[0] == cb);
        (ca as u32) < (cb as u32)
    }
}

pub open spec fn texts_view(v: Seq<String>) -> Seq<Seq<char>> {
    v.map_values(|s: String| s@)
}

/// `i` holds a greatest key, and no later position holds one as great.
pub open spec fn is_latest(keys: Seq<Seq<char>>, i: int) -> bool {
    &&& 0 <= i < keys.len()
    &&& forall|j: int| 0 <= j < keys.len() ==> text_le(#[trigger] keys[j], keys[i])
    &&& forall|j: int| i < j < keys.len() ==> !text_le(keys[i], #[trigger] keys[j])
}

/// The position of the greatest key, the last one where several are equal
/// (dates written `YYYY-MM-DD` sort in time order); none for no keys.
pub fn latest_position(keys: &Vec<String>) -> (r: Option<usize>)
    ensures
        r is None <==> keys@.len() == 0,
        r matches Some(i) ==> is_latest(texts_view(keys@), i as int),
{
    let n = keys.len();
    if n == 0 {
        return None;
    }
    let ghost ks = texts_view(keys@);
    let mut best: usize = 0;
    proof {
        lemma_text_le_reflexive(ks[0]);
    }
    let mut k: usize = 1;
    while k < n
        invariant
            n == keys@.len(),
            ks == texts_view(keys@),
            best < k <= n,
            forall|j: int| 0 <= j < k ==> text_le(#[trigger] ks[j], ks[best as int]),
            forall|j: int| best < j < k ==> !text_le(ks[best as int], #[trigger] ks[j]),
        decreases n - k,
    {
        if text_at_or_before(keys[best].as_str(), keys[k].as_str()) {
            proof {
                assert forall|j: int| 0 <= j < k + 1 implies text_le(#[trigger] ks[j], ks[k as int]) by {
                    if j < k {
                        lemma_text_le_transitive(ks[j], ks[best as int], ks[k as int]);
                    } else {
                        lemma_text_le_reflexive(ks[k as int]);
                    }
                }
            }
            best = k;
        } else {
            proof {
                lemma_text_le_total(ks[best as int], ks[k as int]);
            }
        }
        k = k + 1;
    }
    Some(best)
}

} // verus!
