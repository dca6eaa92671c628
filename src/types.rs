//! Parameter types of the endpoints: taxonomy, reporting period and unit of
//! measure, and the envelope of a decoded response.

use vstd::prelude::*;

use crate::text::{
    decimal_text, find_char, find_text, is_ascii_digit, is_first_index, is_first_occurrence, lemma_decimal_text,
    lemma_first_index_unique, lemma_parse_decimal_text, occurs_at, parse_bounded, parse_unsigned,
    push_decimal, same_text,
};

verus! {

/// A decoded response together with its HTTP status.
#[derive(Debug, Clone)]
pub struct ApiResponse<T> {
    /// The HTTP status code of the response.
    pub status: u16,
    /// The decoded body.
    pub data: T,
}

/// XBRL taxonomies.
#[derive(Debug, Clone, Copy, PartialEq, Eq, Hash, Structural)]
pub enum Taxonomy {
    /// US GAAP taxonomy.
    UsGaap,
    /// IFRS taxonomy.
    IfrsFull,
    /// Document and Entity Information taxonomy.
    Dei,
    /// SEC Reporting Taxonomy.
    Srt,
}

/// The name of a taxonomy in the service's paths.
pub open spec fn taxonomy_name(t: Taxonomy) -> Seq<char> {
    match t {
        Taxonomy::UsGaap => seq!['u', 's', '-', 'g', 'a', 'a', 'p'],
        Taxonomy::IfrsFull => seq!['i', 'f', 'r', 's', '-', 'f', 'u', 'l', 'l'],
        Taxonomy::Dei => seq!['d', 'e', 'i'],
        Taxonomy::Srt => seq!['s', 'r', 't'],
    }
}

/// The taxonomy whose name is exactly `s`.
pub open spec fn taxonomy_named(s: Seq<char>) -> Option<Taxonomy> {
    if s == taxonomy_name(Taxonomy::UsGaap) {
        Some(Taxonomy::UsGaap)
    } else if s == taxonomy_name(Taxonomy::IfrsFull) {
        Some(Taxonomy::IfrsFull)
    } else if s == taxonomy_name(Taxonomy::Dei) {
        Some(Taxonomy::Dei)
    } else if s == taxonomy_name(Taxonomy::Srt) {
        Some(Taxonomy::Srt)
    } else {
        None
    }
}

/// What `str::to_lowercase` returns for `s`.
pub uninterp spec fn lowercase_of(s: Seq<char>) -> Seq<char>;

/// Relies on `str::to_lowercase`: its result depends on the characters alone.
#[verifier::external_body]
fn to_lowercase(s: &str) -> (r: String)
    ensures
        r@ == lowercase_of(s@),
{
    s.to_lowercase()
}

impl Taxonomy {
    /// The taxonomy's name, as the service's paths spell it.
    pub fn as_str(&self) -> (r: &'static str)
        ensures
            r@ == taxonomy_name(*self),
    {
        proof {
            reveal_strlit("us-gaap");
            reveal_strlit("ifrs-full");
            reveal_strlit("dei");
            reveal_strlit("srt");
        }
        match self {
            Taxonomy::UsGaap => "us-gaap",
            Taxonomy::IfrsFull => "ifrs-full",
            Taxonomy::Dei => "dei",
            Taxonomy::Srt => "srt",
        }
    }

    /// The taxonomy whose name is `s` once lowercased.
    pub fn from_str(s: &str) -> (r: Option<Taxonomy>)
        ensures
            r == taxonomy_named(lowercase_of(s@)),
    {
        let lower = to_lowercase(s);
        Self::from_lowercase(lower.as_str())
    }

    /// The taxonomy whose name is exactly `s` (already lowercased).
    pub fn from_lowercase(s: &str) -> (r: Option<Taxonomy>)
        ensures
            r == taxonomy_named(s@),
    {
        if same_text(s, Taxonomy::UsGaap.as_str()) {
            Some(Taxonomy::UsGaap)
        } else if same_text(s, Taxonomy::IfrsFull.as_str()) {
            Some(Taxonomy::IfrsFull)
        } else if same_text(s, Taxonomy::Dei.as_str()) {
            Some(Taxonomy::Dei)
        } else if same_text(s, Taxonomy::Srt.as_str()) {
            Some(Taxonomy::Srt)
        } else {
            None
        }
    }
}

/// Reporting periods.
#[derive(Debug, Clone, Copy, PartialEq, Eq, Hash, Structural)]
pub enum Period {
    /// Annual period (`CY####`).
    Annual(u16),
    /// Quarterly period (`CY####Q#`).
    Quarterly(u16, u8),
    /// Instantaneous period at a quarter's end (`CY####Q#I`).
    Instantaneous(u16, u8),
}

/// A period's quarter is one of 1 to 4; an annual period has none.
pub open spec fn period_is_valid(p: Period) -> bool {
    match p {
        Period::Annual(_) => true,
        Period::Quarterly(_, q) => 1 <= q <= 4,
        Period::Instantaneous(_, q) => 1 <= q <= 4,
    }
}

/// The text of a period in the service's paths.
pub open spec fn period_text(p: Period) -> Seq<char> {
    match p {
        Period::Annual(y) => seq!['C', 'Y'] + decimal_text(y as nat),
        Period::Quarterly(y, q) => seq!['C', 'Y'] + decimal_text(y as nat) + seq!['Q']
            + decimal_text(q as nat),
        Period::Instantaneous(y, q) => seq!['C', 'Y'] + decimal_text(y as nat) + seq!['Q']
            + decimal_text(q as nat) + seq!['I'],
    }
}

/// A quarter number of one to four.
pub open spec fn quarter_of(s: Seq<char>) -> Option<u8> {
    match parse_unsigned(s, 255) {
        Some(q) => if 1 <= q <= 4 {
            Some(q as u8)
        } else {
            None
        },
        None => None,
    }
}

/// The quarterly or instantaneous period of `year` whose quarter part is `rem`.
pub open spec fn quarter_period(year: u16, rem: Seq<char>) -> Option<Period> {
    if rem.len() > 0 && rem.last() == 'I' {
        match quarter_of(rem.drop_last()) {
            Some(q) => Some(Period::Instantaneous(year, q)),
            None => None,
        }
    } else {
        match quarter_of(rem) {
            Some(q) => Some(Period::Quarterly(year, q)),
            None => None,
        }
    }
}

/// The period that the text `s` denotes: `CY`, a year, then optionally `Q`
/// with a quarter of one to four, and optionally a final `I`.
pub open spec fn period_from_text(s: Seq<char>) -> Option<Period> {
    if s.len() >= 2 && s[0] == 'C' && s[1] == 'Y' {
        let rest = s.subrange(2, s.len() as int);
        if exists|i: int| is_first_index(rest, 'Q', i) {
            let i = choose|i: int| is_first_index(rest, 'Q', i);
            match parse_unsigned(rest.subrange(0, i), 65535) {
                Some(y) => quarter_period(y as u16, rest.subrange(i + 1, rest.len() as int)),
                None => None,
            }
        } else {
            match parse_unsigned(rest, 65535) {
                Some(y) => Some(Period::Annual(y as u16)),
                None => None,
            }
        }
    } else {
        None
    }
}

fn quarter_from_str(s: &str) -> (r: Option<u8>)
    ensures
        r == quarter_of(s@),
{
    match parse_bounded(s, 255) {
        Some(q) => {
            if 1 <= q && q <= 4 {
                Some(q as u8)
            } else {
                None
            }
        },
        None => None,
    }
}

impl Period {
    /// The period's text: `CY2019`, `CY2019Q1` or `CY2019Q1I`.
    pub fn as_str(&self) -> (r: String)
        ensures
            r@ == period_text(*self),
    {
        let mut out = String::new();
        out.push('C');
        out.push('Y');
        match *self {
            Period::Annual(y) => {
                push_decimal(&mut out, y as u64);
            },
            Period::Quarterly(y, q) => {
                push_decimal(&mut out, y as u64);
                out.push('Q');
                push_decimal(&mut out, q as u64);
            },
            Period::Instantaneous(y, q) => {
                push_decimal(&mut out, y as u64);
                out.push('Q');
                push_decimal(&mut out, q as u64);
                out.push('I');
            },
        }
        assert(out@ =~= period_text(*self));
        out
    }

    /// The period that the text `s` denotes, if any.
    pub fn from_str(s: &str) -> (r: Option<Period>)
        ensures
            r == period_from_text(s@),
    {
        let len = s.unicode_len();
        if len < 2 || s.get_char(0) != 'C' || s.get_char(1) != 'Y' {
            return None;
        }
        let rest = s.substring_char(2, len);
        let rlen = rest.unicode_len();
        match find_char(rest, 'Q') {
            Some(i) => {
                proof {
                    let j = choose|j: int| is_first_index(rest@, 'Q', j);
                    lemma_first_index_unique(rest@, 'Q', i as int, j);
                }
                let year = match parse_bounded(rest.substring_char(0, i), 65535) {
                    Some(y) => y as u16,
                    None => {
                        return None;
                    },
                };
                let rem = rest.substring_char(i + 1, rlen);
                let remlen = rem.unicode_len();
                if remlen > 0 && rem.get_char(remlen - 1) == 'I' {
                    let digits = rem.substring_char(0, remlen - 1);
                    assert(digits@ =~= rem@.drop_last());
                    match quarter_from_str(digits) {
                        Some(q) => Some(Period::Instantaneous(year, q)),
                        None => None,
                    }
                } else {
                    match quarter_from_str(rem) {
                        Some(q) => Some(Period::Quarterly(year, q)),
                        None => None,
                    }
                }
            },
            None => {
                match parse_bounded(rest, 65535) {
                    Some(y) => Some(Period::Annual(y as u16)),
                    None => None,
                }
            },
        }
    }
}

/// Units of measure.
#[derive(Debug, Clone, PartialEq, Eq, Hash)]
pub enum Unit {
    /// A simple unit (`USD`, `pure`).
    Simple(String),
    /// A compound unit, numerator per denominator (`USD-per-shares`).
    Compound(String, String),
}

/// The separator between the two parts of a compound unit.
pub open spec fn per_separator() -> Seq<char> {
    seq!['-', 'p', 'e', 'r', '-']
}

/// The text of a unit in the service's paths.
pub open spec fn unit_text(u: Unit) -> Seq<char> {
    match u {
        Unit::Simple(s) => s@,
        Unit::Compound(n, d) => n@ + per_separator() + d@,
    }
}

/// `u` is what the text `s` denotes: a compound unit split at the first
/// `-per-`, or a simple unit where there is none.
pub open spec fn unit_read_from(s: Seq<char>, u: Unit) -> bool {
    match u {
        Unit::Simple(x) => x@ == s && forall|k: int| !occurs_at(s, per_separator(), k),
        Unit::Compound(n, d) => exists|i: int|
            {
                &&& is_first_occurrence(s, per_separator(), i)
                &&& n@ == s.subrange(0, i)
                &&& d@ == s.subrange(i + 5, s.len() as int)
            },
    }
}

impl Unit {
    /// The unit's text: `USD` or `USD-per-shares`.
    pub fn as_str(&self) -> (r: String)
        ensures
            r@ == unit_text(*self),
    {
        proof {
            reveal_strlit("-per-");
        }
        match self {
            Unit::Simple(u) => u.clone(),
            Unit::Compound(n, d) => {
                let mut out = n.clone();
                out.append("-per-");
                out.append(d.as_str());
                out
            },
        }
    }

    /// The unit that the text `s` denotes.
    pub fn from_str(s: &str) -> (r: Unit)
        ensures
            unit_read_from(s@, r),
    {
        proof {
            reveal_strlit("-per-");
        }
        let len = s.unicode_len();
        match find_text(s, "-per-") {
            Some(idx) => {
                let numerator = String::from_str(s.substring_char(0, idx));
                let denominator = String::from_str(s.substring_char(idx + 5, len));
                assert("-per-"@ == per_separator());
                assert(is_first_occurrence(s@, per_separator(), idx as int));
                assert(numerator@ == s@.subrange(0, idx as int));
                Unit::Compound(numerator, denominator)
            },
            None => {
                assert("-per-"@ == per_separator());
                Unit::Simple(String::from_str(s))
            },
        }
    }
}

/// Reading back the text of a period gives the period again when its quarter
/// is one of 1 to 4; a text with any other quarter is refused.
pub proof fn lemma_period_round_trip(p: Period)
    ensures
        period_from_text(period_text(p)) == (if period_is_valid(p) {
            Some(p)
        } else {
            None
        }),
{
    let t = period_text(p);
    let rest = t.subrange(2, t.len() as int);
    match p {
        Period::Annual(y) => {
            let dy = decimal_text(y as nat);
            lemma_decimal_text(y as nat);
            lemma_parse_decimal_text(y as nat, 65535);
            assert(rest =~= dy);
            assert(!exists|i: int| is_first_index(rest, 'Q', i)) by {
                assert forall|i: int| !is_first_index(rest, 'Q', i) by {
                    if 0 <= i < rest.len() {
                        assert(is_ascii_digit(rest[i]));
                    }
                }
            }
        },
        Period::Quarterly(y, q) => {
            let dy = decimal_text(y as nat);
            let dq = decimal_text(q as nat);
            lemma_decimal_text(y as nat);
            lemma_decimal_text(q as nat);
            lemma_parse_decimal_text(y as nat, 65535);
            lemma_parse_decimal_text(q as nat, 255);
            assert(rest =~= dy + seq!['Q'] + dq);
            let i = dy.len() as int;
            assert(is_first_index(rest, 'Q', i)) by {
                assert forall|k: int| 0 <= k < i implies rest[k] != 'Q' by {
                    assert(rest[k] == dy[k]);
                    assert(is_ascii_digit(dy[k]));
                }
            }
            let j = choose|j: int| is_first_index(rest, 'Q', j);
            lemma_first_index_unique(rest, 'Q', i, j);
            assert(rest.subrange(0, i) =~= dy);
            assert(rest.subrange(i + 1, rest.len() as int) =~= dq);
            assert(is_ascii_digit(dq.last()));
        },
        Period::Instantaneous(y, q) => {
            let dy = decimal_text(y as nat);
            let dq = decimal_text(q as nat);
            lemma_decimal_text(y as nat);
            lemma_decimal_text(q as nat);
            lemma_parse_decimal_text(y as nat, 65535);
            lemma_parse_decimal_text(q as nat, 255);
            assert(rest =~= dy + seq!['Q'] + dq + seq!['I']);
            let i = dy.len() as int;
            assert(is_first_index(rest, 'Q', i)) by {
                assert forall|k: int| 0 <= k < i implies rest[k] != 'Q' by {
                    assert(rest[k] == dy[k]);
                    assert(is_ascii_digit(dy[k]));
                }
            }
            let j = choose|j: int| is_first_index(rest, 'Q', j);
            lemma_first_index_unique(rest, 'Q', i, j);
            assert(rest.subrange(0, i) =~= dy);
            let rem = rest.subrange(i + 1, rest.len() as int);
            assert(rem =~= dq + seq!['I']);
            assert(rem.drop_last() =~= dq);
        },
    }
}

} // verus!
