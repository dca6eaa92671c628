//! A company's submission history and the helpers over it.

use vstd::prelude::*;

use crate::text::same_text;

verus! {

/// A company's submission history.
#[derive(Debug, Clone)]
pub struct SubmissionHistory {
    /// The company's CIK.
    pub cik: String,
    /// The entity type.
    pub entity_type: String,
    /// The SIC code.
    pub sic: String,
    /// The SIC description.
    pub sic_description: String,
    /// Whether insider transactions for the company as issuer exist.
    pub insider_transaction_for_issuer_exists: u8,
    /// Whether insider transactions for the company as owner exist.
    pub insider_transaction_for_owner_exists: u8,
    /// The company's name.
    pub name: String,
    /// The company's ticker symbols.
    pub tickers: Vec<String>,
    /// The exchanges of the tickers, one for each.
    pub exchanges: Vec<String>,
    /// The company's former names.
    pub former_names: Vec<FormerName>,
    /// The company's filings.
    pub filings: Filings,
    /// Further files of filing history.
    pub files: Option<Vec<FileInfo>>,
}

/// A former name of a company.
#[derive(Debug, Clone)]
pub struct FormerName {
    /// The former name.
    pub name: String,
    /// The date from which the name was used.
    pub from: String,
    /// The date until which the name was used.
    pub to: String,
}

/// A company's filings: the most recent ones and the files holding older ones.
#[derive(Debug, Clone)]
pub struct Filings {
    /// The most recent filings.
    pub recent: Recent,
    /// Files holding older filings.
    pub files: Option<Vec<FileInfo>>,
}

/// Filings in columns: the i-th element of each column describes filing i.
#[derive(Debug, Clone)]
pub struct Recent {
    /// Accession numbers.
    pub accession_number: Vec<String>,
    /// Filing dates.
    pub filing_date: Vec<String>,
    /// Report dates.
    pub report_date: Vec<String>,
    /// Acceptance dates and times.
    pub acceptance_date_time: Vec<String>,
    /// Form types.
    pub form: Vec<String>,
    /// Primary documents.
    pub primary_document: Vec<String>,
    /// Primary document descriptions.
    pub primary_doc_description: Vec<String>,
    /// File numbers.
    pub file_number: Vec<String>,
    /// Film numbers.
    pub film_number: Vec<String>,
    /// Items referenced.
    pub items: Vec<String>,
    /// Sizes of the complete submission files in bytes.
    pub size: Vec<i64>,
    /// 1 where the filing is in XBRL.
    pub is_xbrl: Vec<i64>,
    /// 1 where the filing is in inline XBRL.
    pub is_inline_xbrl: Vec<i64>,
    /// 1 where the filing was submitted on paper.
    pub is_paper: Vec<i64>,
    /// Instance document URLs.
    pub instance_url: Vec<Option<String>>,
}

/// A file of older filings.
#[derive(Debug, Clone)]
pub struct FileInfo {
    /// The file's name.
    pub name: String,
    /// How many filings it holds.
    pub filing_count: i64,
    /// Date of its first filing.
    pub filing_from: String,
    /// Date of its last filing.
    pub filing_to: String,
}

/// One filing.
#[derive(Debug, Clone)]
pub struct FilingEntry {
    /// Accession number.
    pub accession_number: String,
    /// Filing date.
    pub filing_date: String,
    /// Report date.
    pub report_date: String,
    /// Acceptance date and time.
    pub acceptance_date_time: String,
    /// Form type.
    pub form: String,
    /// Primary document.
    pub primary_document: String,
    /// Primary document description.
    pub primary_doc_description: String,
    /// File number.
    pub file_number: String,
    /// Film number.
    pub film_number: String,
    /// Items referenced.
    pub items: String,
    /// Size of the complete submission file in bytes.
    pub size: i64,
    /// Whether the filing is in XBRL.
    pub is_xbrl: bool,
    /// Whether the filing is in inline XBRL.
    pub is_inline_xbrl: bool,
    /// Whether the filing was submitted on paper.
    pub is_paper: bool,
    /// Instance document URL.
    pub instance_url: Option<String>,
}

/// The content of a filing entry.
pub struct FilingModel {
    pub accession_number: Seq<char>,
    pub filing_date: Seq<char>,
    pub report_date: Seq<char>,
    pub acceptance_date_time: Seq<char>,
    pub form: Seq<char>,
    pub primary_document: Seq<char>,
    pub primary_doc_description: Seq<char>,
    pub file_number: Seq<char>,
    pub film_number: Seq<char>,
    pub items: Seq<char>,
    pub size: i64,
    pub is_xbrl: bool,
    pub is_inline_xbrl: bool,
    pub is_paper: bool,
    pub instance_url: Option<Seq<char>>,
}

pub open spec fn opt_text(o: Option<String>) -> Option<Seq<char>> {
    match o {
        Some(s) => Some(s@),
        None => None,
    }
}

pub open spec fn filing_view(e: FilingEntry) -> FilingModel {
    FilingModel {
        accession_number: e.accession_number@,
        filing_date: e.filing_date@,
        report_date: e.report_date@,
        acceptance_date_time: e.acceptance_date_time@,
        form: e.form@,
        primary_document: e.primary_document@,
        primary_doc_description: e.primary_doc_description@,
        file_number: e.file_number@,
        film_number: e.film_number@,
        items: e.items@,
        size: e.size,
        is_xbrl: e.is_xbrl,
        is_inline_xbrl: e.is_inline_xbrl,
        is_paper: e.is_paper,
        instance_url: opt_text(e.instance_url),
    }
}

/// The i-th text of a column, or the empty text past its end.
pub open spec fn text_at(v: Seq<String>, i: int) -> Seq<char> {
    if 0 <= i < v.len() {
        v[i]@
    } else {
        Seq::empty()
    }
}

/// The i-th number of a column, or 0 past its end.
pub open spec fn number_at(v: Seq<i64>, i: int) -> i64 {
    if 0 <= i < v.len() {
        v[i]
    } else {
        0
    }
}

/// Whether the i-th number of a column is 1.
pub open spec fn flag_at(v: Seq<i64>, i: int) -> bool {
    0 <= i < v.len() && v[i] == 1
}

/// The i-th URL of a column, or none past its end.
pub open spec fn url_at(v: Seq<Option<String>>, i: int) -> Option<Seq<char>> {
    if 0 <= i < v.len() {
        opt_text(v[i])
    } else {
        None
    }
}

/// Filing `i` of the columns.
pub open spec fn filing_at(r: Recent, i: int) -> FilingModel {
    FilingModel {
        accession_number: text_at(r.accession_number@, i),
        filing_date: text_at(r.filing_date@, i),
        report_date: text_at(r.report_date@, i),
        acceptance_date_time: text_at(r.acceptance_date_time@, i),
        form: text_at(r.form@, i),
        primary_document: text_at(r.primary_document@, i),
        primary_doc_description: text_at(r.primary_doc_description@, i),
        file_number: text_at(r.file_number@, i),
        film_number: text_at(r.film_number@, i),
        items: text_at(r.items@, i),
        size: number_at(r.size@, i),
        is_xbrl: flag_at(r.is_xbrl@, i),
        is_inline_xbrl: flag_at(r.is_inline_xbrl@, i),
        is_paper: flag_at(r.is_paper@, i),
        instance_url: url_at(r.instance_url@, i),
    }
}

/// How many filings the columns describe: a filing needs an accession
/// number, a form and a filing date.
pub open spec fn filing_count(r: Recent) -> nat {
    let a = r.accession_number@.len();
    let f = r.form@.len();
    let d = r.filing_date@.len();
    if a <= f && a <= d {
        a
    } else if f <= d {
        f
    } else {
        d
    }
}

/// The filings that the columns describe, in order.
pub open spec fn filings_of(r: Recent) -> Seq<FilingModel> {
    Seq::new(filing_count(r), |i: int| filing_at(r, i))
}

/// `i` is the last position of its ticker.
pub open spec fn is_last_ticker(t: Seq<String>, i: int) -> bool {
    forall|j: int| i < j < t.len() ==> t[j]@ != t[i]@
}

/// Each ticker of the first `n` with the exchange at its last position, in
/// the order of those last positions.
pub open spec fn ticker_pairs(t: Seq<String>, e: Seq<String>, n: int) -> Seq<(Seq<char>, Seq<char>)>
    decreases n,
{
    if n <= 0 {
        Seq::empty()
    } else if is_last_ticker(t, n - 1) {
        ticker_pairs(t, e, n - 1).push((t[n - 1]@, e[n - 1]@))
    } else {
        ticker_pairs(t, e, n - 1)
    }
}

pub open spec fn pairs_view(p: Seq<(String, String)>) -> Seq<(Seq<char>, Seq<char>)> {
    p.map_values(|x: (String, String)| (x.0@, x.1@))
}

fn text_at_index(v: &Vec<String>, i: usize) -> (r: String)
    ensures
        r@ == text_at(v@, i as int),
{
    if i < v.len() {
        v[i].clone()
    } else {
        String::new()
    }
}

fn number_at_index(v: &Vec<i64>, i: usize) -> (r: i64)
    ensures
        r == number_at(v@, i as int),
{
    if i < v.len() {
        v[i]
    } else {
        0
    }
}

fn flag_at_index(v: &Vec<i64>, i: usize) -> (r: bool)
    ensures
        r == flag_at(v@, i as int),
{
    i < v.len() && v[i] == 1
}

fn url_at_index(v: &Vec<Option<String>>, i: usize) -> (r: Option<String>)
    ensures
        opt_text(r) == url_at(v@, i as int),
{
    if i < v.len() {
        match &v[i] {
            Some(u) => Some(u.clone()),
            None => None,
        }
    } else {
        None
    }
}

fn filing_entry_at(recent: &Recent, i: usize) -> (e: FilingEntry)
    ensures
        filing_view(e) == filing_at(*recent, i as int),
{
    FilingEntry {
        accession_number: text_at_index(&recent.accession_number, i),
        filing_date: text_at_index(&recent.filing_date, i),
        report_date: text_at_index(&recent.report_date, i),
        acceptance_date_time: text_at_index(&recent.acceptance_date_time, i),
        form: text_at_index(&recent.form, i),
        primary_document: text_at_index(&recent.primary_document, i),
        primary_doc_description: text_at_index(&recent.primary_doc_description, i),
        file_number: text_at_index(&recent.file_number, i),
        film_number: text_at_index(&recent.film_number, i),
        items: text_at_index(&recent.items, i),
        size: number_at_index(&recent.size, i),
        is_xbrl: flag_at_index(&recent.is_xbrl, i),
        is_inline_xbrl: flag_at_index(&recent.is_inline_xbrl, i),
        is_paper: flag_at_index(&recent.is_paper, i),
        instance_url: url_at_index(&recent.instance_url, i),
    }
}

impl SubmissionHistory {
    /// The most recent filings, one entry per filing.
    pub fn get_recent_filings(&self) -> (r: Vec<FilingEntry>)
        ensures
            r@.map_values(|e: FilingEntry| filing_view(e)) == filings_of(self.filings.recent),
    {
        Self::convert_recent_to_filing_entries(&self.filings.recent)
    }

    /// The filings that the columns describe, one entry per filing: the
    /// positions that have an accession number, a form and a filing date,
    /// with the other fields empty, zero or false where a column ends early.
    pub fn convert_recent_to_filing_entries(recent: &Recent) -> (r: Vec<FilingEntry>)
        ensures
            r@.map_values(|e: FilingEntry| filing_view(e)) == filings_of(*recent),
    {
        let mut entries: Vec<FilingEntry> = Vec::new();
        let n = recent.accession_number.len();
        let mut i: usize = 0;
        while i < n
            invariant
                n == recent.accession_number@.len(),
                i <= n,
                entries@.len() == (if i <= filing_count(*recent) {
                    i as nat
                } else {
                    filing_count(*recent)
                }),
                forall|k: int|
                    0 <= k < entries@.len() ==> filing_view(#[trigger] entries@[k]) == filing_at(
                        *recent,
                        k,
                    ),
            decreases n - i,
        {
            if i < recent.form.len() && i < recent.filing_date.len() {
                entries.push(filing_entry_at(recent, i));
            }
            i = i + 1;
        }
        assert(entries@.map_values(|e: FilingEntry| filing_view(e)) =~= filings_of(*recent));
        entries
    }

    /// The recent filings followed by those of further pages of history, in
    /// the order of the pages.
    pub fn get_all_filings(&self, pages: &Vec<Recent>) -> (r: Vec<FilingEntry>)
        ensures
            r@.map_values(|e: FilingEntry| filing_view(e)) == filings_of(self.filings.recent)
                + pages@.map_values(|p: Recent| filings_of(p)).flatten(),
    {
        let mut all = self.get_recent_filings();
        let mut i: usize = 0;
        while i < pages.len()
            invariant
                i <= pages@.len(),
                all@.map_values(|e: FilingEntry| filing_view(e)) == filings_of(self.filings.recent)
                    + pages@.subrange(0, i as int).map_values(|p: Recent| filings_of(p)).flatten(),
            decreases pages@.len() - i,
        {
            let ghost before = all@;
            let mut more = Self::convert_recent_to_filing_entries(&pages[i]);
            let ghost added = more@;
            all.append(&mut more);
            proof {
                let m = pages@.subrange(0, i as int).map_values(|p: Recent| filings_of(p));
                assert(pages@.subrange(0, i + 1).map_values(|p: Recent| filings_of(p)) =~= m.push(
                    filings_of(pages@[i as int]),
                ));
                m.lemma_flatten_push(filings_of(pages@[i as int]));
                assert(all@.map_values(|e: FilingEntry| filing_view(e)) =~= before.map_values(
                    |e: FilingEntry| filing_view(e),
                ) + added.map_values(|e: FilingEntry| filing_view(e)));
            }
            i = i + 1;
        }
        assert(pages@.subrange(0, pages@.len() as int) =~= pages@);
        all
    }

    /// The names of the files that hold older filings.
    pub fn history_file_names(&self) -> (r: Vec<String>)
        ensures
            match self.filings.files {
                Some(fs) => r@.len() == fs@.len() && forall|i: int|
                    0 <= i < fs@.len() ==> #[trigger] r@[i]@ == fs@[i].name@,
                None => r@.len() == 0,
            },
    {
        let mut names: Vec<String> = Vec::new();
        match &self.filings.files {
            Some(fs) => {
                let mut i: usize = 0;
                while i < fs.len()
                    invariant
                        i <= fs@.len(),
                        names@.len() == i,
                        forall|k: int| 0 <= k < i ==> #[trigger] names@[k]@ == fs@[k].name@,
                    decreases fs@.len() - i,
                {
                    names.push(fs[i].name.clone());
                    i = i + 1;
                }
            },
            None => {},
        }
        names
    }

    /// Each ticker with its exchange. Where a ticker appears more than once
    /// the exchange of its last appearance counts; where the two lists differ
    /// in length there is no pairing and the result is empty.
    pub fn get_ticker_map(&self) -> (r: Vec<(String, String)>)
        ensures
            forall|a: int, b: int| 0 <= a < b < r@.len() ==> r@[a].0@ != r@[b].0@,
            pairs_view(r@) == (if self.tickers@.len() == self.exchanges@.len() {
                ticker_pairs(self.tickers@, self.exchanges@, self.tickers@.len() as int)
            } else {
                Seq::empty()
            }),
    {
        let mut out: Vec<(String, String)> = Vec::new();
        let n = self.tickers.len();
        if n != self.exchanges.len() {
            assert(pairs_view(out@) =~= Seq::<(Seq<char>, Seq<char>)>::empty());
            return out;
        }
        let ghost mut from: Seq<int> = Seq::empty();
        let mut i: usize = 0;
        while i < n
            invariant
                n == self.tickers@.len(),
                n == self.exchanges@.len(),
                i <= n,
                pairs_view(out@) == ticker_pairs(self.tickers@, self.exchanges@, i as int),
                from.len() == out@.len(),
                forall|a: int|
                    0 <= a < from.len() ==> 0 <= #[trigger] from[a] < i && is_last_ticker(
                        self.tickers@,
                        from[a],
                    ) && out@[a].0@ == self.tickers@[from[a]]@,
                forall|a: int, b: int| 0 <= a < b < out@.len() ==> out@[a].0@ != out@[b].0@,
            decreases n - i,
        {
            let mut last = true;
            let mut j: usize = i + 1;
            while j < n
                invariant
                    n == self.tickers@.len(),
                    i < j <= n,
                    last == forall|k: int| i < k < j ==> self.tickers@[k]@ != self.tickers@[i as int]@,
                decreases n - j,
            {
                if same_text(self.tickers[j].as_str(), self.tickers[i].as_str()) {
                    last = false;
                }
                j = j + 1;
            }
            let ghost before = out@;
            if last {
                out.push((self.tickers[i].clone(), self.exchanges[i].clone()));
                assert(pairs_view(out@) =~= pairs_view(before).push(
                    (self.tickers@[i as int]@, self.exchanges@[i as int]@),
                ));
                proof {
                    assert forall|a: int| 0 <= a < from.len() implies out@[a].0@
                        != self.tickers@[i as int]@ by {
                        assert(is_last_ticker(self.tickers@, from[a]));
                    }
                    from = from.push(i as int);
                }
            }
            i = i + 1;
        }
        out
    }
}

} // verus!
