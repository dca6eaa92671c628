//! The endpoint catalog: the URL and headers of each request the client makes.

use vstd::prelude::*;

use crate::cik::{format_cik, zero_padded};
use crate::config::{rewritten_url, Config};
use crate::error::EdgarApiError;
use crate::text::ascii_digits;
use crate::types::{period_text, taxonomy_name, unit_text, Period, Taxonomy, Unit};

verus! {

/// An identifier is a valid CIK when it holds one to ten digits.
pub open spec fn cik_is_valid(cik: Seq<char>) -> bool {
    1 <= ascii_digits(cik).len() <= 10
}

/// The canonical ten-digit form of a CIK.
pub open spec fn canonical_cik(cik: Seq<char>) -> Seq<char> {
    zero_padded(ascii_digits(cik))
}

/// The outcome of a request keyed by `cik`: the URL that `url_of` makes of
/// the canonical CIK, or an invalid-CIK error naming the identifier.
pub open spec fn keyed_url(
    base: Seq<char>,
    cik: Seq<char>,
    url_of: spec_fn(Seq<char>) -> Seq<char>,
    r: Result<String, EdgarApiError>,
) -> bool {
    &&& r is Ok <==> cik_is_valid(cik)
    &&& r matches Ok(u) ==> u@ == rewritten_url(base, url_of(canonical_cik(cik)))
    &&& r matches Err(e) ==> (e matches EdgarApiError::InvalidCik(m) && m@ == cik)
}

pub open spec fn submissions_history_path(id: Seq<char>) -> Seq<char> {
    "https://data.sec.gov/submissions/CIK"@ + id + ".json"@
}

pub open spec fn company_facts_path(id: Seq<char>) -> Seq<char> {
    "https://data.sec.gov/api/xbrl/companyfacts/CIK"@ + id + ".json"@
}

pub open spec fn company_concept_path(id: Seq<char>, taxonomy: Taxonomy, tag: Seq<char>) -> Seq<
    char,
> {
    "https://data.sec.gov/api/xbrl/companyconcept/CIK"@ + id + "/"@ + taxonomy_name(taxonomy)
        + "/"@ + tag + ".json"@
}

pub open spec fn xbrl_frames_path(
    taxonomy: Taxonomy,
    tag: Seq<char>,
    unit: Unit,
    period: Period,
) -> Seq<char> {
    "https://data.sec.gov/api/xbrl/frames/"@ + taxonomy_name(taxonomy) + "/"@ + tag + "/"@
        + unit_text(unit) + "/"@ + period_text(period) + ".json"@
}

/// The canonical CIK, or an invalid-CIK error naming the identifier.
fn checked_cik(cik: &str) -> (r: Result<String, EdgarApiError>)
    ensures
        r is Ok <==> cik_is_valid(cik@),
        r matches Ok(s) ==> s@ == canonical_cik(cik@),
        r matches Err(e) ==> (e matches EdgarApiError::InvalidCik(m) && m@ == cik@),
{
    match format_cik(cik) {
        Ok(s) => Ok(s),
        Err(_) => Err(EdgarApiError::invalid_cik(cik)),
    }
}

impl Config {
    /// URL of a company's submission history.
    pub fn submissions_history_url(&self, cik: &str) -> (r: Result<String, EdgarApiError>)
        ensures
            keyed_url(self.base_url@, cik@, |id: Seq<char>| submissions_history_path(id), r),
    {
        let id = checked_cik(cik)?;
        let mut url = String::from_str("https://data.sec.gov/submissions/CIK");
        url.append(id.as_str());
        url.append(".json");
        Ok(self.build_url(url.as_str()))
    }

    /// URL of a further page of a submission history, named by an earlier
    /// response.
    pub fn submissions_file_url(&self, filename: &str) -> (r: String)
        ensures
            r@ == rewritten_url(self.base_url@, "https://data.sec.gov/submissions/"@ + filename@),
    {
        let mut url = String::from_str("https://data.sec.gov/submissions/");
        url.append(filename);
        self.build_url(url.as_str())
    }

    /// URL of one concept's disclosures by one company.
    pub fn company_concept_url(&self, cik: &str, taxonomy: Taxonomy, tag: &str) -> (r: Result<
        String,
        EdgarApiError,
    >)
        ensures
            keyed_url(
                self.base_url@,
                cik@,
                |id: Seq<char>| company_concept_path(id, taxonomy, tag@),
                r,
            ),
    {
        let id = checked_cik(cik)?;
        let mut url = String::from_str("https://data.sec.gov/api/xbrl/companyconcept/CIK");
        url.append(id.as_str());
        url.append("/");
        url.append(taxonomy.as_str());
        url.append("/");
        url.append(tag);
        url.append(".json");
        Ok(self.build_url(url.as_str()))
    }

    /// URL of all facts of one company.
    pub fn company_facts_url(&self, cik: &str) -> (r: Result<String, EdgarApiError>)
        ensures
            keyed_url(self.base_url@, cik@, |id: Seq<char>| company_facts_path(id), r),
    {
        let id = checked_cik(cik)?;
        let mut url = String::from_str("https://data.sec.gov/api/xbrl/companyfacts/CIK");
        url.append(id.as_str());
        url.append(".json");
        Ok(self.build_url(url.as_str()))
    }

    /// URL of one concept across all companies for one period.
    pub fn xbrl_frames_url(&self, taxonomy: Taxonomy, tag: &str, unit: &Unit, period: Period) -> (r:
        String)
        ensures
            r@ == rewritten_url(self.base_url@, xbrl_frames_path(taxonomy, tag@, *unit, period)),
    {
        let mut url = String::from_str("https://data.sec.gov/api/xbrl/frames/");
        url.append(taxonomy.as_str());
        url.append("/");
        url.append(tag);
        url.append("/");
        let u = unit.as_str();
        url.append(u.as_str());
        url.append("/");
        let p = period.as_str();
        url.append(p.as_str());
        url.append(".json");
        self.build_url(url.as_str())
    }

    /// URL of the list of companies with their tickers and exchanges.
    pub fn company_tickers_url(&self) -> (r: String)
        ensures
            r@ == rewritten_url(
                self.base_url@,
                "https://www.sec.gov/files/company_tickers_exchange.json"@,
            ),
    {
        self.build_url("https://www.sec.gov/files/company_tickers_exchange.json")
    }

    /// URL of the list of mutual funds with their tickers.
    pub fn company_tickers_mf_url(&self) -> (r: String)
        ensures
            r@ == rewritten_url(self.base_url@, "https://www.sec.gov/files/company_tickers_mf.json"@),
    {
        self.build_url("https://www.sec.gov/files/company_tickers_mf.json")
    }

    /// URL of the archive of all submission histories.
    pub fn bulk_submissions_url(&self) -> (r: String)
        ensures
            r@ == rewritten_url(
                self.base_url@,
                "https://www.sec.gov/Archives/edgar/daily-index/bulkdata/submissions.zip"@,
            ),
    {
        self.build_url("https://www.sec.gov/Archives/edgar/daily-index/bulkdata/submissions.zip")
    }

    /// URL of the archive of all company facts.
    pub fn bulk_company_facts_url(&self) -> (r: String)
        ensures
            r@ == rewritten_url(
                self.base_url@,
                "https://www.sec.gov/Archives/edgar/daily-index/xbrl/companyfacts.zip"@,
            ),
    {
        self.build_url("https://www.sec.gov/Archives/edgar/daily-index/xbrl/companyfacts.zip")
    }

    /// Headers of a JSON request: the User-Agent alone.
    pub fn request_headers(&self) -> (r: Vec<(String, String)>)
        ensures
            r@.len() == 1,
            r@[0].0@ == "User-Agent"@,
            r@[0].1@ == self.user_agent@,
    {
        let mut hs: Vec<(String, String)> = Vec::new();
        hs.push((String::from_str("User-Agent"), self.user_agent.clone()));
        hs
    }

    /// Headers of an archive download: the User-Agent, and `application/zip`
    /// as the accepted type.
    pub fn archive_headers(&self) -> (r: Vec<(String, String)>)
        ensures
            r@.len() == 2,
            r@[0].0@ == "User-Agent"@,
            r@[0].1@ == self.user_agent@,
            r@[1].0@ == "Accept"@,
            r@[1].1@ == "application/zip"@,
    {
        let mut hs = self.request_headers();
        hs.push((String::from_str("Accept"), String::from_str("application/zip")));
        hs
    }
}

} // verus!
