use edgar_rs::config::Config;
use edgar_rs::error::EdgarApiError;
use edgar_rs::types::{Period, Taxonomy, Unit};

#[test]
fn submissions_urls() {
    let c = Config::new("Co a@b.c");
    assert_eq!(
        c.submissions_history_url("320193").unwrap(),
        "https://data.sec.gov/submissions/CIK0000320193.json"
    );
    assert_eq!(
        c.submissions_file_url("CIK0001067983-submissions-001.json"),
        "https://data.sec.gov/submissions/CIK0001067983-submissions-001.json"
    );
}

#[test]
fn invalid_cik_fails_before_any_request() {
    let c = Config::new("Co a@b.c");
    match c.submissions_history_url("invalid_cik") {
        Err(EdgarApiError::InvalidCik(m)) => assert_eq!(m, "invalid_cik"),
        other => panic!("unexpected {:?}", other),
    }
    assert!(c.company_facts_url("12345678901").is_err());
    assert!(c.company_concept_url("", Taxonomy::Dei, "X").is_err());
}

#[test]
fn xbrl_urls() {
    let c = Config::new("Co a@b.c");
    assert_eq!(
        c.company_concept_url("0000320193", Taxonomy::UsGaap, "AccountsPayableCurrent").unwrap(),
        "https://data.sec.gov/api/xbrl/companyconcept/CIK0000320193/us-gaap/AccountsPayableCurrent.json"
    );
    assert_eq!(
        c.company_facts_url("320193").unwrap(),
        "https://data.sec.gov/api/xbrl/companyfacts/CIK0000320193.json"
    );
    assert_eq!(
        c.xbrl_frames_url(
            Taxonomy::UsGaap,
            "AccountsPayableCurrent",
            &Unit::Simple("USD".to_string()),
            Period::Instantaneous(2019, 1)
        ),
        "https://data.sec.gov/api/xbrl/frames/us-gaap/AccountsPayableCurrent/USD/CY2019Q1I.json"
    );
    assert_eq!(
        c.xbrl_frames_url(
            Taxonomy::Dei,
            "EntityCommonStockSharesOutstanding",
            &Unit::Compound("USD".to_string(), "shares".to_string()),
            Period::Annual(2024)
        ),
        "https://data.sec.gov/api/xbrl/frames/dei/EntityCommonStockSharesOutstanding/USD-per-shares/CY2024.json"
    );
}

#[test]
fn fixed_urls_and_proxy() {
    let mut c = Config::new("Co a@b.c");
    assert_eq!(c.company_tickers_url(), "https://www.sec.gov/files/company_tickers_exchange.json");
    assert_eq!(c.company_tickers_mf_url(), "https://www.sec.gov/files/company_tickers_mf.json");
    assert_eq!(
        c.bulk_submissions_url(),
        "https://www.sec.gov/Archives/edgar/daily-index/bulkdata/submissions.zip"
    );
    assert_eq!(
        c.bulk_company_facts_url(),
        "https://www.sec.gov/Archives/edgar/daily-index/xbrl/companyfacts.zip"
    );
    c.base_url = "https://proxy.example.com/".to_string();
    assert_eq!(
        c.company_facts_url("320193").unwrap(),
        "https://proxy.example.com/data.sec.gov/api/xbrl/companyfacts/CIK0000320193.json"
    );
}

#[test]
fn headers_carry_user_agent() {
    let c = Config::new("Co a@b.c");
    let h = c.request_headers();
    assert_eq!(h, vec![("User-Agent".to_string(), "Co a@b.c".to_string())]);
    let h = c.archive_headers();
    assert_eq!(h.len(), 2);
    assert_eq!(h[1], ("Accept".to_string(), "application/zip".to_string()));
}
