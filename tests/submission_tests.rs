use edgar_rs::select::{
    latest_position, positions_for_company, positions_for_fiscal_period, positions_for_form,
    text_at_or_before,
};
use edgar_rs::submission::{Filings, Recent, SubmissionHistory};

fn strings(v: &[&str]) -> Vec<String> {
    v.iter().map(|s| s.to_string()).collect()
}

fn recent(acc: &[&str], forms: &[&str], dates: &[&str]) -> Recent {
    Recent {
        accession_number: strings(acc),
        filing_date: strings(dates),
        report_date: strings(&["2023-09-30"]),
        acceptance_date_time: vec![],
        form: strings(forms),
        primary_document: vec![],
        primary_doc_description: vec![],
        file_number: vec![],
        film_number: vec![],
        items: vec![],
        size: vec![1000, 2000],
        is_xbrl: vec![1, 0],
        is_inline_xbrl: vec![0],
        is_paper: vec![],
        instance_url: vec![Some("u1".to_string()), None],
    }
}

fn history(r: Recent, tickers: &[&str], exchanges: &[&str]) -> SubmissionHistory {
    SubmissionHistory {
        cik: "320193".to_string(),
        entity_type: "operating".to_string(),
        sic: "3571".to_string(),
        sic_description: "Electronic Computers".to_string(),
        insider_transaction_for_issuer_exists: 1,
        insider_transaction_for_owner_exists: 0,
        name: "Apple Inc.".to_string(),
        tickers: strings(tickers),
        exchanges: strings(exchanges),
        former_names: vec![],
        filings: Filings { recent: r, files: None },
        files: None,
    }
}

#[test]
fn recent_filings_from_columns() {
    let h = history(
        recent(&["a1", "a2", "a3"], &["10-K", "10-Q", "8-K"], &["2023-11-03", "2023-08-04"]),
        &[],
        &[],
    );
    let f = h.get_recent_filings();
    assert_eq!(f.len(), 2);
    assert_eq!(f[0].accession_number, "a1");
    assert_eq!(f[0].form, "10-K");
    assert_eq!(f[0].filing_date, "2023-11-03");
    assert_eq!(f[0].report_date, "2023-09-30");
    assert_eq!(f[0].size, 1000);
    assert!(f[0].is_xbrl);
    assert!(!f[0].is_inline_xbrl);
    assert_eq!(f[0].instance_url, Some("u1".to_string()));
    assert_eq!(f[1].report_date, "");
    assert_eq!(f[1].acceptance_date_time, "");
    assert_eq!(f[1].size, 2000);
    assert!(!f[1].is_xbrl);
    assert!(!f[1].is_paper);
    assert_eq!(f[1].instance_url, None);
}

#[test]
fn all_filings_append_pages_in_order() {
    let h = history(recent(&["a1"], &["10-K"], &["d1"]), &[], &[]);
    let pages = vec![
        recent(&["b1", "b2"], &["4", "4"], &["d2", "d3"]),
        recent(&[], &[], &[]),
        recent(&["c1"], &["S-1"], &["d4"]),
    ];
    let all = h.get_all_filings(&pages);
    let acc: Vec<&str> = all.iter().map(|e| e.accession_number.as_str()).collect();
    assert_eq!(acc, vec!["a1", "b1", "b2", "c1"]);
    assert!(h.history_file_names().is_empty());
}

#[test]
fn ticker_map_pairs_tickers_with_exchanges() {
    let h = history(recent(&[], &[], &[]), &["AAPL", "AAPL.B"], &["Nasdaq", "NYSE"]);
    assert_eq!(
        h.get_ticker_map(),
        vec![
            ("AAPL".to_string(), "Nasdaq".to_string()),
            ("AAPL.B".to_string(), "NYSE".to_string())
        ]
    );
    let dup = history(recent(&[], &[], &[]), &["X", "Y", "X"], &["e1", "e2", "e3"]);
    assert_eq!(
        dup.get_ticker_map(),
        vec![("Y".to_string(), "e2".to_string()), ("X".to_string(), "e3".to_string())]
    );
    let uneven = history(recent(&[], &[], &[]), &["X"], &[]);
    assert!(uneven.get_ticker_map().is_empty());
}

#[test]
fn frame_positions_for_company() {
    let ciks = vec![1750u64, 320193, 5, 320193];
    assert_eq!(positions_for_company(&ciks, "320193"), vec![1, 3]);
    assert_eq!(positions_for_company(&ciks, "0000320193"), vec![1, 3]);
    assert!(positions_for_company(&ciks, "CIK320193").is_empty());
    assert!(positions_for_company(&ciks, "42").is_empty());
}

#[test]
fn latest_position_takes_greatest_date_last_on_ties() {
    let ends = vec!["2023-09-30".to_string(), "2023-12-31".to_string(), "2022-12-31".to_string()];
    assert_eq!(latest_position(&ends), Some(1));
    let ties = vec!["2023-12-31".to_string(), "2023-12-31".to_string(), "2021".to_string()];
    assert_eq!(latest_position(&ties), Some(1));
    assert_eq!(latest_position(&vec![]), None);
    assert_eq!(latest_position(&vec!["x".to_string()]), Some(0));
    assert!(text_at_or_before("2023", "2023-01"));
    assert!(!text_at_or_before("2023-01", "2023"));
    assert!(text_at_or_before("", ""));
    assert!(text_at_or_before("Z", "a"));
    assert!(!text_at_or_before("é", "z"));
}

#[test]
fn fiscal_period_and_form_positions() {
    let keys = vec![
        (Some(2023), Some("FY".to_string())),
        (Some(2024), Some("Q1".to_string())),
        (None, Some("FY".to_string())),
        (Some(2023), None),
        (Some(2023), Some("FY".to_string())),
    ];
    assert_eq!(positions_for_fiscal_period(&keys, 2023, "FY"), vec![0, 4]);
    assert_eq!(positions_for_fiscal_period(&keys, 2024, "Q1"), vec![1]);
    assert!(positions_for_fiscal_period(&keys, 2022, "Q1").is_empty());
    let forms = vec!["10-K".to_string(), "10-Q".to_string(), "10-K".to_string()];
    assert_eq!(positions_for_form(&forms, "10-K"), vec![0, 2]);
    assert!(positions_for_form(&forms, "8-K").is_empty());
}
