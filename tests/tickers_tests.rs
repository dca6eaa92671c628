use edgar_rs::json::JsonCell;
use edgar_rs::tickers::{CompanyTickers, CompanyTickersMf, RowError};

fn s(v: &str) -> JsonCell {
    JsonCell::Str(v.to_string())
}

fn company_fields() -> Vec<String> {
    vec!["cik".to_string(), "name".to_string(), "ticker".to_string(), "exchange".to_string()]
}

fn fund_fields() -> Vec<String> {
    vec!["cik".to_string(), "seriesId".to_string(), "classId".to_string(), "symbol".to_string()]
}

#[test]
fn test_company_tickers_entries_success() {
    let tickers = CompanyTickers {
        fields: company_fields(),
        data: vec![
            vec![JsonCell::PosInt(320193), s("Apple Inc."), s("AAPL"), s("Nasdaq")],
            vec![JsonCell::PosInt(789019), s("Microsoft Corporation"), s("MSFT"), s("Nasdaq")],
        ],
    };

    let entries = tickers.entries().unwrap();
    assert_eq!(entries.len(), 2);

    assert_eq!(entries[0].cik, 320193);
    assert_eq!(entries[0].name, "Apple Inc.");
    assert_eq!(entries[0].ticker, "AAPL");
    assert_eq!(entries[0].exchange, "Nasdaq");

    assert_eq!(entries[1].cik, 789019);
    assert_eq!(entries[1].name, "Microsoft Corporation");
    assert_eq!(entries[1].ticker, "MSFT");
    assert_eq!(entries[1].exchange, "Nasdaq");
}

#[test]
fn test_company_tickers_entries_invalid_row_length() {
    let tickers = CompanyTickers {
        fields: company_fields(),
        data: vec![vec![JsonCell::PosInt(320193), s("Apple Inc."), s("AAPL")]],
    };

    let result = tickers.entries();
    assert!(result.is_err());
    assert!(result.unwrap_err().message().contains("Invalid row length"));
}

#[test]
fn test_company_tickers_entries_invalid_cik() {
    let tickers = CompanyTickers {
        fields: company_fields(),
        data: vec![vec![s("invalid"), s("Apple Inc."), s("AAPL"), s("Nasdaq")]],
    };

    let result = tickers.entries();
    assert!(result.is_err());
    assert!(result.unwrap_err().message().contains("Invalid CIK"));
}

#[test]
fn test_company_tickers_entries_missing_exchange() {
    let tickers = CompanyTickers {
        fields: company_fields(),
        data: vec![vec![JsonCell::PosInt(320193), s("Apple Inc."), s("AAPL"), JsonCell::Null]],
    };

    let entries = tickers.entries().unwrap();
    assert_eq!(entries.len(), 1);
    assert_eq!(entries[0].exchange, "");
}

#[test]
fn company_tickers_first_bad_row_decides() {
    let tickers = CompanyTickers {
        fields: company_fields(),
        data: vec![
            vec![JsonCell::PosInt(1), s("A"), s("A"), s("X")],
            vec![JsonCell::PosInt(2), JsonCell::Null, s("B"), s("X")],
            vec![JsonCell::PosInt(3), s("C")],
        ],
    };
    assert_eq!(tickers.entries().unwrap_err(), RowError::InvalidName);
    let bad_ticker = CompanyTickers {
        fields: company_fields(),
        data: vec![vec![JsonCell::PosInt(1), s("A"), JsonCell::Bool(true), s("X")]],
    };
    assert_eq!(bad_ticker.entries().unwrap_err(), RowError::InvalidTicker);
    let negative = CompanyTickers {
        fields: company_fields(),
        data: vec![vec![JsonCell::NegInt(-1), s("A"), s("A"), s("X")]],
    };
    assert_eq!(negative.entries().unwrap_err(), RowError::InvalidCik);
}

#[test]
fn company_tickers_empty_list() {
    let tickers = CompanyTickers { fields: company_fields(), data: vec![] };
    assert_eq!(tickers.entries().unwrap().len(), 0);
}

#[test]
fn test_company_tickers_mf_entries_success() {
    let mf_tickers = CompanyTickersMf {
        fields: fund_fields(),
        data: vec![
            vec![JsonCell::PosInt(1234567), s("S000012345"), s("C000012345"), s("FUNDX")],
            vec![JsonCell::PosInt(7654321), s("S000067890"), s("C000067890"), s("FUNDY")],
        ],
    };

    let entries = mf_tickers.entries().unwrap();
    assert_eq!(entries.len(), 2);

    assert_eq!(entries[0].cik, 1234567);
    assert_eq!(entries[0].series_id, "S000012345");
    assert_eq!(entries[0].class_id, "C000012345");
    assert_eq!(entries[0].symbol, "FUNDX");

    assert_eq!(entries[1].cik, 7654321);
    assert_eq!(entries[1].series_id, "S000067890");
    assert_eq!(entries[1].class_id, "C000067890");
    assert_eq!(entries[1].symbol, "FUNDY");
}

#[test]
fn test_company_tickers_mf_entries_invalid_row_length() {
    let mf_tickers = CompanyTickersMf {
        fields: fund_fields(),
        data: vec![vec![JsonCell::PosInt(1234567), s("S000012345"), s("C000012345")]],
    };

    let result = mf_tickers.entries();
    assert!(result.is_err());
    assert!(result.unwrap_err().message().contains("Invalid row length"));
}

#[test]
fn test_company_tickers_mf_entries_invalid_cik() {
    let mf_tickers = CompanyTickersMf {
        fields: fund_fields(),
        data: vec![vec![s("invalid"), s("S000012345"), s("C000012345"), s("FUNDX")]],
    };

    let result = mf_tickers.entries();
    assert!(result.is_err());
    assert!(result.unwrap_err().message().contains("Invalid CIK"));
}

#[test]
fn fund_rows_need_every_text_cell() {
    let cases = [
        (vec![JsonCell::PosInt(1), JsonCell::Null, s("C"), s("F")], RowError::InvalidSeriesId),
        (vec![JsonCell::PosInt(1), s("S"), JsonCell::Float("1.5".to_string()), s("F")], RowError::InvalidClassId),
        (vec![JsonCell::PosInt(1), s("S"), s("C"), JsonCell::Null], RowError::InvalidSymbol),
    ];
    for (row, expected) in cases {
        let t = CompanyTickersMf { fields: fund_fields(), data: vec![row] };
        assert_eq!(t.entries().unwrap_err(), expected);
    }
    assert_eq!(RowError::InvalidSymbol.message(), "Invalid symbol");
    assert_eq!(RowError::InvalidSeriesId.message(), "Invalid series ID");
    assert_eq!(RowError::InvalidClassId.message(), "Invalid class ID");
    assert_eq!(RowError::InvalidName.message(), "Invalid name");
    assert_eq!(RowError::InvalidTicker.message(), "Invalid ticker");
}

#[test]
fn json_cell_accessors() {
    assert_eq!(JsonCell::PosInt(7).as_u64(), Some(7));
    assert_eq!(JsonCell::NegInt(-7).as_u64(), None);
    assert_eq!(JsonCell::NegInt(-7).as_i64(), Some(-7));
    assert_eq!(JsonCell::PosInt(u64::MAX).as_i64(), None);
    assert_eq!(JsonCell::PosInt(5).as_i64(), Some(5));
    assert_eq!(s("x").as_str(), Some("x"));
    assert_eq!(JsonCell::Null.as_str(), None);
    assert_eq!(JsonCell::Bool(true).as_bool(), Some(true));
    assert_eq!(JsonCell::Float("2e3".to_string()).as_bool(), None);
    assert!(JsonCell::Null.is_null());
    assert!(!JsonCell::Composite("[]".to_string()).is_null());
}
