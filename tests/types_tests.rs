use edgar_rs::types::{ApiResponse, Period, Taxonomy, Unit};

#[test]
fn period_text_forms() {
    assert_eq!(Period::Annual(2019).as_str(), "CY2019");
    assert_eq!(Period::Quarterly(2019, 1).as_str(), "CY2019Q1");
    assert_eq!(Period::Instantaneous(2019, 1).as_str(), "CY2019Q1I");
    assert_eq!(Period::Annual(0).as_str(), "CY0");
    assert_eq!(Period::Annual(65535).as_str(), "CY65535");
}

#[test]
fn period_round_trip_on_valid_periods() {
    for year in [0u16, 7, 1999, 2024, 65535] {
        for q in 1u8..=4 {
            let p = Period::Quarterly(year, q);
            assert_eq!(Period::from_str(&p.as_str()), Some(p));
            let p = Period::Instantaneous(year, q);
            assert_eq!(Period::from_str(&p.as_str()), Some(p));
        }
        let p = Period::Annual(year);
        assert_eq!(Period::from_str(&p.as_str()), Some(p));
    }
}

#[test]
fn period_invalid_quarters_fail() {
    for q in [0u8, 5, 9, 10, 255] {
        assert_eq!(Period::from_str(&Period::Quarterly(2020, q).as_str()), None);
        assert_eq!(Period::from_str(&Period::Instantaneous(2020, q).as_str()), None);
    }
    assert_eq!(Period::from_str("CY2020Q256"), None);
}

#[test]
fn period_parse_edges() {
    assert_eq!(Period::from_str("CY2020Q01"), Some(Period::Quarterly(2020, 1)));
    assert_eq!(Period::from_str("CY+2020"), Some(Period::Annual(2020)));
    assert_eq!(Period::from_str("CY65536"), None);
    assert_eq!(Period::from_str("CY"), None);
    assert_eq!(Period::from_str("cy2020"), None);
    assert_eq!(Period::from_str("CY2020Q"), None);
    assert_eq!(Period::from_str("CY2020QI"), None);
    assert_eq!(Period::from_str("CY2020Q1X"), None);
    assert_eq!(Period::from_str("CYQ1"), None);
    assert_eq!(Period::from_str(""), None);
}

#[test]
fn taxonomy_names() {
    assert_eq!(Taxonomy::UsGaap.as_str(), "us-gaap");
    assert_eq!(Taxonomy::IfrsFull.as_str(), "ifrs-full");
    assert_eq!(Taxonomy::Dei.as_str(), "dei");
    assert_eq!(Taxonomy::Srt.as_str(), "srt");
}

#[test]
fn taxonomy_from_str_ignores_case() {
    assert_eq!(Taxonomy::from_str("US-GAAP"), Some(Taxonomy::UsGaap));
    assert_eq!(Taxonomy::from_str("Ifrs-Full"), Some(Taxonomy::IfrsFull));
    assert_eq!(Taxonomy::from_str("dei"), Some(Taxonomy::Dei));
    assert_eq!(Taxonomy::from_str("SRT"), Some(Taxonomy::Srt));
    assert_eq!(Taxonomy::from_str("gaap"), None);
    assert_eq!(Taxonomy::from_lowercase("us-gaap"), Some(Taxonomy::UsGaap));
    assert_eq!(Taxonomy::from_lowercase("US-GAAP"), None);
}

#[test]
fn unit_text_and_parse() {
    assert_eq!(Unit::Simple("USD".to_string()).as_str(), "USD");
    assert_eq!(
        Unit::Compound("USD".to_string(), "shares".to_string()).as_str(),
        "USD-per-shares"
    );
    assert_eq!(Unit::from_str("pure"), Unit::Simple("pure".to_string()));
    assert_eq!(
        Unit::from_str("USD-per-shares"),
        Unit::Compound("USD".to_string(), "shares".to_string())
    );
    assert_eq!(
        Unit::from_str("a-per-b-per-c"),
        Unit::Compound("a".to_string(), "b-per-c".to_string())
    );
    assert_eq!(Unit::from_str("-per-"), Unit::Compound(String::new(), String::new()));
}

#[test]
fn api_response_holds_status_and_data() {
    let r = ApiResponse { status: 200, data: 5u8 };
    assert_eq!(r.status, 200);
    assert_eq!(r.data, 5);
}
