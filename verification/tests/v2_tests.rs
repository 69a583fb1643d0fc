use cvss::severity::SeverityTypeV2;
use cvss::v2::CVSS;
use cvss::error::CVSSError;
use cvss::version::Version;

#[test]
fn v2_known_vector_ten() {
    let c = CVSS::from_str("AV:N/AC:L/Au:N/C:C/I:C/A:C").unwrap();
    assert_eq!(c.base_score, 100);
    assert_eq!(c.base_severity, SeverityTypeV2::High);
    assert_eq!(c.exploitability_score(), 100);
    assert_eq!(c.impact_score(), 100);
    assert_eq!(c.version, Version::V2_0);
}

#[test]
fn v2_known_vector_partial_impacts() {
    let c = CVSS::from_str("AV:N/AC:L/Au:N/C:P/I:P/A:P").unwrap();
    assert_eq!(c.base_score, 75);
    assert_eq!(c.base_severity, SeverityTypeV2::High);
    assert_eq!(c.exploitability_score(), 100);
    assert_eq!(c.impact_score(), 64);
}

#[test]
fn v2_known_vector_mixed() {
    let c = CVSS::from_str("AV:A/AC:M/Au:S/C:P/I:C/A:N").unwrap();
    assert_eq!(c.base_score, 58);
    assert_eq!(c.base_severity, SeverityTypeV2::Medium);
    assert_eq!(c.exploitability_score(), 44);
    assert_eq!(c.impact_score(), 78);
}

#[test]
fn v2_no_impact_scores_zero() {
    let c = CVSS::from_str("AV:N/AC:L/Au:N/C:N/I:N/A:N").unwrap();
    assert_eq!(c.base_score, 0);
    assert_eq!(c.base_severity, SeverityTypeV2::Low);
    assert_eq!(c.impact_score(), 0);
    assert_eq!(c.exploitability_score(), 100);
}

#[test]
fn v2_with_version_prefix() {
    let c = CVSS::from_str("CVSS:2.0/AV:N/AC:L/Au:N/C:C/I:C/A:C").unwrap();
    assert_eq!(c.base_score, 100);
}

#[test]
fn v2_case_insensitive_parse() {
    let c = CVSS::from_str("av:n/ac:l/au:n/c:c/i:c/a:c").unwrap();
    assert_eq!(c.base_score, 100);
}

#[test]
fn v2_round_trip_canonical() {
    let s = "AV:L/AC:H/Au:M/C:P/I:N/A:C";
    let c = CVSS::from_str(s).unwrap();
    let formatted = c.to_vector_string();
    assert_eq!(formatted, s);
    let again = CVSS::from_str(&formatted).unwrap();
    assert_eq!(again.exploit_ability, c.exploit_ability);
    assert_eq!(again.impact, c.impact);
    assert_eq!(again.base_score, c.base_score);
}

#[test]
fn v2_v3_prefix_is_rejected() {
    let e = CVSS::from_str("CVSS:3.1/AV:N/AC:L/Au:N/C:C/I:C/A:C").unwrap_err();
    match e {
        CVSSError::InvalidCVSSVersion { value, expected } => {
            assert_eq!(value, "3.1");
            assert_eq!(expected, "2.0");
        },
        _ => panic!("expected a version error"),
    }
}

#[test]
fn v2_missing_field_is_rejected() {
    let e = CVSS::from_str("AV:N/AC:L/Au:N/C:C/I:C").unwrap_err();
    match e {
        CVSSError::InvalidCVSS { key, value, .. } => {
            assert_eq!(key, "A");
            assert_eq!(value, "");
        },
        _ => panic!("expected a field error"),
    }
}

#[test]
fn v2_unrecognized_letter_is_rejected() {
    let e = CVSS::from_str("AV:N/AC:L/Au:N/C:H/I:C/A:C").unwrap_err();
    match e {
        CVSSError::InvalidCVSS { key, expected, .. } => {
            assert_eq!(key, "C");
            assert_eq!(expected, "N,P,C");
        },
        _ => panic!("expected a field error"),
    }
}

#[test]
fn v2_no_separator_is_invalid_prefix() {
    let e = CVSS::from_str("AV:N").unwrap_err();
    assert!(matches!(e, CVSSError::InvalidPrefix { .. }));
}
