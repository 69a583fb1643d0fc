use cvss::severity::SeverityType;
use cvss::v3::CVSS;
use cvss::error::CVSSError;

#[test]
fn v3_known_vector_critical() {
    let c = CVSS::from_str("CVSS:3.1/AV:N/AC:L/PR:N/UI:N/S:C/C:H/I:H/A:H").unwrap();
    assert_eq!(c.base_score, 100);
    assert_eq!(c.base_severity, SeverityType::Critical);
    assert_eq!(c.exploitability_score(), 39);
    assert_eq!(c.impact_score(), 61);
}

#[test]
fn v3_known_vector_medium() {
    let c = CVSS::from_str("CVSS:3.1/AV:N/AC:L/PR:N/UI:R/S:U/C:L/I:L/A:N").unwrap();
    assert_eq!(c.base_score, 54);
    assert_eq!(c.base_severity, SeverityType::Medium);
    assert_eq!(c.exploitability_score(), 29);
    assert_eq!(c.impact_score(), 26);
}

#[test]
fn v3_known_vector_nine_eight() {
    let c = CVSS::from_str("CVSS:3.1/AV:N/AC:L/PR:N/UI:N/S:U/C:H/I:H/A:H").unwrap();
    assert_eq!(c.base_score, 98);
    assert_eq!(c.base_severity, SeverityType::Critical);
    assert_eq!(c.exploitability_score(), 39);
    assert_eq!(c.impact_score(), 59);
}

#[test]
fn v3_known_vector_local_low_priv() {
    let c = CVSS::from_str("CVSS:3.0/AV:L/AC:L/PR:L/UI:N/S:U/C:H/I:H/A:H").unwrap();
    assert_eq!(c.base_score, 78);
    assert_eq!(c.base_severity, SeverityType::High);
}

#[test]
fn v3_known_vector_high_complexity() {
    let c = CVSS::from_str("CVSS:3.1/AV:N/AC:H/PR:N/UI:R/S:U/C:H/I:H/A:H").unwrap();
    assert_eq!(c.base_score, 75);
    assert_eq!(c.base_severity, SeverityType::High);
}

#[test]
fn v3_known_vector_low_band() {
    let c = CVSS::from_str("CVSS:3.1/AV:N/AC:L/PR:N/UI:R/S:U/C:N/I:L/A:N").unwrap();
    assert_eq!(c.base_score, 43);
    assert_eq!(c.base_severity, SeverityType::Medium);
}

#[test]
fn v3_no_impact_scores_zero() {
    let c = CVSS::from_str("CVSS:3.1/AV:N/AC:L/PR:N/UI:N/S:U/C:N/I:N/A:N").unwrap();
    assert_eq!(c.base_score, 0);
    assert_eq!(c.base_severity, SeverityType::Negligible);
    assert_eq!(c.impact_score(), 0);
}

#[test]
fn v3_changed_scope_uses_absolute_impact_terms() {
    // with Scope changed the formula takes absolute values, so even an
    // all-None impact leaves a small positive raw impact
    let c = CVSS::from_str("CVSS:3.1/AV:N/AC:L/PR:N/UI:N/S:C/C:N/I:N/A:N").unwrap();
    assert_eq!(c.impact_score(), 3);
    assert_eq!(c.base_score, 45);
}

#[test]
fn v3_changed_scope_scoped_privileges() {
    let c = CVSS::from_str("CVSS:3.1/AV:L/AC:H/PR:H/UI:R/S:C/C:L/I:L/A:L").unwrap();
    assert_eq!(c.base_score, 47);
    assert_eq!(c.exploitability_score(), 7);
    assert_eq!(c.impact_score(), 38);
}

#[test]
fn v3_case_insensitive_parse() {
    let a = CVSS::from_str("cvss:3.1/av:n/ac:l/pr:n/ui:n/s:u/c:h/i:h/a:h").unwrap();
    let b = CVSS::from_str("CVSS:3.1/AV:N/AC:L/PR:N/UI:N/S:U/C:H/I:H/A:H").unwrap();
    assert_eq!(a.base_score, b.base_score);
    assert_eq!(a.exploit_ability, b.exploit_ability);
    assert_eq!(a.impact, b.impact);
}

#[test]
fn v3_prefix_without_tag_parses() {
    let c = CVSS::from_str("3.1/AV:N/AC:L/PR:N/UI:N/S:U/C:H/I:H/A:H").unwrap();
    assert_eq!(c.base_score, 98);
}

#[test]
fn v3_vector_string_is_echoed_verbatim() {
    let s = "cvss:3.1/av:n/ac:l/pr:n/ui:n/s:u/c:h/i:h/a:h";
    let c = CVSS::from_str(s).unwrap();
    assert_eq!(c.vector_string, s);
}

#[test]
fn v3_round_trip_canonical() {
    let s = "CVSS:3.1/AV:A/AC:H/PR:L/UI:R/S:C/C:L/I:H/A:N";
    let c = CVSS::from_str(s).unwrap();
    let formatted = c.to_vector_string();
    assert_eq!(formatted, s);
    let again = CVSS::from_str(&formatted).unwrap();
    assert_eq!(again.exploit_ability, c.exploit_ability);
    assert_eq!(again.scope, c.scope);
    assert_eq!(again.impact, c.impact);
    assert_eq!(again.base_score, c.base_score);
    assert_eq!(again.base_severity, c.base_severity);
}

#[test]
fn v3_round_trip_non_canonical_case() {
    let c = CVSS::from_str("cvss:3.0/av:p/ac:h/pr:h/ui:r/s:u/c:l/i:n/a:l").unwrap();
    let again = CVSS::from_str(&c.to_vector_string()).unwrap();
    assert_eq!(again.exploit_ability, c.exploit_ability);
    assert_eq!(again.scope, c.scope);
    assert_eq!(again.impact, c.impact);
    assert_eq!(again.base_score, c.base_score);
}

#[test]
fn v3_missing_separator_is_invalid_prefix() {
    let e = CVSS::from_str("CVSS:3.1").unwrap_err();
    assert!(matches!(e, CVSSError::InvalidPrefix { .. }));
}

#[test]
fn v3_wrong_version_is_rejected() {
    let e = CVSS::from_str("CVSS:2.0/AV:N/AC:L/PR:N/UI:N/S:U/C:H/I:H/A:H").unwrap_err();
    match e {
        CVSSError::InvalidCVSSVersion { value, expected } => {
            assert_eq!(value, "2.0");
            assert_eq!(expected, "3.0 or 3.1");
        },
        _ => panic!("expected a version error"),
    }
}

#[test]
fn v3_v2_shaped_vector_fails() {
    // version isolation: a bare v2 vector names no v3 version
    let e = CVSS::from_str("AV:N/AC:L/Au:N/C:C/I:C/A:C").unwrap_err();
    assert!(matches!(e, CVSSError::InvalidCVSSVersion { .. }));
}

#[test]
fn v3_missing_field_is_rejected() {
    let e = CVSS::from_str("CVSS:3.1/AV:N/AC:L/PR:N/UI:N/S:U/C:H/I:H").unwrap_err();
    match e {
        CVSSError::InvalidCVSS { key, value, expected } => {
            assert_eq!(key, "A");
            assert_eq!(value, "");
            assert_eq!(expected, "H,L,N");
        },
        _ => panic!("expected a field error"),
    }
}

#[test]
fn v3_unrecognized_letter_is_rejected() {
    let e = CVSS::from_str("CVSS:3.1/AV:Z/AC:L/PR:N/UI:N/S:U/C:H/I:H/A:H").unwrap_err();
    match e {
        CVSSError::InvalidCVSS { key, value, expected } => {
            assert_eq!(key, "AV");
            assert_eq!(value, "AV:Z");
            assert_eq!(expected, "N,A,L,P");
        },
        _ => panic!("expected a field error"),
    }
}

#[test]
fn v3_fields_out_of_order_are_rejected() {
    let e = CVSS::from_str("CVSS:3.1/AC:L/AV:N/PR:N/UI:N/S:U/C:H/I:H/A:H").unwrap_err();
    assert!(matches!(e, CVSSError::InvalidCVSS { .. }));
}

#[test]
fn v3_value_must_be_single_letter() {
    let e = CVSS::from_str("CVSS:3.1/AV:NX/AC:L/PR:N/UI:N/S:U/C:H/I:H/A:H").unwrap_err();
    assert!(matches!(e, CVSSError::InvalidCVSS { .. }));
}

#[test]
fn v3_error_message_names_the_field() {
    let e = CVSS::from_str("CVSS:3.1/AV:Z/AC:L/PR:N/UI:N/S:U/C:H/I:H/A:H").unwrap_err();
    let m = e.message();
    assert!(m.contains("AV"));
    assert!(m.contains("N,A,L,P"));
}
