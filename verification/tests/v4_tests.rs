use cvss::severity::SeverityType;
use cvss::v4::{CVSS, SubsequentImpact, SubsequentConfidentialityImpactType,
    SubsequentIntegrityImpactType, SubsequentAvailabilityImpactType};
use cvss::metric::Worth;
use cvss::error::CVSSError;

#[test]
fn v4_known_vector_ten() {
    let c = CVSS::from_str("CVSS:4.0/AV:N/AC:L/AT:N/PR:N/UI:N/VC:H/VI:H/VA:H/SC:H/SI:H/SA:H")
        .unwrap();
    assert_eq!(c.base_score, 100);
    assert_eq!(c.base_severity, SeverityType::Critical);
}

#[test]
fn v4_known_vector_no_subsequent() {
    let c = CVSS::from_str("CVSS:4.0/AV:N/AC:L/AT:N/PR:N/UI:N/VC:H/VI:H/VA:H/SC:N/SI:N/SA:N")
        .unwrap();
    assert_eq!(c.base_score, 93);
    assert_eq!(c.base_severity, SeverityType::Critical);
}

#[test]
fn v4_known_vector_local() {
    let c = CVSS::from_str("CVSS:4.0/AV:L/AC:L/AT:N/PR:N/UI:N/VC:H/VI:H/VA:H/SC:N/SI:N/SA:N")
        .unwrap();
    assert_eq!(c.base_score, 86);
    assert_eq!(c.base_severity, SeverityType::High);
}

#[test]
fn v4_known_vector_passive_interaction() {
    let c = CVSS::from_str("CVSS:4.0/AV:N/AC:L/AT:N/PR:N/UI:P/VC:H/VI:H/VA:H/SC:N/SI:N/SA:N")
        .unwrap();
    assert_eq!(c.base_score, 87);
}

#[test]
fn v4_known_vector_low_impacts() {
    let c = CVSS::from_str("CVSS:4.0/AV:N/AC:L/AT:N/PR:N/UI:N/VC:L/VI:L/VA:N/SC:N/SI:N/SA:N")
        .unwrap();
    assert_eq!(c.base_score, 69);
    assert_eq!(c.base_severity, SeverityType::Medium);
}

#[test]
fn v4_all_none_scores_zero() {
    let c = CVSS::from_str("CVSS:4.0/AV:N/AC:L/AT:N/PR:N/UI:N/VC:N/VI:N/VA:N/SC:N/SI:N/SA:N")
        .unwrap();
    assert_eq!(c.base_score, 0);
    assert_eq!(c.base_severity, SeverityType::Negligible);
}

#[test]
fn v4_physical_worst_case() {
    let c = CVSS::from_str("CVSS:4.0/AV:P/AC:H/AT:P/PR:H/UI:A/VC:L/VI:L/VA:L/SC:L/SI:L/SA:L")
        .unwrap();
    assert_eq!(c.base_score, 10);
    assert_eq!(c.base_severity, SeverityType::Low);
}

#[test]
fn v4_mixed_vector() {
    let c = CVSS::from_str("CVSS:4.0/AV:A/AC:L/AT:N/PR:L/UI:P/VC:H/VI:L/VA:N/SC:N/SI:H/SA:N")
        .unwrap();
    assert_eq!(c.base_score, 67);
}

#[test]
fn v4_threat_metric_lowers_score() {
    let c = CVSS::from_str("CVSS:4.0/AV:N/AC:L/AT:N/PR:N/UI:N/VC:H/VI:H/VA:H/SC:H/SI:H/SA:H/E:U")
        .unwrap();
    assert_eq!(c.base_score, 91);
}

#[test]
fn v4_environmental_requirements() {
    let c = CVSS::from_str(
        "CVSS:4.0/AV:N/AC:L/AT:N/PR:N/UI:N/VC:H/VI:H/VA:H/SC:N/SI:N/SA:N/E:P/CR:M",
    ).unwrap();
    assert_eq!(c.base_score, 89);
}

#[test]
fn v4_case_insensitive_parse() {
    let c = CVSS::from_str("cvss:4.0/av:n/ac:l/at:n/pr:n/ui:n/vc:h/vi:h/va:h/sc:n/si:n/sa:n")
        .unwrap();
    assert_eq!(c.base_score, 93);
}

#[test]
fn v4_round_trip_base_vector() {
    let s = "CVSS:4.0/AV:A/AC:H/AT:P/PR:L/UI:P/VC:L/VI:H/VA:N/SC:L/SI:N/SA:H";
    let c = CVSS::from_str(s).unwrap();
    let formatted = c.to_vector_string();
    assert_eq!(formatted, s);
    let again = CVSS::from_str(&formatted).unwrap();
    assert_eq!(again.exploit_ability, c.exploit_ability);
    assert_eq!(again.vulnerable_impact, c.vulnerable_impact);
    assert_eq!(again.subsequent_impact, c.subsequent_impact);
    assert_eq!(again.base_score, c.base_score);
}

#[test]
fn v4_round_trip_with_optional_fields() {
    let s = "CVSS:4.0/AV:N/AC:L/AT:N/PR:N/UI:N/VC:H/VI:H/VA:H/SC:N/SI:N/SA:N/E:P/IR:M";
    let c = CVSS::from_str(s).unwrap();
    let formatted = c.to_vector_string();
    assert_eq!(formatted, s);
    let again = CVSS::from_str(&formatted).unwrap();
    assert_eq!(again.exploit_maturity, c.exploit_maturity);
    assert_eq!(again.integrity_requirement, c.integrity_requirement);
    assert_eq!(again.base_score, c.base_score);
}

#[test]
fn v4_trailing_unknown_field_is_rejected() {
    let e = CVSS::from_str(
        "CVSS:4.0/AV:N/AC:L/AT:N/PR:N/UI:N/VC:H/VI:H/VA:H/SC:N/SI:N/SA:N/MAV:N",
    ).unwrap_err();
    match e {
        CVSSError::InvalidCVSS { key, .. } => {
            assert_eq!(key, "MAV");
        },
        _ => panic!("expected a field error"),
    }
}

#[test]
fn v4_missing_field_is_rejected() {
    let e = CVSS::from_str("CVSS:4.0/AV:N/AC:L/AT:N/PR:N/UI:N/VC:H/VI:H/VA:H/SC:N/SI:N")
        .unwrap_err();
    match e {
        CVSSError::InvalidCVSS { key, value, .. } => {
            assert_eq!(key, "SA");
            assert_eq!(value, "");
        },
        _ => panic!("expected a field error"),
    }
}

#[test]
fn v4_wrong_version_is_rejected() {
    let e = CVSS::from_str("CVSS:3.1/AV:N/AC:L/AT:N/PR:N/UI:N/VC:H/VI:H/VA:H/SC:N/SI:N/SA:N")
        .unwrap_err();
    assert!(matches!(e, CVSSError::InvalidCVSSVersion { .. }));
}

#[test]
fn v4_optional_fields_out_of_order_are_rejected() {
    // CR may not precede E
    let e = CVSS::from_str(
        "CVSS:4.0/AV:N/AC:L/AT:N/PR:N/UI:N/VC:H/VI:H/VA:H/SC:N/SI:N/SA:N/CR:M/E:P",
    ).unwrap_err();
    assert!(matches!(e, CVSSError::InvalidCVSS { .. }));
}

#[test]
fn v4_subsequent_impact_helpers() {
    let all_none = SubsequentImpact {
        confidentiality_impact: SubsequentConfidentialityImpactType::Negligible,
        integrity_impact: SubsequentIntegrityImpactType::Negligible,
        availability_impact: SubsequentAvailabilityImpactType::Negligible,
    };
    assert!(all_none.all_none());
    assert_eq!(all_none.eq4(), Some(2));
    let one_high = SubsequentImpact {
        confidentiality_impact: SubsequentConfidentialityImpactType::Negligible,
        integrity_impact: SubsequentIntegrityImpactType::High,
        availability_impact: SubsequentAvailabilityImpactType::Low,
    };
    assert!(!one_high.all_none());
    assert_eq!(one_high.eq4(), Some(1));
    assert!(one_high.integrity_impact.is_high());
    assert!(!one_high.integrity_impact.is_none());
    assert!(!one_high.availability_impact.is_high());
    assert!(one_high.confidentiality_impact.is_none());
}

#[test]
fn v4_metric_help_worth() {
    assert_eq!(SubsequentConfidentialityImpactType::High.metric_help().worth, Worth::Worst);
    assert_eq!(SubsequentIntegrityImpactType::Low.metric_help().worth, Worth::Bad);
    assert_eq!(SubsequentAvailabilityImpactType::Negligible.metric_help().worth, Worth::Good);
    assert!(!SubsequentConfidentialityImpactType::High.metric_help().des.is_empty());
}
