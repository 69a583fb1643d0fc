use cvss::score::roundup;
use cvss::severity::{SeverityType, SeverityTypeV2};
use cvss::version::Version;
use cvss::cve::{ImpactMetricV3, Meta, Reference};

#[test]
fn roundup_examples() {
    // the published examples: inputs are the score scaled by 100 000,
    // results in tenths
    assert_eq!(roundup(402000), 41);
    assert_eq!(roundup(400000), 40);
    assert_eq!(roundup(410000), 41);
    assert_eq!(roundup(0), 0);
}

#[test]
fn roundup_more_cases() {
    assert_eq!(roundup(1), 1);
    assert_eq!(roundup(99999), 10);
    assert_eq!(roundup(100000), 10);
    assert_eq!(roundup(1000000), 100);
    assert_eq!(roundup(534933), 54);
}

#[test]
fn version_from_str_recognizes_all() {
    assert_eq!(Version::from_str("CVSS:3.1").unwrap(), Version::V3_1);
    assert_eq!(Version::from_str("cvss:3.0").unwrap(), Version::V3_0);
    assert_eq!(Version::from_str("2.0").unwrap(), Version::V2_0);
    assert_eq!(Version::from_str("4.0").unwrap(), Version::V4_0);
    assert_eq!(Version::from_str("5.0").unwrap(), Version::Unknown);
    assert_eq!(Version::from_str("").unwrap(), Version::Unknown);
    assert_eq!(Version::from_str("CVSS:").unwrap(), Version::Unknown);
}

#[test]
fn version_names() {
    assert_eq!(Version::V3_1.name(), "3.1");
    assert_eq!(Version::Unknown.name(), "NONE");
    assert_eq!(Version::default(), Version::Unknown);
}

#[test]
fn severity_bands_v3() {
    assert_eq!(SeverityType::from_tenths(0), SeverityType::Negligible);
    assert_eq!(SeverityType::from_tenths(1), SeverityType::Low);
    assert_eq!(SeverityType::from_tenths(39), SeverityType::Low);
    assert_eq!(SeverityType::from_tenths(40), SeverityType::Medium);
    assert_eq!(SeverityType::from_tenths(69), SeverityType::Medium);
    assert_eq!(SeverityType::from_tenths(70), SeverityType::High);
    assert_eq!(SeverityType::from_tenths(89), SeverityType::High);
    assert_eq!(SeverityType::from_tenths(90), SeverityType::Critical);
    assert_eq!(SeverityType::from_tenths(100), SeverityType::Critical);
    assert_eq!(SeverityType::Critical.name(), "CRITICAL");
    assert_eq!(SeverityType::Negligible.name(), "NONE");
}

#[test]
fn severity_bands_v2() {
    assert_eq!(SeverityTypeV2::from_tenths(0), SeverityTypeV2::Low);
    assert_eq!(SeverityTypeV2::from_tenths(39), SeverityTypeV2::Low);
    assert_eq!(SeverityTypeV2::from_tenths(40), SeverityTypeV2::Medium);
    assert_eq!(SeverityTypeV2::from_tenths(69), SeverityTypeV2::Medium);
    assert_eq!(SeverityTypeV2::from_tenths(70), SeverityTypeV2::High);
    assert_eq!(SeverityTypeV2::from_tenths(100), SeverityTypeV2::High);
    assert_eq!(SeverityTypeV2::Medium.name(), "MEDIUM");
}

#[test]
fn impact_metric_v3_from_str() {
    let im = ImpactMetricV3::from_str("CVSS:3.1/AV:N/AC:L/PR:N/UI:N/S:U/C:H/I:H/A:H").unwrap();
    assert_eq!(im.cvss_v3.base_score, 98);
    assert_eq!(im.exploitability_score, 39);
    assert_eq!(im.impact_score, 59);
}

#[test]
fn impact_metric_v3_propagates_errors() {
    assert!(ImpactMetricV3::from_str("not a vector").is_err());
}

#[test]
fn cve_data_model_holds_plain_values() {
    let meta = Meta { id: "CVE-2024-0001".to_string(), assigner: None };
    assert_eq!(meta.id, "CVE-2024-0001");
    let r = Reference {
        url: "https://example.org/advisory".to_string(),
        name: "advisory".to_string(),
        tags: vec!["vendor".to_string()],
    };
    assert_eq!(r.tags.len(), 1);
}
