//! The CVE record data model.
//!
//! Plain data as the vulnerability feeds publish it: a CVE entry with
//! its metadata, references, descriptions, problem types, configuration
//! nodes, and the impact block holding the scored CVSS metrics.  The
//! engine only fills the impact block; everything else is carried
//! through for the storage and presentation layers.

use vstd::prelude::*;
use crate::error::{CVSSError, CVSSErrorSeq};
use crate::severity::severity_from_tenths;
use crate::version::Version;
use crate::v3;
use crate::v3::{v3_from_str_spec, v3_expl_tenths, v3_impact_tenths, v3_base_tenths};
use crate::v2;

verus! {

/// One CVE entry of a feed.
#[derive(Debug, Clone)]
pub struct CVEItem {
    pub cve: CVE,
    pub impact: Impact,
    pub configurations: Configurations,
    pub published_date: String,
    pub last_modified_date: String,
}

/// The impact block of an entry: the scored metrics per CVSS version,
/// either of which may be absent.
#[derive(Debug, Clone)]
pub struct Impact {
    pub base_metric_v2: Option<ImpactMetricV2>,
    pub base_metric_v3: Option<ImpactMetricV3>,
}

/// A scored v2.0 metric set as the feed carries it, together with the
/// informational adjustment flags that do not affect the base score.
/// Scores are in tenths of a point.
#[derive(Debug, Clone)]
pub struct ImpactMetricV2 {
    pub cvss_v2: v2::CVSS,
    pub exploitability_score: u32,
    pub impact_score: u32,
    pub severity: String,
    pub ac_insuf_info: Option<bool>,
    pub obtain_all_privilege: bool,
    pub obtain_user_privilege: bool,
    pub obtain_other_privilege: bool,
    pub user_interaction_required: Option<bool>,
}

/// A scored v3.x metric set as the feed carries it.  Scores are in
/// tenths of a point.
#[derive(Debug, Clone)]
pub struct ImpactMetricV3 {
    pub cvss_v3: v3::CVSS,
    pub exploitability_score: u32,
    pub impact_score: u32,
}

impl ImpactMetricV3 {
    /// Parse and score a v3.x vector string into a feed impact metric.
    ///
    /// Succeeds exactly when [`v3::CVSS::from_str`] does, and then
    /// carries that record together with its two sub-scores.
    pub fn from_str(s: &str) -> (r: Result<ImpactMetricV3, CVSSError>)
        ensures
            (match r {
                Result::Ok(im) => {
                    &&& v3_from_str_spec(s@) == Result::<
                        (Version, v3::ExploitAbility, v3::ScopeType, v3::Impact),
                        CVSSErrorSeq,
                    >::Ok(
                        (
                            im.cvss_v3.version,
                            im.cvss_v3.exploit_ability,
                            im.cvss_v3.scope,
                            im.cvss_v3.impact,
                        ),
                    )
                    &&& im.cvss_v3.vector_string@ == s@
                    &&& im.cvss_v3.base_score == v3_base_tenths(
                        im.cvss_v3.exploit_ability,
                        im.cvss_v3.scope,
                        im.cvss_v3.impact,
                    )
                    &&& im.cvss_v3.base_severity == severity_from_tenths(
                        im.cvss_v3.base_score as int,
                    )
                    &&& im.exploitability_score == v3_expl_tenths(
                        im.cvss_v3.exploit_ability,
                        im.cvss_v3.scope.changed(),
                    )
                    &&& im.impact_score == v3_impact_tenths(im.cvss_v3.scope, im.cvss_v3.impact)
                },
                Result::Err(e) => v3_from_str_spec(s@) == Result::<
                    (Version, v3::ExploitAbility, v3::ScopeType, v3::Impact),
                    CVSSErrorSeq,
                >::Err(e@),
            }),
    {
        match v3::CVSS::from_str(s) {
            Result::Ok(c) => {
                let exploitability_score = c.exploitability_score();
                let impact_score = c.impact_score();
                Result::Ok(ImpactMetricV3 { cvss_v3: c, exploitability_score, impact_score })
            },
            Result::Err(err) => Result::Err(err),
        }
    }
}

/// The product configurations an entry applies to.
#[derive(Debug, Clone)]
pub struct Configurations {
    pub data_version: String,
    pub nodes: Vec<Node>,
}

/// One node of a configuration tree: an operator over CPE match
/// expressions.
#[derive(Debug, Clone)]
pub struct Node {
    pub operator: String,
    pub cpe_match: Vec<String>,
}

/// The descriptive core of an entry.
#[derive(Debug, Clone)]
pub struct CVE {
    pub meta: Meta,
    pub references: References,
    pub description: Description,
    pub problem_type: ProblemType,
}

/// The reference list of an entry.
#[derive(Debug, Clone)]
pub struct References {
    pub reference_data: Vec<Reference>,
}

/// One external reference.
#[derive(Debug, Clone)]
pub struct Reference {
    pub url: String,
    pub name: String,
    pub tags: Vec<String>,
}

/// The descriptive core of an entry, as some feeds flatten it.
#[derive(Debug, Clone)]
pub struct Info {
    pub meta: Meta,
    pub references: References,
    pub description: Description,
    pub problem_type: ProblemType,
}

/// The weakness classification of an entry.
#[derive(Debug, Clone)]
pub struct ProblemType {
    pub problem_type_data: Vec<ProblemTypeDataItem>,
}

/// One weakness classification group.
#[derive(Debug, Clone)]
pub struct ProblemTypeDataItem {
    pub description: Vec<ProblemTypeDescription>,
}

/// One weakness description, with its language tag.
#[derive(Debug, Clone)]
pub struct ProblemTypeDescription {
    pub lang: String,
    pub value: String,
}

/// The description list of an entry.
#[derive(Debug, Clone)]
pub struct Description {
    pub description_data: Vec<DescriptionData>,
}

/// One description, with its language tag.
#[derive(Debug, Clone)]
pub struct DescriptionData {
    pub lang: String,
    pub value: String,
}

/// The identifying metadata of an entry.
#[derive(Debug, Clone)]
pub struct Meta {
    pub id: String,
    pub assigner: Option<String>,
}

} // verus!
