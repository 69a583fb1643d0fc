//! Qualitative severity bands.
//!
//! A numeric base score maps to a band; v3.x and v4.0 share the
//! five-band table, while v2.0 keeps its own coarser three-band table.
//! Scores are in tenths of a point.

use vstd::prelude::*;

verus! {

/// The five-band rating shared by v3.x and v4.0.
///
/// `Negligible` is the standard's `None` band, for a base score of 0.
#[derive(Debug, Clone, Copy, PartialEq, Eq, Structural)]
pub enum SeverityType {
    Negligible,
    Low,
    Medium,
    High,
    Critical,
}

/// The coarser three-band rating of v2.0.
#[derive(Debug, Clone, Copy, PartialEq, Eq, Structural)]
pub enum SeverityTypeV2 {
    Low,
    Medium,
    High,
}

/// The v3.x/v4.0 banding: 0 is `Negligible`, (0, 4) `Low`, [4, 7)
/// `Medium`, [7, 9) `High`, [9, 10] `Critical`.
pub open spec fn severity_from_tenths(t: int) -> SeverityType {
    if t == 0 {
        SeverityType::Negligible
    } else if t < 40 {
        SeverityType::Low
    } else if t < 70 {
        SeverityType::Medium
    } else if t < 90 {
        SeverityType::High
    } else {
        SeverityType::Critical
    }
}

/// The v2.0 banding: below 4 is `Low`, 4.0 to 6.9 `Medium`, 7 and above
/// `High`.
pub open spec fn severity_v2_from_tenths(t: int) -> SeverityTypeV2 {
    if t < 40 {
        SeverityTypeV2::Low
    } else if t < 70 {
        SeverityTypeV2::Medium
    } else {
        SeverityTypeV2::High
    }
}

impl SeverityType {
    /// The band of a v3.x or v4.0 base score given in tenths.
    pub fn from_tenths(t: u32) -> (r: SeverityType)
        ensures
            r == severity_from_tenths(t as int),
    {
        if t == 0 {
            SeverityType::Negligible
        } else if t < 40 {
            SeverityType::Low
        } else if t < 70 {
            SeverityType::Medium
        } else if t < 90 {
            SeverityType::High
        } else {
            SeverityType::Critical
        }
    }

    /// The band's conventional upper-case label.
    pub fn name(&self) -> (r: &'static str) {
        match self {
            SeverityType::Negligible => "NONE",
            SeverityType::Low => "LOW",
            SeverityType::Medium => "MEDIUM",
            SeverityType::High => "HIGH",
            SeverityType::Critical => "CRITICAL",
        }
    }
}

impl SeverityTypeV2 {
    /// The band of a v2.0 base score given in tenths.
    pub fn from_tenths(t: u32) -> (r: SeverityTypeV2)
        ensures
            r == severity_v2_from_tenths(t as int),
    {
        if t < 40 {
            SeverityTypeV2::Low
        } else if t < 70 {
            SeverityTypeV2::Medium
        } else {
            SeverityTypeV2::High
        }
    }

    /// The band's conventional upper-case label.
    pub fn name(&self) -> (r: &'static str) {
        match self {
            SeverityTypeV2::Low => "LOW",
            SeverityTypeV2::Medium => "MEDIUM",
            SeverityTypeV2::High => "HIGH",
        }
    }
}

} // verus!
