//! CVSS v2.0.
//!
//! The legacy additive formula:
//!
//! * `Exploitability = 20 * AV * AC * Au`
//! * `Impact = 10.41 * (1 - (1-C)(1-I)(1-A))`
//! * `BaseScore = ((0.6 * Impact + 0.4 * Exploitability - 1.5) * f(Impact))`
//!   rounded to one decimal by plain nearest rounding, where
//!   `f(Impact)` is 0 when the impact is 0 and 1.176 otherwise.
//!
//! All weights are three-decimal constants, so the whole computation is
//! exact over integers scaled by a fixed power of ten.  A v2.0 vector
//! string carries no `CVSS:` tag by convention (`AV:N/AC:L/Au:N/...`),
//! and the grammar accepts it with or without the `2.0` version prefix.

use vstd::prelude::*;
use crate::error::{CVSSError, CVSSErrorSeq};
use crate::score::{nearest_half_up, nearest_half_up_u64, lemma_nearest_le};
use crate::severity::{SeverityTypeV2, severity_v2_from_tenths};
use crate::text::{upper_seq, upper_chars_of, upper_char, lemma_upper_seq_concat, find,
    lemma_find_is, push_char, find_from};
use crate::vector::{
    parse_field, parse_field_exec, state_view, rest, tok, cons_token, field_seq,
    lemma_field_token, lemma_upper_field, lemma_upper_cons,
};
use crate::version::{Version, version_from_seq, version_name_seq, version_from_chars};
use vstd::string::StringExecFns;

verus! {

/// Access Vector (AV): how remote an attacker can be.
#[derive(Debug, Clone, Copy, PartialEq, Eq, Structural)]
pub enum AccessVectorType {
    Network,
    AdjacentNetwork,
    Local,
}

impl AccessVectorType {
    /// The wire letter.
    pub open spec fn code(self) -> char {
        match self {
            AccessVectorType::Network => 'N',
            AccessVectorType::AdjacentNetwork => 'A',
            AccessVectorType::Local => 'L',
        }
    }

    /// The letters the grammar accepts for this metric.
    pub open spec fn letters() -> Seq<char> {
        seq!['N', 'A', 'L']
    }

    /// The value a wire letter decodes to (unaccepted letters are mapped
    /// arbitrarily; the parser only applies this to accepted ones).
    pub open spec fn from_code(c: char) -> Self {
        match c {
            'A' => AccessVectorType::AdjacentNetwork,
            'L' => AccessVectorType::Local,
            _ => AccessVectorType::Network,
        }
    }

    /// The formula weight, scaled by 1000.
    pub open spec fn weight_x1000(self) -> int {
        match self {
            AccessVectorType::Network => 1000,
            AccessVectorType::AdjacentNetwork => 646,
            AccessVectorType::Local => 395,
        }
    }

    pub fn weight(&self) -> (w: u64)
        ensures
            w == self.weight_x1000(),
            w <= 1000,
    {
        match self {
            AccessVectorType::Network => 1000,
            AccessVectorType::AdjacentNetwork => 646,
            AccessVectorType::Local => 395,
        }
    }

    fn from_letter(c: char) -> (m: Self)
        ensures
            m == Self::from_code(c),
    {
        match c {
            'A' => AccessVectorType::AdjacentNetwork,
            'L' => AccessVectorType::Local,
            _ => AccessVectorType::Network,
        }
    }

    /// The wire letter this value prints as.
    pub fn as_letter(&self) -> (c: char)
        ensures
            c == self.code(),
    {
        match self {
            AccessVectorType::Network => 'N',
            AccessVectorType::AdjacentNetwork => 'A',
            AccessVectorType::Local => 'L',
        }
    }
}

/// A wire letter decodes back to the value that printed it.
proof fn lemma_code_AccessVectorType(m: AccessVectorType)
    ensures
        AccessVectorType::letters().contains(m.code()),
        AccessVectorType::from_code(m.code()) == m,
        upper_char(m.code()) == m.code(),
        m.code() != '/',
{
    match m {
        AccessVectorType::Network => {
            assert(AccessVectorType::letters()[0] == 'N');
        },
        AccessVectorType::AdjacentNetwork => {
            assert(AccessVectorType::letters()[1] == 'A');
        },
        AccessVectorType::Local => {
            assert(AccessVectorType::letters()[2] == 'L');
        },
    }
}

/// Access Complexity (AC): how hard the attack is once access is gained.
#[derive(Debug, Clone, Copy, PartialEq, Eq, Structural)]
pub enum AccessComplexityType {
    High,
    Medium,
    Low,
}

impl AccessComplexityType {
    /// The wire letter.
    pub open spec fn code(self) -> char {
        match self {
            AccessComplexityType::High => 'H',
            AccessComplexityType::Medium => 'M',
            AccessComplexityType::Low => 'L',
        }
    }

    /// The letters the grammar accepts for this metric.
    pub open spec fn letters() -> Seq<char> {
        seq!['H', 'M', 'L']
    }

    /// The value a wire letter decodes to (unaccepted letters are mapped
    /// arbitrarily; the parser only applies this to accepted ones).
    pub open spec fn from_code(c: char) -> Self {
        match c {
            'H' => AccessComplexityType::High,
            'M' => AccessComplexityType::Medium,
            _ => AccessComplexityType::Low,
        }
    }

    /// The formula weight, scaled by 1000.
    pub open spec fn weight_x1000(self) -> int {
        match self {
            AccessComplexityType::High => 350,
            AccessComplexityType::Medium => 610,
            AccessComplexityType::Low => 710,
        }
    }

    pub fn weight(&self) -> (w: u64)
        ensures
            w == self.weight_x1000(),
            w <= 710,
    {
        match self {
            AccessComplexityType::High => 350,
            AccessComplexityType::Medium => 610,
            AccessComplexityType::Low => 710,
        }
    }

    fn from_letter(c: char) -> (m: Self)
        ensures
            m == Self::from_code(c),
    {
        match c {
            'H' => AccessComplexityType::High,
            'M' => AccessComplexityType::Medium,
            _ => AccessComplexityType::Low,
        }
    }

    /// The wire letter this value prints as.
    pub fn as_letter(&self) -> (c: char)
        ensures
            c == self.code(),
    {
        match self {
            AccessComplexityType::High => 'H',
            AccessComplexityType::Medium => 'M',
            AccessComplexityType::Low => 'L',
        }
    }
}

/// A wire letter decodes back to the value that printed it.
proof fn lemma_code_AccessComplexityType(m: AccessComplexityType)
    ensures
        AccessComplexityType::letters().contains(m.code()),
        AccessComplexityType::from_code(m.code()) == m,
        upper_char(m.code()) == m.code(),
        m.code() != '/',
{
    match m {
        AccessComplexityType::High => {
            assert(AccessComplexityType::letters()[0] == 'H');
        },
        AccessComplexityType::Medium => {
            assert(AccessComplexityType::letters()[1] == 'M');
        },
        AccessComplexityType::Low => {
            assert(AccessComplexityType::letters()[2] == 'L');
        },
    }
}

/// Authentication (Au): how often an attacker must authenticate.
#[derive(Debug, Clone, Copy, PartialEq, Eq, Structural)]
pub enum AuthenticationType {
    Multiple,
    Single,
    NotRequired,
}

impl AuthenticationType {
    /// The wire letter.
    pub open spec fn code(self) -> char {
        match self {
            AuthenticationType::Multiple => 'M',
            AuthenticationType::Single => 'S',
            AuthenticationType::NotRequired => 'N',
        }
    }

    /// The letters the grammar accepts for this metric.
    pub open spec fn letters() -> Seq<char> {
        seq!['M', 'S', 'N']
    }

    /// The value a wire letter decodes to (unaccepted letters are mapped
    /// arbitrarily; the parser only applies this to accepted ones).
    pub open spec fn from_code(c: char) -> Self {
        match c {
            'M' => AuthenticationType::Multiple,
            'S' => AuthenticationType::Single,
            _ => AuthenticationType::NotRequired,
        }
    }

    /// The formula weight, scaled by 1000.
    pub open spec fn weight_x1000(self) -> int {
        match self {
            AuthenticationType::Multiple => 450,
            AuthenticationType::Single => 560,
            AuthenticationType::NotRequired => 704,
        }
    }

    pub fn weight(&self) -> (w: u64)
        ensures
            w == self.weight_x1000(),
            w <= 704,
    {
        match self {
            AuthenticationType::Multiple => 450,
            AuthenticationType::Single => 560,
            AuthenticationType::NotRequired => 704,
        }
    }

    fn from_letter(c: char) -> (m: Self)
        ensures
            m == Self::from_code(c),
    {
        match c {
            'M' => AuthenticationType::Multiple,
            'S' => AuthenticationType::Single,
            _ => AuthenticationType::NotRequired,
        }
    }

    /// The wire letter this value prints as.
    pub fn as_letter(&self) -> (c: char)
        ensures
            c == self.code(),
    {
        match self {
            AuthenticationType::Multiple => 'M',
            AuthenticationType::Single => 'S',
            AuthenticationType::NotRequired => 'N',
        }
    }
}

/// A wire letter decodes back to the value that printed it.
proof fn lemma_code_AuthenticationType(m: AuthenticationType)
    ensures
        AuthenticationType::letters().contains(m.code()),
        AuthenticationType::from_code(m.code()) == m,
        upper_char(m.code()) == m.code(),
        m.code() != '/',
{
    match m {
        AuthenticationType::Multiple => {
            assert(AuthenticationType::letters()[0] == 'M');
        },
        AuthenticationType::Single => {
            assert(AuthenticationType::letters()[1] == 'S');
        },
        AuthenticationType::NotRequired => {
            assert(AuthenticationType::letters()[2] == 'N');
        },
    }
}

/// Confidentiality Impact (C).
#[derive(Debug, Clone, Copy, PartialEq, Eq, Structural)]
pub enum ConfidentialityImpactType {
    Negligible,
    Partial,
    Complete,
}

impl ConfidentialityImpactType {
    /// The wire letter.
    pub open spec fn code(self) -> char {
        match self {
            ConfidentialityImpactType::Negligible => 'N',
            ConfidentialityImpactType::Partial => 'P',
            ConfidentialityImpactType::Complete => 'C',
        }
    }

    /// The letters the grammar accepts for this metric.
    pub open spec fn letters() -> Seq<char> {
        seq!['N', 'P', 'C']
    }

    /// The value a wire letter decodes to (unaccepted letters are mapped
    /// arbitrarily; the parser only applies this to accepted ones).
    pub open spec fn from_code(c: char) -> Self {
        match c {
            'P' => ConfidentialityImpactType::Partial,
            'C' => ConfidentialityImpactType::Complete,
            _ => ConfidentialityImpactType::Negligible,
        }
    }

    /// The formula weight, scaled by 1000.
    pub open spec fn weight_x1000(self) -> int {
        match self {
            ConfidentialityImpactType::Negligible => 0,
            ConfidentialityImpactType::Partial => 275,
            ConfidentialityImpactType::Complete => 660,
        }
    }

    pub fn weight(&self) -> (w: u64)
        ensures
            w == self.weight_x1000(),
            w <= 660,
    {
        match self {
            ConfidentialityImpactType::Negligible => 0,
            ConfidentialityImpactType::Partial => 275,
            ConfidentialityImpactType::Complete => 660,
        }
    }

    fn from_letter(c: char) -> (m: Self)
        ensures
            m == Self::from_code(c),
    {
        match c {
            'P' => ConfidentialityImpactType::Partial,
            'C' => ConfidentialityImpactType::Complete,
            _ => ConfidentialityImpactType::Negligible,
        }
    }

    /// The wire letter this value prints as.
    pub fn as_letter(&self) -> (c: char)
        ensures
            c == self.code(),
    {
        match self {
            ConfidentialityImpactType::Negligible => 'N',
            ConfidentialityImpactType::Partial => 'P',
            ConfidentialityImpactType::Complete => 'C',
        }
    }
}

/// A wire letter decodes back to the value that printed it.
proof fn lemma_code_ConfidentialityImpactType(m: ConfidentialityImpactType)
    ensures
        ConfidentialityImpactType::letters().contains(m.code()),
        ConfidentialityImpactType::from_code(m.code()) == m,
        upper_char(m.code()) == m.code(),
        m.code() != '/',
{
    match m {
        ConfidentialityImpactType::Negligible => {
            assert(ConfidentialityImpactType::letters()[0] == 'N');
        },
        ConfidentialityImpactType::Partial => {
            assert(ConfidentialityImpactType::letters()[1] == 'P');
        },
        ConfidentialityImpactType::Complete => {
            assert(ConfidentialityImpactType::letters()[2] == 'C');
        },
    }
}

/// Integrity Impact (I).
#[derive(Debug, Clone, Copy, PartialEq, Eq, Structural)]
pub enum IntegrityImpactType {
    Negligible,
    Partial,
    Complete,
}

impl IntegrityImpactType {
    /// The wire letter.
    pub open spec fn code(self) -> char {
        match self {
            IntegrityImpactType::Negligible => 'N',
            IntegrityImpactType::Partial => 'P',
            IntegrityImpactType::Complete => 'C',
        }
    }

    /// The letters the grammar accepts for this metric.
    pub open spec fn letters() -> Seq<char> {
        seq!['N', 'P', 'C']
    }

    /// The value a wire letter decodes to (unaccepted letters are mapped
    /// arbitrarily; the parser only applies this to accepted ones).
    pub open spec fn from_code(c: char) -> Self {
        match c {
            'P' => IntegrityImpactType::Partial,
            'C' => IntegrityImpactType::Complete,
            _ => IntegrityImpactType::Negligible,
        }
    }

    /// The formula weight, scaled by 1000.
    pub open spec fn weight_x1000(self) -> int {
        match self {
            IntegrityImpactType::Negligible => 0,
            IntegrityImpactType::Partial => 275,
            IntegrityImpactType::Complete => 660,
        }
    }

    pub fn weight(&self) -> (w: u64)
        ensures
            w == self.weight_x1000(),
            w <= 660,
    {
        match self {
            IntegrityImpactType::Negligible => 0,
            IntegrityImpactType::Partial => 275,
            IntegrityImpactType::Complete => 660,
        }
    }

    fn from_letter(c: char) -> (m: Self)
        ensures
            m == Self::from_code(c),
    {
        match c {
            'P' => IntegrityImpactType::Partial,
            'C' => IntegrityImpactType::Complete,
            _ => IntegrityImpactType::Negligible,
        }
    }

    /// The wire letter this value prints as.
    pub fn as_letter(&self) -> (c: char)
        ensures
            c == self.code(),
    {
        match self {
            IntegrityImpactType::Negligible => 'N',
            IntegrityImpactType::Partial => 'P',
            IntegrityImpactType::Complete => 'C',
        }
    }
}

/// A wire letter decodes back to the value that printed it.
proof fn lemma_code_IntegrityImpactType(m: IntegrityImpactType)
    ensures
        IntegrityImpactType::letters().contains(m.code()),
        IntegrityImpactType::from_code(m.code()) == m,
        upper_char(m.code()) == m.code(),
        m.code() != '/',
{
    match m {
        IntegrityImpactType::Negligible => {
            assert(IntegrityImpactType::letters()[0] == 'N');
        },
        IntegrityImpactType::Partial => {
            assert(IntegrityImpactType::letters()[1] == 'P');
        },
        IntegrityImpactType::Complete => {
            assert(IntegrityImpactType::letters()[2] == 'C');
        },
    }
}

/// Availability Impact (A).
#[derive(Debug, Clone, Copy, PartialEq, Eq, Structural)]
pub enum AvailabilityImpactType {
    Negligible,
    Partial,
    Complete,
}

impl AvailabilityImpactType {
    /// The wire letter.
    pub open spec fn code(self) -> char {
        match self {
            AvailabilityImpactType::Negligible => 'N',
            AvailabilityImpactType::Partial => 'P',
            AvailabilityImpactType::Complete => 'C',
        }
    }

    /// The letters the grammar accepts for this metric.
    pub open spec fn letters() -> Seq<char> {
        seq!['N', 'P', 'C']
    }

    /// The value a wire letter decodes to (unaccepted letters are mapped
    /// arbitrarily; the parser only applies this to accepted ones).
    pub open spec fn from_code(c: char) -> Self {
        match c {
            'P' => AvailabilityImpactType::Partial,
            'C' => AvailabilityImpactType::Complete,
            _ => AvailabilityImpactType::Negligible,
        }
    }

    /// The formula weight, scaled by 1000.
    pub open spec fn weight_x1000(self) -> int {
        match self {
            AvailabilityImpactType::Negligible => 0,
            AvailabilityImpactType::Partial => 275,
            AvailabilityImpactType::Complete => 660,
        }
    }

    pub fn weight(&self) -> (w: u64)
        ensures
            w == self.weight_x1000(),
            w <= 660,
    {
        match self {
            AvailabilityImpactType::Negligible => 0,
            AvailabilityImpactType::Partial => 275,
            AvailabilityImpactType::Complete => 660,
        }
    }

    fn from_letter(c: char) -> (m: Self)
        ensures
            m == Self::from_code(c),
    {
        match c {
            'P' => AvailabilityImpactType::Partial,
            'C' => AvailabilityImpactType::Complete,
            _ => AvailabilityImpactType::Negligible,
        }
    }

    /// The wire letter this value prints as.
    pub fn as_letter(&self) -> (c: char)
        ensures
            c == self.code(),
    {
        match self {
            AvailabilityImpactType::Negligible => 'N',
            AvailabilityImpactType::Partial => 'P',
            AvailabilityImpactType::Complete => 'C',
        }
    }
}

/// A wire letter decodes back to the value that printed it.
proof fn lemma_code_AvailabilityImpactType(m: AvailabilityImpactType)
    ensures
        AvailabilityImpactType::letters().contains(m.code()),
        AvailabilityImpactType::from_code(m.code()) == m,
        upper_char(m.code()) == m.code(),
        m.code() != '/',
{
    match m {
        AvailabilityImpactType::Negligible => {
            assert(AvailabilityImpactType::letters()[0] == 'N');
        },
        AvailabilityImpactType::Partial => {
            assert(AvailabilityImpactType::letters()[1] == 'P');
        },
        AvailabilityImpactType::Complete => {
            assert(AvailabilityImpactType::letters()[2] == 'C');
        },
    }
}

/// The exploitability metrics of v2.0.
#[derive(Debug, Clone, Copy, PartialEq, Eq, Structural)]
pub struct ExploitAbility {
    pub access_vector: AccessVectorType,
    pub access_complexity: AccessComplexityType,
    pub authentication: AuthenticationType,
}

/// The impact metrics of v2.0.
#[derive(Debug, Clone, Copy, PartialEq, Eq, Structural)]
pub struct Impact {
    pub confidentiality_impact: ConfidentialityImpactType,
    pub integrity_impact: IntegrityImpactType,
    pub availability_impact: AvailabilityImpactType,
}

/// `20 * AV * AC * Au`, scaled by `10^9`.
pub open spec fn expl_n9(ea: ExploitAbility) -> int {
    20 * ea.access_vector.weight_x1000() * ea.access_complexity.weight_x1000()
        * ea.authentication.weight_x1000()
}

/// `10.41 * (1 - (1-C)(1-I)(1-A))`, scaled by `10^11`.
pub open spec fn impact_n11(im: Impact) -> int {
    1041 * (1000000000 - (1000 - im.confidentiality_impact.weight_x1000()) * (1000
        - im.integrity_impact.weight_x1000()) * (1000 - im.availability_impact.weight_x1000()))
}

/// The exposed impact sub-score: nearest tenth.
pub open spec fn v2_impact_tenths(im: Impact) -> int {
    nearest_half_up(10 * impact_n11(im), 100000000000)
}

/// The exposed exploitability sub-score: nearest tenth.
pub open spec fn v2_expl_tenths(ea: ExploitAbility) -> int {
    nearest_half_up(10 * expl_n9(ea), 1000000000)
}

/// The base score in tenths: 0 when the impact is 0, else
/// `(0.6 * Impact + 0.4 * Exploitability - 1.5) * 1.176` rounded to the
/// nearest tenth.
pub open spec fn v2_base_tenths(ea: ExploitAbility, im: Impact) -> int {
    if impact_n11(im) == 0 {
        0
    } else {
        // the inner sum scaled by 10^12, times 1.176, is the score
        // scaled by 10^15
        nearest_half_up(
            11760 * (6 * impact_n11(im) + 400 * expl_n9(ea) - 1500000000000),
            1000000000000000,
        )
    }
}

/// The impact product can only take ten values: one per multiset of
/// impact weights.
proof fn lemma_impact_cases(im: Impact)
    ensures
        impact_n11(im) == 0 || impact_n11(im) == 286275000000 || impact_n11(im) == 493824375000 || impact_n11(im) == 644297671875 || impact_n11(im) == 687060000000 || impact_n11(im) == 784393500000 || impact_n11(im) == 854960287500 || impact_n11(im) == 920660400000 || impact_n11(im) == 953753790000 || impact_n11(im) == 1000084536000,
{
    match (im.confidentiality_impact, im.integrity_impact, im.availability_impact) {
        (ConfidentialityImpactType::Complete, IntegrityImpactType::Complete, AvailabilityImpactType::Complete) => {
            assert((1000 - im.confidentiality_impact.weight_x1000()) * (1000
                - im.integrity_impact.weight_x1000()) * (1000
                - im.availability_impact.weight_x1000()) == 39304000) by (nonlinear_arith)
                requires
                    im.confidentiality_impact.weight_x1000() == 660,
                    im.integrity_impact.weight_x1000() == 660,
                    im.availability_impact.weight_x1000() == 660,
            ;
            assert(impact_n11(im) == 1000084536000);
        },
        (ConfidentialityImpactType::Complete, IntegrityImpactType::Complete, AvailabilityImpactType::Partial) => {
            assert((1000 - im.confidentiality_impact.weight_x1000()) * (1000
                - im.integrity_impact.weight_x1000()) * (1000
                - im.availability_impact.weight_x1000()) == 83810000) by (nonlinear_arith)
                requires
                    im.confidentiality_impact.weight_x1000() == 660,
                    im.integrity_impact.weight_x1000() == 660,
                    im.availability_impact.weight_x1000() == 275,
            ;
            assert(impact_n11(im) == 953753790000);
        },
        (ConfidentialityImpactType::Complete, IntegrityImpactType::Complete, AvailabilityImpactType::Negligible) => {
            assert((1000 - im.confidentiality_impact.weight_x1000()) * (1000
                - im.integrity_impact.weight_x1000()) * (1000
                - im.availability_impact.weight_x1000()) == 115600000) by (nonlinear_arith)
                requires
                    im.confidentiality_impact.weight_x1000() == 660,
                    im.integrity_impact.weight_x1000() == 660,
                    im.availability_impact.weight_x1000() == 0,
            ;
            assert(impact_n11(im) == 920660400000);
        },
        (ConfidentialityImpactType::Complete, IntegrityImpactType::Partial, AvailabilityImpactType::Complete) => {
            assert((1000 - im.confidentiality_impact.weight_x1000()) * (1000
                - im.integrity_impact.weight_x1000()) * (1000
                - im.availability_impact.weight_x1000()) == 83810000) by (nonlinear_arith)
                requires
                    im.confidentiality_impact.weight_x1000() == 660,
                    im.integrity_impact.weight_x1000() == 275,
                    im.availability_impact.weight_x1000() == 660,
            ;
            assert(impact_n11(im) == 953753790000);
        },
        (ConfidentialityImpactType::Complete, IntegrityImpactType::Partial, AvailabilityImpactType::Partial) => {
            assert((1000 - im.confidentiality_impact.weight_x1000()) * (1000
                - im.integrity_impact.weight_x1000()) * (1000
                - im.availability_impact.weight_x1000()) == 178712500) by (nonlinear_arith)
                requires
                    im.confidentiality_impact.weight_x1000() == 660,
                    im.integrity_impact.weight_x1000() == 275,
                    im.availability_impact.weight_x1000() == 275,
            ;
            assert(impact_n11(im) == 854960287500);
        },
        (ConfidentialityImpactType::Complete, IntegrityImpactType::Partial, AvailabilityImpactType::Negligible) => {
            assert((1000 - im.confidentiality_impact.weight_x1000()) * (1000
                - im.integrity_impact.weight_x1000()) * (1000
                - im.availability_impact.weight_x1000()) == 246500000) by (nonlinear_arith)
                requires
                    im.confidentiality_impact.weight_x1000() == 660,
                    im.integrity_impact.weight_x1000() == 275,
                    im.availability_impact.weight_x1000() == 0,
            ;
            assert(impact_n11(im) == 784393500000);
        },
        (ConfidentialityImpactType::Complete, IntegrityImpactType::Negligible, AvailabilityImpactType::Complete) => {
            assert((1000 - im.confidentiality_impact.weight_x1000()) * (1000
                - im.integrity_impact.weight_x1000()) * (1000
                - im.availability_impact.weight_x1000()) == 115600000) by (nonlinear_arith)
                requires
                    im.confidentiality_impact.weight_x1000() == 660,
                    im.integrity_impact.weight_x1000() == 0,
                    im.availability_impact.weight_x1000() == 660,
            ;
            assert(impact_n11(im) == 920660400000);
        },
        (ConfidentialityImpactType::Complete, IntegrityImpactType::Negligible, AvailabilityImpactType::Partial) => {
            assert((1000 - im.confidentiality_impact.weight_x1000()) * (1000
                - im.integrity_impact.weight_x1000()) * (1000
                - im.availability_impact.weight_x1000()) == 246500000) by (nonlinear_arith)
                requires
                    im.confidentiality_impact.weight_x1000() == 660,
                    im.integrity_impact.weight_x1000() == 0,
                    im.availability_impact.weight_x1000() == 275,
            ;
            assert(impact_n11(im) == 784393500000);
        },
        (ConfidentialityImpactType::Complete, IntegrityImpactType::Negligible, AvailabilityImpactType::Negligible) => {
            assert((1000 - im.confidentiality_impact.weight_x1000()) * (1000
                - im.integrity_impact.weight_x1000()) * (1000
                - im.availability_impact.weight_x1000()) == 340000000) by (nonlinear_arith)
                requires
                    im.confidentiality_impact.weight_x1000() == 660,
                    im.integrity_impact.weight_x1000() == 0,
                    im.availability_impact.weight_x1000() == 0,
            ;
            assert(impact_n11(im) == 687060000000);
        },
        (ConfidentialityImpactType::Partial, IntegrityImpactType::Complete, AvailabilityImpactType::Complete) => {
            assert((1000 - im.confidentiality_impact.weight_x1000()) * (1000
                - im.integrity_impact.weight_x1000()) * (1000
                - im.availability_impact.weight_x1000()) == 83810000) by (nonlinear_arith)
                requires
                    im.confidentiality_impact.weight_x1000() == 275,
                    im.integrity_impact.weight_x1000() == 660,
                    im.availability_impact.weight_x1000() == 660,
            ;
            assert(impact_n11(im) == 953753790000);
        },
        (ConfidentialityImpactType::Partial, IntegrityImpactType::Complete, AvailabilityImpactType::Partial) => {
            assert((1000 - im.confidentiality_impact.weight_x1000()) * (1000
                - im.integrity_impact.weight_x1000()) * (1000
                - im.availability_impact.weight_x1000()) == 178712500) by (nonlinear_arith)
                requires
                    im.confidentiality_impact.weight_x1000() == 275,
                    im.integrity_impact.weight_x1000() == 660,
                    im.availability_impact.weight_x1000() == 275,
            ;
            assert(impact_n11(im) == 854960287500);
        },
        (ConfidentialityImpactType::Partial, IntegrityImpactType::Complete, AvailabilityImpactType::Negligible) => {
            assert((1000 - im.confidentiality_impact.weight_x1000()) * (1000
                - im.integrity_impact.weight_x1000()) * (1000
                - im.availability_impact.weight_x1000()) == 246500000) by (nonlinear_arith)
                requires
                    im.confidentiality_impact.weight_x1000() == 275,
                    im.integrity_impact.weight_x1000() == 660,
                    im.availability_impact.weight_x1000() == 0,
            ;
            assert(impact_n11(im) == 784393500000);
        },
        (ConfidentialityImpactType::Partial, IntegrityImpactType::Partial, AvailabilityImpactType::Complete) => {
            assert((1000 - im.confidentiality_impact.weight_x1000()) * (1000
                - im.integrity_impact.weight_x1000()) * (1000
                - im.availability_impact.weight_x1000()) == 178712500) by (nonlinear_arith)
                requires
                    im.confidentiality_impact.weight_x1000() == 275,
                    im.integrity_impact.weight_x1000() == 275,
                    im.availability_impact.weight_x1000() == 660,
            ;
            assert(impact_n11(im) == 854960287500);
        },
        (ConfidentialityImpactType::Partial, IntegrityImpactType::Partial, AvailabilityImpactType::Partial) => {
            assert((1000 - im.confidentiality_impact.weight_x1000()) * (1000
                - im.integrity_impact.weight_x1000()) * (1000
                - im.availability_impact.weight_x1000()) == 381078125) by (nonlinear_arith)
                requires
                    im.confidentiality_impact.weight_x1000() == 275,
                    im.integrity_impact.weight_x1000() == 275,
                    im.availability_impact.weight_x1000() == 275,
            ;
            assert(impact_n11(im) == 644297671875);
        },
        (ConfidentialityImpactType::Partial, IntegrityImpactType::Partial, AvailabilityImpactType::Negligible) => {
            assert((1000 - im.confidentiality_impact.weight_x1000()) * (1000
                - im.integrity_impact.weight_x1000()) * (1000
                - im.availability_impact.weight_x1000()) == 525625000) by (nonlinear_arith)
                requires
                    im.confidentiality_impact.weight_x1000() == 275,
                    im.integrity_impact.weight_x1000() == 275,
                    im.availability_impact.weight_x1000() == 0,
            ;
            assert(impact_n11(im) == 493824375000);
        },
        (ConfidentialityImpactType::Partial, IntegrityImpactType::Negligible, AvailabilityImpactType::Complete) => {
            assert((1000 - im.confidentiality_impact.weight_x1000()) * (1000
                - im.integrity_impact.weight_x1000()) * (1000
                - im.availability_impact.weight_x1000()) == 246500000) by (nonlinear_arith)
                requires
                    im.confidentiality_impact.weight_x1000() == 275,
                    im.integrity_impact.weight_x1000() == 0,
                    im.availability_impact.weight_x1000() == 660,
            ;
            assert(impact_n11(im) == 784393500000);
        },
        (ConfidentialityImpactType::Partial, IntegrityImpactType::Negligible, AvailabilityImpactType::Partial) => {
            assert((1000 - im.confidentiality_impact.weight_x1000()) * (1000
                - im.integrity_impact.weight_x1000()) * (1000
                - im.availability_impact.weight_x1000()) == 525625000) by (nonlinear_arith)
                requires
                    im.confidentiality_impact.weight_x1000() == 275,
                    im.integrity_impact.weight_x1000() == 0,
                    im.availability_impact.weight_x1000() == 275,
            ;
            assert(impact_n11(im) == 493824375000);
        },
        (ConfidentialityImpactType::Partial, IntegrityImpactType::Negligible, AvailabilityImpactType::Negligible) => {
            assert((1000 - im.confidentiality_impact.weight_x1000()) * (1000
                - im.integrity_impact.weight_x1000()) * (1000
                - im.availability_impact.weight_x1000()) == 725000000) by (nonlinear_arith)
                requires
                    im.confidentiality_impact.weight_x1000() == 275,
                    im.integrity_impact.weight_x1000() == 0,
                    im.availability_impact.weight_x1000() == 0,
            ;
            assert(impact_n11(im) == 286275000000);
        },
        (ConfidentialityImpactType::Negligible, IntegrityImpactType::Complete, AvailabilityImpactType::Complete) => {
            assert((1000 - im.confidentiality_impact.weight_x1000()) * (1000
                - im.integrity_impact.weight_x1000()) * (1000
                - im.availability_impact.weight_x1000()) == 115600000) by (nonlinear_arith)
                requires
                    im.confidentiality_impact.weight_x1000() == 0,
                    im.integrity_impact.weight_x1000() == 660,
                    im.availability_impact.weight_x1000() == 660,
            ;
            assert(impact_n11(im) == 920660400000);
        },
        (ConfidentialityImpactType::Negligible, IntegrityImpactType::Complete, AvailabilityImpactType::Partial) => {
            assert((1000 - im.confidentiality_impact.weight_x1000()) * (1000
                - im.integrity_impact.weight_x1000()) * (1000
                - im.availability_impact.weight_x1000()) == 246500000) by (nonlinear_arith)
                requires
                    im.confidentiality_impact.weight_x1000() == 0,
                    im.integrity_impact.weight_x1000() == 660,
                    im.availability_impact.weight_x1000() == 275,
            ;
            assert(impact_n11(im) == 784393500000);
        },
        (ConfidentialityImpactType::Negligible, IntegrityImpactType::Complete, AvailabilityImpactType::Negligible) => {
            assert((1000 - im.confidentiality_impact.weight_x1000()) * (1000
                - im.integrity_impact.weight_x1000()) * (1000
                - im.availability_impact.weight_x1000()) == 340000000) by (nonlinear_arith)
                requires
                    im.confidentiality_impact.weight_x1000() == 0,
                    im.integrity_impact.weight_x1000() == 660,
                    im.availability_impact.weight_x1000() == 0,
            ;
            assert(impact_n11(im) == 687060000000);
        },
        (ConfidentialityImpactType::Negligible, IntegrityImpactType::Partial, AvailabilityImpactType::Complete) => {
            assert((1000 - im.confidentiality_impact.weight_x1000()) * (1000
                - im.integrity_impact.weight_x1000()) * (1000
                - im.availability_impact.weight_x1000()) == 246500000) by (nonlinear_arith)
                requires
                    im.confidentiality_impact.weight_x1000() == 0,
                    im.integrity_impact.weight_x1000() == 275,
                    im.availability_impact.weight_x1000() == 660,
            ;
            assert(impact_n11(im) == 784393500000);
        },
        (ConfidentialityImpactType::Negligible, IntegrityImpactType::Partial, AvailabilityImpactType::Partial) => {
            assert((1000 - im.confidentiality_impact.weight_x1000()) * (1000
                - im.integrity_impact.weight_x1000()) * (1000
                - im.availability_impact.weight_x1000()) == 525625000) by (nonlinear_arith)
                requires
                    im.confidentiality_impact.weight_x1000() == 0,
                    im.integrity_impact.weight_x1000() == 275,
                    im.availability_impact.weight_x1000() == 275,
            ;
            assert(impact_n11(im) == 493824375000);
        },
        (ConfidentialityImpactType::Negligible, IntegrityImpactType::Partial, AvailabilityImpactType::Negligible) => {
            assert((1000 - im.confidentiality_impact.weight_x1000()) * (1000
                - im.integrity_impact.weight_x1000()) * (1000
                - im.availability_impact.weight_x1000()) == 725000000) by (nonlinear_arith)
                requires
                    im.confidentiality_impact.weight_x1000() == 0,
                    im.integrity_impact.weight_x1000() == 275,
                    im.availability_impact.weight_x1000() == 0,
            ;
            assert(impact_n11(im) == 286275000000);
        },
        (ConfidentialityImpactType::Negligible, IntegrityImpactType::Negligible, AvailabilityImpactType::Complete) => {
            assert((1000 - im.confidentiality_impact.weight_x1000()) * (1000
                - im.integrity_impact.weight_x1000()) * (1000
                - im.availability_impact.weight_x1000()) == 340000000) by (nonlinear_arith)
                requires
                    im.confidentiality_impact.weight_x1000() == 0,
                    im.integrity_impact.weight_x1000() == 0,
                    im.availability_impact.weight_x1000() == 660,
            ;
            assert(impact_n11(im) == 687060000000);
        },
        (ConfidentialityImpactType::Negligible, IntegrityImpactType::Negligible, AvailabilityImpactType::Partial) => {
            assert((1000 - im.confidentiality_impact.weight_x1000()) * (1000
                - im.integrity_impact.weight_x1000()) * (1000
                - im.availability_impact.weight_x1000()) == 725000000) by (nonlinear_arith)
                requires
                    im.confidentiality_impact.weight_x1000() == 0,
                    im.integrity_impact.weight_x1000() == 0,
                    im.availability_impact.weight_x1000() == 275,
            ;
            assert(impact_n11(im) == 286275000000);
        },
        (ConfidentialityImpactType::Negligible, IntegrityImpactType::Negligible, AvailabilityImpactType::Negligible) => {
            assert((1000 - im.confidentiality_impact.weight_x1000()) * (1000
                - im.integrity_impact.weight_x1000()) * (1000
                - im.availability_impact.weight_x1000()) == 1000000000) by (nonlinear_arith)
                requires
                    im.confidentiality_impact.weight_x1000() == 0,
                    im.integrity_impact.weight_x1000() == 0,
                    im.availability_impact.weight_x1000() == 0,
            ;
            assert(impact_n11(im) == 0);
        },
    }
}

impl ExploitAbility {
    /// The exploitability sub-score, scaled by `10^9`.
    #[verifier::nonlinear]
    pub fn score(&self) -> (e: u64)
        ensures
            e == expl_n9(*self),
            e <= 9996800000,
    {
        20 * self.access_vector.weight() * self.access_complexity.weight()
            * self.authentication.weight()
    }
}

impl Impact {
    /// The impact sub-score, scaled by `10^11`.
    #[verifier::nonlinear]
    pub fn score(&self) -> (r: u64)
        ensures
            r == impact_n11(*self),
            r <= 1041000000000,
    {
        let c = self.confidentiality_impact.weight();
        let i = self.integrity_impact.weight();
        let a = self.availability_impact.weight();
        1041 * (1000000000 - (1000 - c) * (1000 - i) * (1000 - a))
    }
}

/// The base score in tenths, computed exactly.
pub fn v2_base(ea: &ExploitAbility, im: &Impact) -> (t: u32)
    ensures
        t == v2_base_tenths(*ea, *im),
        t <= 100,
{
    let e = ea.score();
    let imp = im.score();
    proof {
        lemma_impact_cases(*im);
    }
    if imp == 0 {
        0
    } else {
        let inner = 6 * imp + 400 * e - 1500000000000;
        let t = nearest_half_up_u64(11760 * inner, 1000000000000000);
        proof {
            assert(inner <= 8499227216000);
            assert(11760 * inner <= 99950912060160000);
        }
        t as u32
    }
}

/// The metric fields of a v2.0 vector, in their one required order:
/// AV, AC, Au, C, I, A.
pub open spec fn v2_parse_fields(st: Option<Seq<char>>) -> Result<
    (ExploitAbility, Impact),
    CVSSErrorSeq,
> {
    match parse_field(
        st,
        seq!['A', 'V'],
        AccessVectorType::letters(),
        seq!['N', ',', 'A', ',', 'L'],
    ) {
        Result::Err(e) => Result::Err(e),
        Result::Ok((c_av, st)) => match parse_field(
            st,
            seq!['A', 'C'],
            AccessComplexityType::letters(),
            seq!['H', ',', 'M', ',', 'L'],
        ) {
            Result::Err(e) => Result::Err(e),
            Result::Ok((c_ac, st)) => match parse_field(
                st,
                seq!['A', 'U'],
                AuthenticationType::letters(),
                seq!['M', ',', 'S', ',', 'N'],
            ) {
                Result::Err(e) => Result::Err(e),
                Result::Ok((c_au, st)) => match parse_field(
                    st,
                    seq!['C'],
                    ConfidentialityImpactType::letters(),
                    seq!['N', ',', 'P', ',', 'C'],
                ) {
                    Result::Err(e) => Result::Err(e),
                    Result::Ok((c_c, st)) => match parse_field(
                        st,
                        seq!['I'],
                        IntegrityImpactType::letters(),
                        seq!['N', ',', 'P', ',', 'C'],
                    ) {
                        Result::Err(e) => Result::Err(e),
                        Result::Ok((c_i, st)) => match parse_field(
                            st,
                            seq!['A'],
                            AvailabilityImpactType::letters(),
                            seq!['N', ',', 'P', ',', 'C'],
                        ) {
                            Result::Err(e) => Result::Err(e),
                            Result::Ok((c_a, _)) => Result::Ok(
                                (
                                    ExploitAbility {
                                        access_vector: AccessVectorType::from_code(c_av),
                                        access_complexity: AccessComplexityType::from_code(c_ac),
                                        authentication: AuthenticationType::from_code(c_au),
                                    },
                                    Impact {
                                        confidentiality_impact:
                                            ConfidentialityImpactType::from_code(c_c),
                                        integrity_impact: IntegrityImpactType::from_code(c_i),
                                        availability_impact: AvailabilityImpactType::from_code(
                                            c_a,
                                        ),
                                    },
                                ),
                            ),
                        },
                    },
                },
            },
        },
    }
}

/// What parsing a whole v2.0 vector string yields.  The version prefix
/// is optional: a leading token that names no version at all is taken
/// to be the first metric field of a bare v2.0 vector; a prefix naming
/// another version is rejected.
pub open spec fn v2_from_str_spec(s: Seq<char>) -> Result<
    (ExploitAbility, Impact),
    CVSSErrorSeq,
> {
    let u = upper_seq(s);
    if find(u, '/') < 0 {
        Result::Err(CVSSErrorSeq::InvalidPrefix { value: s })
    } else {
        let ver = version_from_seq(tok(u));
        if ver == Version::V2_0 {
            v2_parse_fields(rest(u))
        } else if ver == Version::Unknown {
            v2_parse_fields(Option::Some(u))
        } else {
            Result::Err(
                CVSSErrorSeq::InvalidCVSSVersion {
                    value: version_name_seq(ver),
                    expected: seq!['2', '.', '0'],
                },
            )
        }
    }
}

/// A parsed and scored v2.0 vector.
///
/// Constructed only by [`CVSS::from_str`]: the scores are computed
/// atomically as part of construction and the value is immutable from
/// then on.  `base_score` is in tenths of a point.
#[derive(Debug, Clone)]
pub struct CVSS {
    pub version: Version,
    /// The input, echoed verbatim.
    pub vector_string: String,
    pub exploit_ability: ExploitAbility,
    pub impact: Impact,
    /// The base score, in tenths: `100` is a score of 10.0.
    pub base_score: u32,
    pub base_severity: SeverityTypeV2,
}

impl CVSS {
    /// The exploitability sub-score rounded to the nearest tenth.
    pub fn exploitability_score(&self) -> (t: u32)
        ensures
            t == v2_expl_tenths(self.exploit_ability),
            t <= 100,
    {
        let e = self.exploit_ability.score();
        let t = nearest_half_up_u64(10 * e, 1000000000);
        t as u32
    }

    /// The impact sub-score rounded to the nearest tenth.
    pub fn impact_score(&self) -> (t: u32)
        ensures
            t == v2_impact_tenths(self.impact),
            t <= 100,
    {
        let imp = self.impact.score();
        proof {
            lemma_impact_cases(self.impact);
            lemma_nearest_le(10 * imp as int, 100000000000, 100);
        }
        let t = nearest_half_up_u64(10 * imp, 100000000000);
        t as u32
    }

    /// Parse a v2.0 vector string and score it.
    ///
    /// Succeeds exactly on the strings [`v2_from_str_spec`] accepts, and
    /// then carries that metric set, the input echoed verbatim, and the
    /// exactly computed base score and severity.
    pub fn from_str(vector_string: &str) -> (r: Result<CVSS, CVSSError>)
        ensures
            (match r {
                Result::Ok(c) => {
                    &&& v2_from_str_spec(vector_string@) == Result::<
                        (ExploitAbility, Impact),
                        CVSSErrorSeq,
                    >::Ok((c.exploit_ability, c.impact))
                    &&& c.version == Version::V2_0
                    &&& c.vector_string@ == vector_string@
                    &&& c.base_score == v2_base_tenths(c.exploit_ability, c.impact)
                    &&& c.base_score <= 100
                    &&& c.base_severity == severity_v2_from_tenths(c.base_score as int)
                },
                Result::Err(e) => v2_from_str_spec(vector_string@) == Result::<
                    (ExploitAbility, Impact),
                    CVSSErrorSeq,
                >::Err(e@),
            }),
    {
        let norm = upper_chars_of(vector_string);
        let ghost u = upper_seq(vector_string@);
        let j = match find_from(&norm, 0, '/') {
            Option::Some(j) => j,
            Option::None => {
                proof {
                    assert(u.skip(0) =~= u);
                }
                return Result::Err(
                    CVSSError::InvalidPrefix { value: vector_string.to_owned() },
                );
            },
        };
        proof {
            assert(u.skip(0) =~= u);
            assert(tok(u) =~= norm@.subrange(0, j as int));
        }
        let ver = version_from_chars(&norm, 0, j);
        let st = if matches!(ver, Version::V2_0) {
            Option::Some(j + 1)
        } else if matches!(ver, Version::Unknown) {
            Option::Some(0)
        } else {
            let expected = "2.0";
            proof {
                reveal_strlit("2.0");
                assert(expected@ =~= seq!['2', '.', '0']);
            }
            return Result::Err(
                CVSSError::InvalidCVSSVersion { value: ver.name(), expected: expected.to_owned() },
            );
        };
        proof {
            assert(u.skip(0) =~= u);
            if matches!(ver, Version::V2_0) {
                assert(state_view(norm@, st) == rest(u));
            } else {
                assert(state_view(norm@, st) == Option::Some(u));
            }
        }
        proof {
            reveal_strlit("AV");
            reveal_strlit("NAL");
            reveal_strlit("N,A,L");
            assert("AV"@ =~= seq!['A', 'V']);
            assert("NAL"@ =~= AccessVectorType::letters());
            assert("N,A,L"@ =~= seq!['N', ',', 'A', ',', 'L']);
        }
        let (c_av, st) = match parse_field_exec(&norm, st, "AV", "NAL", "N,A,L") {
            Result::Ok(x) => x,
            Result::Err(e) => {
                return Result::Err(e);
            },
        };
        proof {
            reveal_strlit("AC");
            reveal_strlit("HML");
            reveal_strlit("H,M,L");
            assert("AC"@ =~= seq!['A', 'C']);
            assert("HML"@ =~= AccessComplexityType::letters());
            assert("H,M,L"@ =~= seq!['H', ',', 'M', ',', 'L']);
        }
        let (c_ac, st) = match parse_field_exec(&norm, st, "AC", "HML", "H,M,L") {
            Result::Ok(x) => x,
            Result::Err(e) => {
                return Result::Err(e);
            },
        };
        proof {
            reveal_strlit("AU");
            reveal_strlit("MSN");
            reveal_strlit("M,S,N");
            assert("AU"@ =~= seq!['A', 'U']);
            assert("MSN"@ =~= AuthenticationType::letters());
            assert("M,S,N"@ =~= seq!['M', ',', 'S', ',', 'N']);
        }
        let (c_au, st) = match parse_field_exec(&norm, st, "AU", "MSN", "M,S,N") {
            Result::Ok(x) => x,
            Result::Err(e) => {
                return Result::Err(e);
            },
        };
        proof {
            reveal_strlit("C");
            reveal_strlit("NPC");
            reveal_strlit("N,P,C");
            assert("C"@ =~= seq!['C']);
            assert("NPC"@ =~= ConfidentialityImpactType::letters());
            assert("N,P,C"@ =~= seq!['N', ',', 'P', ',', 'C']);
        }
        let (c_c, st) = match parse_field_exec(&norm, st, "C", "NPC", "N,P,C") {
            Result::Ok(x) => x,
            Result::Err(e) => {
                return Result::Err(e);
            },
        };
        proof {
            reveal_strlit("I");
            assert("I"@ =~= seq!['I']);
            assert("NPC"@ =~= IntegrityImpactType::letters());
        }
        let (c_i, st) = match parse_field_exec(&norm, st, "I", "NPC", "N,P,C") {
            Result::Ok(x) => x,
            Result::Err(e) => {
                return Result::Err(e);
            },
        };
        proof {
            reveal_strlit("A");
            assert("A"@ =~= seq!['A']);
            assert("NPC"@ =~= AvailabilityImpactType::letters());
        }
        let (c_a, _) = match parse_field_exec(&norm, st, "A", "NPC", "N,P,C") {
            Result::Ok(x) => x,
            Result::Err(e) => {
                return Result::Err(e);
            },
        };
        let exploit_ability = ExploitAbility {
            access_vector: AccessVectorType::from_letter(c_av),
            access_complexity: AccessComplexityType::from_letter(c_ac),
            authentication: AuthenticationType::from_letter(c_au),
        };
        let impact = Impact {
            confidentiality_impact: ConfidentialityImpactType::from_letter(c_c),
            integrity_impact: IntegrityImpactType::from_letter(c_i),
            availability_impact: AvailabilityImpactType::from_letter(c_a),
        };
        let base_score = v2_base(&exploit_ability, &impact);
        let base_severity = SeverityTypeV2::from_tenths(base_score);
        Result::Ok(
            CVSS {
                version: Version::V2_0,
                vector_string: vector_string.to_owned(),
                exploit_ability,
                impact,
                base_score,
                base_severity,
            },
        )
    }
}

/// The canonical v2.0 vector string: the six fields in the one fixed
/// order, with no version prefix, as NVD publishes them.
pub open spec fn v2_vector_seq(ea: ExploitAbility, im: Impact) -> Seq<char> {
    cons_token(
        field_seq(seq!['A', 'V'], ea.access_vector.code()),
        Option::Some(
            cons_token(
                field_seq(seq!['A', 'C'], ea.access_complexity.code()),
                Option::Some(
                    cons_token(
                        field_seq(seq!['A', 'u'], ea.authentication.code()),
                        Option::Some(
                            cons_token(
                                field_seq(seq!['C'], im.confidentiality_impact.code()),
                                Option::Some(
                                    cons_token(
                                        field_seq(seq!['I'], im.integrity_impact.code()),
                                        Option::Some(
                                            cons_token(
                                                field_seq(
                                                    seq!['A'],
                                                    im.availability_impact.code(),
                                                ),
                                                Option::None,
                                            ),
                                        ),
                                    ),
                                ),
                            ),
                        ),
                    ),
                ),
            ),
        ),
    )
}

impl CVSS {
    /// The canonical vector string for this metric set.
    #[verifier::rlimit(100)]
    pub fn to_vector_string(&self) -> (r: String)
        ensures
            r@ == v2_vector_seq(self.exploit_ability, self.impact),
    {
        let mut out = String::new();
        out.append("AV:");
        push_char(&mut out, self.exploit_ability.access_vector.as_letter());
        out.append("/AC:");
        push_char(&mut out, self.exploit_ability.access_complexity.as_letter());
        out.append("/Au:");
        push_char(&mut out, self.exploit_ability.authentication.as_letter());
        out.append("/C:");
        push_char(&mut out, self.impact.confidentiality_impact.as_letter());
        out.append("/I:");
        push_char(&mut out, self.impact.integrity_impact.as_letter());
        out.append("/A:");
        push_char(&mut out, self.impact.availability_impact.as_letter());
        proof {
            reveal_strlit("AV:");
            reveal_strlit("/AC:");
            reveal_strlit("/Au:");
            reveal_strlit("/C:");
            reveal_strlit("/I:");
            reveal_strlit("/A:");
            assert(out@ =~= v2_vector_seq(self.exploit_ability, self.impact));
        }
        out
    }
}

/// Round trip: re-parsing a canonically formatted v2.0 vector yields
/// exactly the metric set that was formatted (and so identical scores).
#[verifier::rlimit(100)]
pub proof fn lemma_v2_round_trip(ea: ExploitAbility, im: Impact)
    ensures
        v2_from_str_spec(v2_vector_seq(ea, im)) == Result::<
            (ExploitAbility, Impact),
            CVSSErrorSeq,
        >::Ok((ea, im)),
{
    lemma_code_AccessVectorType(ea.access_vector);
    lemma_code_AccessComplexityType(ea.access_complexity);
    lemma_code_AuthenticationType(ea.authentication);
    lemma_code_ConfidentialityImpactType(im.confidentiality_impact);
    lemma_code_IntegrityImpactType(im.integrity_impact);
    lemma_code_AvailabilityImpactType(im.availability_impact);
    let s = v2_vector_seq(ea, im);
    let f6 = field_seq(seq!['A'], im.availability_impact.code());
    let m6 = cons_token(f6, Option::None);
    let f5 = field_seq(seq!['I'], im.integrity_impact.code());
    let m5 = cons_token(f5, Option::Some(m6));
    let f4 = field_seq(seq!['C'], im.confidentiality_impact.code());
    let m4 = cons_token(f4, Option::Some(m5));
    let f3 = field_seq(seq!['A', 'u'], ea.authentication.code());
    let m3 = cons_token(f3, Option::Some(m4));
    let f2 = field_seq(seq!['A', 'C'], ea.access_complexity.code());
    let m2 = cons_token(f2, Option::Some(m3));
    let f1 = field_seq(seq!['A', 'V'], ea.access_vector.code());
    let m1 = cons_token(f1, Option::Some(m2));
    assert(s == m1);
    // upper-casing maps the canonical string onto itself, except that
    // the `Au` key becomes `AU`
    let g3 = field_seq(seq!['A', 'U'], ea.authentication.code());
    let u3 = cons_token(g3, Option::Some(m4));
    let u2 = cons_token(f2, Option::Some(u3));
    let u1 = cons_token(f1, Option::Some(u2));
    lemma_upper_field(seq!['A'], im.availability_impact.code());
    assert(upper_seq(seq!['A']) =~= seq!['A']);
    assert(upper_seq(m6) == m6);
    lemma_upper_field(seq!['I'], im.integrity_impact.code());
    assert(upper_seq(seq!['I']) =~= seq!['I']);
    lemma_upper_cons(f5, m6);
    assert(upper_seq(m5) == m5);
    lemma_upper_field(seq!['C'], im.confidentiality_impact.code());
    assert(upper_seq(seq!['C']) =~= seq!['C']);
    lemma_upper_cons(f4, m5);
    assert(upper_seq(m4) == m4);
    lemma_upper_field(seq!['A', 'u'], ea.authentication.code());
    assert(upper_seq(seq!['A', 'u']) =~= seq!['A', 'U']);
    lemma_upper_cons(f3, m4);
    assert(upper_seq(m3) == u3);
    lemma_upper_field(seq!['A', 'C'], ea.access_complexity.code());
    assert(upper_seq(seq!['A', 'C']) =~= seq!['A', 'C']);
    lemma_upper_cons(f2, m3);
    assert(upper_seq(m2) == u2);
    lemma_upper_field(seq!['A', 'V'], ea.access_vector.code());
    assert(upper_seq(seq!['A', 'V']) =~= seq!['A', 'V']);
    lemma_upper_cons(f1, m2);
    assert(upper_seq(s) == u1);
    let u = upper_seq(s);
    // the first token is `AV:x`, which names no version
    assert(u[2] == ':');
    assert(u[4] == '/');
    assert forall|i: int| 0 <= i < 4 implies #[trigger] u[i] != '/' by {
        assert(u[i] == f1[i]);
        if i < 2 {
            assert(f1[i] == seq!['A', 'V'][i]);
        }
    }
    lemma_find_is(u, '/', 4);
    assert(tok(u) =~= f1);
    assert(version_from_seq(tok(u)) == Version::Unknown);
    // so the whole string is scanned as fields
    lemma_field_token(
        seq!['A', 'V'],
        ea.access_vector.code(),
        AccessVectorType::letters(),
        seq!['N', ',', 'A', ',', 'L'],
        Option::Some(u2),
    );
    lemma_field_token(
        seq!['A', 'C'],
        ea.access_complexity.code(),
        AccessComplexityType::letters(),
        seq!['H', ',', 'M', ',', 'L'],
        Option::Some(u3),
    );
    lemma_field_token(
        seq!['A', 'U'],
        ea.authentication.code(),
        AuthenticationType::letters(),
        seq!['M', ',', 'S', ',', 'N'],
        Option::Some(m4),
    );
    lemma_field_token(
        seq!['C'],
        im.confidentiality_impact.code(),
        ConfidentialityImpactType::letters(),
        seq!['N', ',', 'P', ',', 'C'],
        Option::Some(m5),
    );
    lemma_field_token(
        seq!['I'],
        im.integrity_impact.code(),
        IntegrityImpactType::letters(),
        seq!['N', ',', 'P', ',', 'C'],
        Option::Some(m6),
    );
    lemma_field_token(
        seq!['A'],
        im.availability_impact.code(),
        AvailabilityImpactType::letters(),
        seq!['N', ',', 'P', ',', 'C'],
        Option::None,
    );
}

} // verus!
