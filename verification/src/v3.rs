//! CVSS v3.0 / v3.1.
//!
//! The two minor versions share one grammar and one set of formulas:
//!
//! * `ISS = 1 - (1-C)(1-I)(1-A)`
//! * `Impact = 6.42 * ISS` when Scope is unchanged, and
//!   `7.52 * |ISS - 0.029| - 3.25 * |ISS - 0.02|^15` when it changed
//! * `Exploitability = 8.22 * AV * AC * PR * UI`, with the
//!   privileges-required weight depending on Scope
//! * `BaseScore = 0` when the impact is not positive, else
//!   `roundup(min(Impact + Exploitability, 10))` unchanged, or
//!   `roundup(min(1.08 * (Impact + Exploitability), 10))` changed.
//!
//! All weights are two-decimal constants, so every sub-score is an exact
//! rational; the formulas are specified over integers scaled by a fixed
//! power of ten and evaluated exactly.  The 15th power in the
//! changed-scope impact exceeds machine words, so its ten possible
//! values (one per reachable `ISS`) are embedded as proven constants.

use vstd::prelude::*;
use crate::error::{CVSSError, CVSSErrorSeq};
use crate::score::{nearest_half_up, nearest_half_up_u64, roundup, roundup_e5, lemma_div_mul_den};
use crate::severity::{SeverityType, severity_from_tenths};
use crate::text::{upper_seq, upper_chars_of, upper_char, lemma_upper_seq_concat};
use crate::vector::{
    parse_field, parse_field_exec, state_view, rest, tok, cons_token, field_seq,
    lemma_field_token,
};
use crate::version::{Version, version_from_seq, version_name_seq, version_from_chars};
use crate::text::{find, lemma_find_is, push_char};
use vstd::string::StringExecFns;
use vstd::pervasive::unreached;

verus! {

/// Attack Vector (AV): from where the vulnerable component is reachable.
#[derive(Debug, Clone, Copy, PartialEq, Eq, Structural)]
pub enum AttackVectorType {
    Network,
    AdjacentNetwork,
    Local,
    Physical,
}

/// Attack Complexity (AC): conditions beyond the attacker's control.
#[derive(Debug, Clone, Copy, PartialEq, Eq, Structural)]
pub enum AttackComplexityType {
    High,
    Low,
}

/// Privileges Required (PR): the privilege level needed before attack.
#[derive(Debug, Clone, Copy, PartialEq, Eq, Structural)]
pub enum PrivilegesRequiredType {
    High,
    Low,
    Negligible,
}

/// User Interaction (UI): whether a user other than the attacker must
/// participate.
#[derive(Debug, Clone, Copy, PartialEq, Eq, Structural)]
pub enum UserInteractionType {
    NotRequired,
    Required,
}

/// Scope (S): whether impact spills past the vulnerable component.
#[derive(Debug, Clone, Copy, PartialEq, Eq, Structural)]
pub enum ScopeType {
    Unchanged,
    Changed,
}

/// Confidentiality Impact (C).
#[derive(Debug, Clone, Copy, PartialEq, Eq, Structural)]
pub enum ConfidentialityImpactType {
    High,
    Low,
    Negligible,
}

/// Integrity Impact (I).
#[derive(Debug, Clone, Copy, PartialEq, Eq, Structural)]
pub enum IntegrityImpactType {
    High,
    Low,
    Negligible,
}

/// Availability Impact (A).
#[derive(Debug, Clone, Copy, PartialEq, Eq, Structural)]
pub enum AvailabilityImpactType {
    High,
    Low,
    Negligible,
}

impl AttackVectorType {
    /// The wire letter.
    pub open spec fn code(self) -> char {
        match self {
            AttackVectorType::Network => 'N',
            AttackVectorType::AdjacentNetwork => 'A',
            AttackVectorType::Local => 'L',
            AttackVectorType::Physical => 'P',
        }
    }

    /// The letters the grammar accepts for this metric.
    pub open spec fn letters() -> Seq<char> {
        seq!['N', 'A', 'L', 'P']
    }

    /// The value a wire letter decodes to (unaccepted letters are mapped
    /// arbitrarily; the parser only applies this to accepted ones).
    pub open spec fn from_code(c: char) -> Self {
        match c {
            'A' => AttackVectorType::AdjacentNetwork,
            'L' => AttackVectorType::Local,
            'P' => AttackVectorType::Physical,
            _ => AttackVectorType::Network,
        }
    }

    /// The formula weight, scaled by 100.
    pub open spec fn weight_x100(self) -> int {
        match self {
            AttackVectorType::Network => 85,
            AttackVectorType::AdjacentNetwork => 62,
            AttackVectorType::Local => 55,
            AttackVectorType::Physical => 20,
        }
    }

    pub fn weight(&self) -> (w: u64)
        ensures
            w == self.weight_x100(),
            w <= 100,
    {
        match self {
            AttackVectorType::Network => 85,
            AttackVectorType::AdjacentNetwork => 62,
            AttackVectorType::Local => 55,
            AttackVectorType::Physical => 20,
        }
    }
}

impl AttackComplexityType {
    pub open spec fn code(self) -> char {
        match self {
            AttackComplexityType::High => 'H',
            AttackComplexityType::Low => 'L',
        }
    }

    pub open spec fn letters() -> Seq<char> {
        seq!['H', 'L']
    }

    pub open spec fn from_code(c: char) -> Self {
        match c {
            'H' => AttackComplexityType::High,
            _ => AttackComplexityType::Low,
        }
    }

    pub open spec fn weight_x100(self) -> int {
        match self {
            AttackComplexityType::High => 44,
            AttackComplexityType::Low => 77,
        }
    }

    pub fn weight(&self) -> (w: u64)
        ensures
            w == self.weight_x100(),
            w <= 100,
    {
        match self {
            AttackComplexityType::High => 44,
            AttackComplexityType::Low => 77,
        }
    }
}

impl PrivilegesRequiredType {
    pub open spec fn code(self) -> char {
        match self {
            PrivilegesRequiredType::High => 'H',
            PrivilegesRequiredType::Low => 'L',
            PrivilegesRequiredType::Negligible => 'N',
        }
    }

    pub open spec fn letters() -> Seq<char> {
        seq!['H', 'L', 'N']
    }

    pub open spec fn from_code(c: char) -> Self {
        match c {
            'H' => PrivilegesRequiredType::High,
            'L' => PrivilegesRequiredType::Low,
            _ => PrivilegesRequiredType::Negligible,
        }
    }

    /// The weight, scaled by 100: higher when a changed scope grants the
    /// gained privileges broader leverage.
    pub open spec fn scoped_weight_x100(self, scope_changed: bool) -> int {
        match self {
            PrivilegesRequiredType::High => if scope_changed {
                50
            } else {
                27
            },
            PrivilegesRequiredType::Low => if scope_changed {
                68
            } else {
                62
            },
            PrivilegesRequiredType::Negligible => 85,
        }
    }

    pub fn scoped_weight(&self, scope_changed: bool) -> (w: u64)
        ensures
            w == self.scoped_weight_x100(scope_changed),
            w <= 100,
    {
        match self {
            PrivilegesRequiredType::High => if scope_changed {
                50
            } else {
                27
            },
            PrivilegesRequiredType::Low => if scope_changed {
                68
            } else {
                62
            },
            PrivilegesRequiredType::Negligible => 85,
        }
    }
}

impl UserInteractionType {
    pub open spec fn code(self) -> char {
        match self {
            UserInteractionType::NotRequired => 'N',
            UserInteractionType::Required => 'R',
        }
    }

    pub open spec fn letters() -> Seq<char> {
        seq!['N', 'R']
    }

    pub open spec fn from_code(c: char) -> Self {
        match c {
            'R' => UserInteractionType::Required,
            _ => UserInteractionType::NotRequired,
        }
    }

    pub open spec fn weight_x100(self) -> int {
        match self {
            UserInteractionType::NotRequired => 85,
            UserInteractionType::Required => 62,
        }
    }

    pub fn weight(&self) -> (w: u64)
        ensures
            w == self.weight_x100(),
            w <= 100,
    {
        match self {
            UserInteractionType::NotRequired => 85,
            UserInteractionType::Required => 62,
        }
    }
}

impl ScopeType {
    pub open spec fn code(self) -> char {
        match self {
            ScopeType::Unchanged => 'U',
            ScopeType::Changed => 'C',
        }
    }

    pub open spec fn letters() -> Seq<char> {
        seq!['U', 'C']
    }

    pub open spec fn from_code(c: char) -> Self {
        match c {
            'C' => ScopeType::Changed,
            _ => ScopeType::Unchanged,
        }
    }

    pub open spec fn changed(self) -> bool {
        self == ScopeType::Changed
    }

    pub fn is_changed(&self) -> (b: bool)
        ensures
            b == self.changed(),
    {
        match self {
            ScopeType::Changed => true,
            ScopeType::Unchanged => false,
        }
    }
}

impl ConfidentialityImpactType {
    pub open spec fn code(self) -> char {
        match self {
            ConfidentialityImpactType::High => 'H',
            ConfidentialityImpactType::Low => 'L',
            ConfidentialityImpactType::Negligible => 'N',
        }
    }

    pub open spec fn letters() -> Seq<char> {
        seq!['H', 'L', 'N']
    }

    pub open spec fn from_code(c: char) -> Self {
        match c {
            'H' => ConfidentialityImpactType::High,
            'L' => ConfidentialityImpactType::Low,
            _ => ConfidentialityImpactType::Negligible,
        }
    }

    pub open spec fn weight_x100(self) -> int {
        match self {
            ConfidentialityImpactType::High => 56,
            ConfidentialityImpactType::Low => 22,
            ConfidentialityImpactType::Negligible => 0,
        }
    }

    pub fn weight(&self) -> (w: u64)
        ensures
            w == self.weight_x100(),
            w <= 100,
    {
        match self {
            ConfidentialityImpactType::High => 56,
            ConfidentialityImpactType::Low => 22,
            ConfidentialityImpactType::Negligible => 0,
        }
    }
}

impl IntegrityImpactType {
    pub open spec fn code(self) -> char {
        match self {
            IntegrityImpactType::High => 'H',
            IntegrityImpactType::Low => 'L',
            IntegrityImpactType::Negligible => 'N',
        }
    }

    pub open spec fn letters() -> Seq<char> {
        seq!['H', 'L', 'N']
    }

    pub open spec fn from_code(c: char) -> Self {
        match c {
            'H' => IntegrityImpactType::High,
            'L' => IntegrityImpactType::Low,
            _ => IntegrityImpactType::Negligible,
        }
    }

    pub open spec fn weight_x100(self) -> int {
        match self {
            IntegrityImpactType::High => 56,
            IntegrityImpactType::Low => 22,
            IntegrityImpactType::Negligible => 0,
        }
    }

    pub fn weight(&self) -> (w: u64)
        ensures
            w == self.weight_x100(),
            w <= 100,
    {
        match self {
            IntegrityImpactType::High => 56,
            IntegrityImpactType::Low => 22,
            IntegrityImpactType::Negligible => 0,
        }
    }
}

impl AvailabilityImpactType {
    pub open spec fn code(self) -> char {
        match self {
            AvailabilityImpactType::High => 'H',
            AvailabilityImpactType::Low => 'L',
            AvailabilityImpactType::Negligible => 'N',
        }
    }

    pub open spec fn letters() -> Seq<char> {
        seq!['H', 'L', 'N']
    }

    pub open spec fn from_code(c: char) -> Self {
        match c {
            'H' => AvailabilityImpactType::High,
            'L' => AvailabilityImpactType::Low,
            _ => AvailabilityImpactType::Negligible,
        }
    }

    pub open spec fn weight_x100(self) -> int {
        match self {
            AvailabilityImpactType::High => 56,
            AvailabilityImpactType::Low => 22,
            AvailabilityImpactType::Negligible => 0,
        }
    }

    pub fn weight(&self) -> (w: u64)
        ensures
            w == self.weight_x100(),
            w <= 100,
    {
        match self {
            AvailabilityImpactType::High => 56,
            AvailabilityImpactType::Low => 22,
            AvailabilityImpactType::Negligible => 0,
        }
    }
}

impl AttackVectorType {
    fn from_letter(c: char) -> (m: Self)
        ensures
            m == Self::from_code(c),
    {
        match c {
            'A' => AttackVectorType::AdjacentNetwork,
            'L' => AttackVectorType::Local,
            'P' => AttackVectorType::Physical,
            _ => AttackVectorType::Network,
        }
    }

    /// The wire letter this value prints as.
    pub fn as_letter(&self) -> (c: char)
        ensures
            c == self.code(),
    {
        match self {
            AttackVectorType::Network => 'N',
            AttackVectorType::AdjacentNetwork => 'A',
            AttackVectorType::Local => 'L',
            AttackVectorType::Physical => 'P',
        }
    }
}

impl AttackComplexityType {
    fn from_letter(c: char) -> (m: Self)
        ensures
            m == Self::from_code(c),
    {
        match c {
            'H' => AttackComplexityType::High,
            _ => AttackComplexityType::Low,
        }
    }

    /// The wire letter this value prints as.
    pub fn as_letter(&self) -> (c: char)
        ensures
            c == self.code(),
    {
        match self {
            AttackComplexityType::High => 'H',
            AttackComplexityType::Low => 'L',
        }
    }
}

impl PrivilegesRequiredType {
    fn from_letter(c: char) -> (m: Self)
        ensures
            m == Self::from_code(c),
    {
        match c {
            'H' => PrivilegesRequiredType::High,
            'L' => PrivilegesRequiredType::Low,
            _ => PrivilegesRequiredType::Negligible,
        }
    }

    /// The wire letter this value prints as.
    pub fn as_letter(&self) -> (c: char)
        ensures
            c == self.code(),
    {
        match self {
            PrivilegesRequiredType::High => 'H',
            PrivilegesRequiredType::Low => 'L',
            PrivilegesRequiredType::Negligible => 'N',
        }
    }
}

impl UserInteractionType {
    fn from_letter(c: char) -> (m: Self)
        ensures
            m == Self::from_code(c),
    {
        match c {
            'R' => UserInteractionType::Required,
            _ => UserInteractionType::NotRequired,
        }
    }

    /// The wire letter this value prints as.
    pub fn as_letter(&self) -> (c: char)
        ensures
            c == self.code(),
    {
        match self {
            UserInteractionType::NotRequired => 'N',
            UserInteractionType::Required => 'R',
        }
    }
}

impl ScopeType {
    fn from_letter(c: char) -> (m: Self)
        ensures
            m == Self::from_code(c),
    {
        match c {
            'C' => ScopeType::Changed,
            _ => ScopeType::Unchanged,
        }
    }

    /// The wire letter this value prints as.
    pub fn as_letter(&self) -> (c: char)
        ensures
            c == self.code(),
    {
        match self {
            ScopeType::Unchanged => 'U',
            ScopeType::Changed => 'C',
        }
    }
}

impl ConfidentialityImpactType {
    fn from_letter(c: char) -> (m: Self)
        ensures
            m == Self::from_code(c),
    {
        match c {
            'H' => ConfidentialityImpactType::High,
            'L' => ConfidentialityImpactType::Low,
            _ => ConfidentialityImpactType::Negligible,
        }
    }

    /// The wire letter this value prints as.
    pub fn as_letter(&self) -> (c: char)
        ensures
            c == self.code(),
    {
        match self {
            ConfidentialityImpactType::High => 'H',
            ConfidentialityImpactType::Low => 'L',
            ConfidentialityImpactType::Negligible => 'N',
        }
    }
}

impl IntegrityImpactType {
    fn from_letter(c: char) -> (m: Self)
        ensures
            m == Self::from_code(c),
    {
        match c {
            'H' => IntegrityImpactType::High,
            'L' => IntegrityImpactType::Low,
            _ => IntegrityImpactType::Negligible,
        }
    }

    /// The wire letter this value prints as.
    pub fn as_letter(&self) -> (c: char)
        ensures
            c == self.code(),
    {
        match self {
            IntegrityImpactType::High => 'H',
            IntegrityImpactType::Low => 'L',
            IntegrityImpactType::Negligible => 'N',
        }
    }
}

impl AvailabilityImpactType {
    fn from_letter(c: char) -> (m: Self)
        ensures
            m == Self::from_code(c),
    {
        match c {
            'H' => AvailabilityImpactType::High,
            'L' => AvailabilityImpactType::Low,
            _ => AvailabilityImpactType::Negligible,
        }
    }

    /// The wire letter this value prints as.
    pub fn as_letter(&self) -> (c: char)
        ensures
            c == self.code(),
    {
        match self {
            AvailabilityImpactType::High => 'H',
            AvailabilityImpactType::Low => 'L',
            AvailabilityImpactType::Negligible => 'N',
        }
    }
}

/// The exploitability metrics: the properties of the vulnerable
/// component that lead to a successful attack.
#[derive(Debug, Clone, Copy, PartialEq, Eq, Structural)]
pub struct ExploitAbility {
    pub attack_vector: AttackVectorType,
    pub attack_complexity: AttackComplexityType,
    pub privileges_required: PrivilegesRequiredType,
    pub user_interaction: UserInteractionType,
}

/// The impact metrics: the consequence to confidentiality, integrity
/// and availability.
#[derive(Debug, Clone, Copy, PartialEq, Eq, Structural)]
pub struct Impact {
    pub confidentiality_impact: ConfidentialityImpactType,
    pub integrity_impact: IntegrityImpactType,
    pub availability_impact: AvailabilityImpactType,
}

/// `8.22 * AV * AC * PR * UI`, scaled by `10^10`.
pub open spec fn expl_n10(ea: ExploitAbility, scope_changed: bool) -> int {
    822 * ea.attack_vector.weight_x100() * ea.attack_complexity.weight_x100()
        * ea.privileges_required.scoped_weight_x100(scope_changed)
        * ea.user_interaction.weight_x100()
}

/// `ISS = 1 - (1-C)(1-I)(1-A)`, scaled by `10^6`.
pub open spec fn iss_n6(im: Impact) -> int {
    1000000 - (100 - im.confidentiality_impact.weight_x100()) * (100
        - im.integrity_impact.weight_x100()) * (100 - im.availability_impact.weight_x100())
}

/// `d^15`.
pub open spec fn pow15(d: int) -> int {
    d * d * d * d * d * d * d * d * d * d * d * d * d * d * d
}

/// The changed-scope impact `7.52 * |ISS - 0.029| - 3.25 * |ISS - 0.02|^15`,
/// scaled by `10^92` (`ISS` is handed in scaled by `10^6`).
pub open spec fn v3_impact_changed_n92(iss: int) -> int {
    752 * (if iss >= 29000 {
        iss - 29000
    } else {
        29000 - iss
    }) * 1000000000000000000000000000000000000000000000000000000000000000000000000000000000000int
        - 325 * pow15(
        if iss >= 20000 {
            iss - 20000
        } else {
            20000 - iss
        },
    )
}

/// The exposed impact sub-score: the impact, rounded up, in tenths.
pub open spec fn v3_impact_tenths(sc: ScopeType, im: Impact) -> int {
    if !sc.changed() {
        roundup_e5(nearest_half_up(642 * iss_n6(im), 1000))
    } else {
        roundup_e5(
            nearest_half_up(
                v3_impact_changed_n92(iss_n6(im)) * 100000,
                100000000000000000000000000000000000000000000000000000000000000000000000000000000000000000000int,
            ),
        )
    }
}

/// The exposed exploitability sub-score: rounded up, in tenths.
pub open spec fn v3_expl_tenths(ea: ExploitAbility, scope_changed: bool) -> int {
    roundup_e5(nearest_half_up(expl_n10(ea, scope_changed), 100000))
}

/// The base score in tenths: 0 when the raw impact is not positive,
/// else the rounded-up minimum of 10 and `Impact + Exploitability`
/// (multiplied by 1.08 when Scope changed).
pub open spec fn v3_base_tenths(ea: ExploitAbility, sc: ScopeType, im: Impact) -> int {
    let e = expl_n10(ea, sc.changed());
    if !sc.changed() {
        let imp10 = 642 * iss_n6(im) * 100;  // impact, scaled by 10^10
        if imp10 <= 0 {
            0
        } else {
            let sum = imp10 + e;  // (impact + exploitability) * 10^10
            roundup_e5(
                if sum > 100000000000 {
                    1000000
                } else {
                    nearest_half_up(sum, 100000)
                },
            )
        }
    } else {
        let n92 = v3_impact_changed_n92(iss_n6(im));
        if n92 <= 0 {
            0
        } else {
            // 1.08 * (impact + exploitability) * 10^97; the score times
            // 10^5 is num / 10^89
            let num = 108 * (n92 + e
                * 10000000000000000000000000000000000000000000000000000000000000000000000000000000000int);
            roundup_e5(
                if num
                    > 100000000000000000000000000000000000000000000000000000000000000000000000000000000000000000000000int {
                    1000000
                } else {
                    nearest_half_up(
                        num,
                        100000000000000000000000000000000000000000000000000000000000000000000000000000000000000000int,
                    )
                },
            )
        }
    }
}

impl ExploitAbility {
    /// The rounded-up exploitability sub-score, in tenths.
    pub fn score(&self, scope_is_changed: bool) -> (t: u32)
        ensures
            t == v3_expl_tenths(*self, scope_is_changed),
            t <= 100,
    {
        let e = expl_exec(self, scope_is_changed);
        roundup(nearest_half_up_u64(e, 100000))
    }
}

impl Impact {
    /// The raw impact sub-score base `ISS`, scaled by `10^6`.
    #[verifier::nonlinear]
    pub fn score(&self) -> (r: u64)
        ensures
            r == iss_n6(*self),
            r <= 1000000,
    {
        let c = self.confidentiality_impact.weight();
        let i = self.integrity_impact.weight();
        let a = self.availability_impact.weight();
        1000000 - (100 - c) * (100 - i) * (100 - a)
    }
}

/// `8.22 * AV * AC * PR * UI` scaled by `10^10`, on machine words.
#[verifier::nonlinear]
fn expl_exec(ea: &ExploitAbility, scope_changed: bool) -> (e: u64)
    ensures
        e == expl_n10(*ea, scope_changed),
        e <= 82200000000,
{
    822 * ea.attack_vector.weight() * ea.attack_complexity.weight()
        * ea.privileges_required.scoped_weight(scope_changed) * ea.user_interaction.weight()
}

/// `ISS` can only take ten values: one per multiset of impact weights.
proof fn lemma_iss_cases(im: Impact)
    ensures
        iss_n6(im) == 0 || iss_n6(im) == 220000 || iss_n6(im) == 391600 || iss_n6(im) == 525448
            || iss_n6(im) == 560000 || iss_n6(im) == 656800 || iss_n6(im) == 732304 || iss_n6(im)
            == 806400 || iss_n6(im) == 848992 || iss_n6(im) == 914816,
{
    match (im.confidentiality_impact, im.integrity_impact, im.availability_impact) {
        (ConfidentialityImpactType::High, IntegrityImpactType::High, AvailabilityImpactType::High) => {
            assert((100 - im.confidentiality_impact.weight_x100()) * (100
                - im.integrity_impact.weight_x100()) * (100 - im.availability_impact.weight_x100())
                == 85184) by (nonlinear_arith)
                requires
                    im.confidentiality_impact.weight_x100() == 56,
                    im.integrity_impact.weight_x100() == 56,
                    im.availability_impact.weight_x100() == 56,
            ;
            assert(iss_n6(im) == 914816);
        },
        (ConfidentialityImpactType::High, IntegrityImpactType::High, AvailabilityImpactType::Low) => {
            assert((100 - im.confidentiality_impact.weight_x100()) * (100
                - im.integrity_impact.weight_x100()) * (100 - im.availability_impact.weight_x100())
                == 151008) by (nonlinear_arith)
                requires
                    im.confidentiality_impact.weight_x100() == 56,
                    im.integrity_impact.weight_x100() == 56,
                    im.availability_impact.weight_x100() == 22,
            ;
            assert(iss_n6(im) == 848992);
        },
        (ConfidentialityImpactType::High, IntegrityImpactType::High, AvailabilityImpactType::Negligible) => {
            assert((100 - im.confidentiality_impact.weight_x100()) * (100
                - im.integrity_impact.weight_x100()) * (100 - im.availability_impact.weight_x100())
                == 193600) by (nonlinear_arith)
                requires
                    im.confidentiality_impact.weight_x100() == 56,
                    im.integrity_impact.weight_x100() == 56,
                    im.availability_impact.weight_x100() == 0,
            ;
            assert(iss_n6(im) == 806400);
        },
        (ConfidentialityImpactType::High, IntegrityImpactType::Low, AvailabilityImpactType::High) => {
            assert((100 - im.confidentiality_impact.weight_x100()) * (100
                - im.integrity_impact.weight_x100()) * (100 - im.availability_impact.weight_x100())
                == 151008) by (nonlinear_arith)
                requires
                    im.confidentiality_impact.weight_x100() == 56,
                    im.integrity_impact.weight_x100() == 22,
                    im.availability_impact.weight_x100() == 56,
            ;
            assert(iss_n6(im) == 848992);
        },
        (ConfidentialityImpactType::High, IntegrityImpactType::Low, AvailabilityImpactType::Low) => {
            assert((100 - im.confidentiality_impact.weight_x100()) * (100
                - im.integrity_impact.weight_x100()) * (100 - im.availability_impact.weight_x100())
                == 267696) by (nonlinear_arith)
                requires
                    im.confidentiality_impact.weight_x100() == 56,
                    im.integrity_impact.weight_x100() == 22,
                    im.availability_impact.weight_x100() == 22,
            ;
            assert(iss_n6(im) == 732304);
        },
        (ConfidentialityImpactType::High, IntegrityImpactType::Low, AvailabilityImpactType::Negligible) => {
            assert((100 - im.confidentiality_impact.weight_x100()) * (100
                - im.integrity_impact.weight_x100()) * (100 - im.availability_impact.weight_x100())
                == 343200) by (nonlinear_arith)
                requires
                    im.confidentiality_impact.weight_x100() == 56,
                    im.integrity_impact.weight_x100() == 22,
                    im.availability_impact.weight_x100() == 0,
            ;
            assert(iss_n6(im) == 656800);
        },
        (ConfidentialityImpactType::High, IntegrityImpactType::Negligible, AvailabilityImpactType::High) => {
            assert((100 - im.confidentiality_impact.weight_x100()) * (100
                - im.integrity_impact.weight_x100()) * (100 - im.availability_impact.weight_x100())
                == 193600) by (nonlinear_arith)
                requires
                    im.confidentiality_impact.weight_x100() == 56,
                    im.integrity_impact.weight_x100() == 0,
                    im.availability_impact.weight_x100() == 56,
            ;
            assert(iss_n6(im) == 806400);
        },
        (ConfidentialityImpactType::High, IntegrityImpactType::Negligible, AvailabilityImpactType::Low) => {
            assert((100 - im.confidentiality_impact.weight_x100()) * (100
                - im.integrity_impact.weight_x100()) * (100 - im.availability_impact.weight_x100())
                == 343200) by (nonlinear_arith)
                requires
                    im.confidentiality_impact.weight_x100() == 56,
                    im.integrity_impact.weight_x100() == 0,
                    im.availability_impact.weight_x100() == 22,
            ;
            assert(iss_n6(im) == 656800);
        },
        (ConfidentialityImpactType::High, IntegrityImpactType::Negligible, AvailabilityImpactType::Negligible) => {
            assert((100 - im.confidentiality_impact.weight_x100()) * (100
                - im.integrity_impact.weight_x100()) * (100 - im.availability_impact.weight_x100())
                == 440000) by (nonlinear_arith)
                requires
                    im.confidentiality_impact.weight_x100() == 56,
                    im.integrity_impact.weight_x100() == 0,
                    im.availability_impact.weight_x100() == 0,
            ;
            assert(iss_n6(im) == 560000);
        },
        (ConfidentialityImpactType::Low, IntegrityImpactType::High, AvailabilityImpactType::High) => {
            assert((100 - im.confidentiality_impact.weight_x100()) * (100
                - im.integrity_impact.weight_x100()) * (100 - im.availability_impact.weight_x100())
                == 151008) by (nonlinear_arith)
                requires
                    im.confidentiality_impact.weight_x100() == 22,
                    im.integrity_impact.weight_x100() == 56,
                    im.availability_impact.weight_x100() == 56,
            ;
            assert(iss_n6(im) == 848992);
        },
        (ConfidentialityImpactType::Low, IntegrityImpactType::High, AvailabilityImpactType::Low) => {
            assert((100 - im.confidentiality_impact.weight_x100()) * (100
                - im.integrity_impact.weight_x100()) * (100 - im.availability_impact.weight_x100())
                == 267696) by (nonlinear_arith)
                requires
                    im.confidentiality_impact.weight_x100() == 22,
                    im.integrity_impact.weight_x100() == 56,
                    im.availability_impact.weight_x100() == 22,
            ;
            assert(iss_n6(im) == 732304);
        },
        (ConfidentialityImpactType::Low, IntegrityImpactType::High, AvailabilityImpactType::Negligible) => {
            assert((100 - im.confidentiality_impact.weight_x100()) * (100
                - im.integrity_impact.weight_x100()) * (100 - im.availability_impact.weight_x100())
                == 343200) by (nonlinear_arith)
                requires
                    im.confidentiality_impact.weight_x100() == 22,
                    im.integrity_impact.weight_x100() == 56,
                    im.availability_impact.weight_x100() == 0,
            ;
            assert(iss_n6(im) == 656800);
        },
        (ConfidentialityImpactType::Low, IntegrityImpactType::Low, AvailabilityImpactType::High) => {
            assert((100 - im.confidentiality_impact.weight_x100()) * (100
                - im.integrity_impact.weight_x100()) * (100 - im.availability_impact.weight_x100())
                == 267696) by (nonlinear_arith)
                requires
                    im.confidentiality_impact.weight_x100() == 22,
                    im.integrity_impact.weight_x100() == 22,
                    im.availability_impact.weight_x100() == 56,
            ;
            assert(iss_n6(im) == 732304);
        },
        (ConfidentialityImpactType::Low, IntegrityImpactType::Low, AvailabilityImpactType::Low) => {
            assert((100 - im.confidentiality_impact.weight_x100()) * (100
                - im.integrity_impact.weight_x100()) * (100 - im.availability_impact.weight_x100())
                == 474552) by (nonlinear_arith)
                requires
                    im.confidentiality_impact.weight_x100() == 22,
                    im.integrity_impact.weight_x100() == 22,
                    im.availability_impact.weight_x100() == 22,
            ;
            assert(iss_n6(im) == 525448);
        },
        (ConfidentialityImpactType::Low, IntegrityImpactType::Low, AvailabilityImpactType::Negligible) => {
            assert((100 - im.confidentiality_impact.weight_x100()) * (100
                - im.integrity_impact.weight_x100()) * (100 - im.availability_impact.weight_x100())
                == 608400) by (nonlinear_arith)
                requires
                    im.confidentiality_impact.weight_x100() == 22,
                    im.integrity_impact.weight_x100() == 22,
                    im.availability_impact.weight_x100() == 0,
            ;
            assert(iss_n6(im) == 391600);
        },
        (ConfidentialityImpactType::Low, IntegrityImpactType::Negligible, AvailabilityImpactType::High) => {
            assert((100 - im.confidentiality_impact.weight_x100()) * (100
                - im.integrity_impact.weight_x100()) * (100 - im.availability_impact.weight_x100())
                == 343200) by (nonlinear_arith)
                requires
                    im.confidentiality_impact.weight_x100() == 22,
                    im.integrity_impact.weight_x100() == 0,
                    im.availability_impact.weight_x100() == 56,
            ;
            assert(iss_n6(im) == 656800);
        },
        (ConfidentialityImpactType::Low, IntegrityImpactType::Negligible, AvailabilityImpactType::Low) => {
            assert((100 - im.confidentiality_impact.weight_x100()) * (100
                - im.integrity_impact.weight_x100()) * (100 - im.availability_impact.weight_x100())
                == 608400) by (nonlinear_arith)
                requires
                    im.confidentiality_impact.weight_x100() == 22,
                    im.integrity_impact.weight_x100() == 0,
                    im.availability_impact.weight_x100() == 22,
            ;
            assert(iss_n6(im) == 391600);
        },
        (ConfidentialityImpactType::Low, IntegrityImpactType::Negligible, AvailabilityImpactType::Negligible) => {
            assert((100 - im.confidentiality_impact.weight_x100()) * (100
                - im.integrity_impact.weight_x100()) * (100 - im.availability_impact.weight_x100())
                == 780000) by (nonlinear_arith)
                requires
                    im.confidentiality_impact.weight_x100() == 22,
                    im.integrity_impact.weight_x100() == 0,
                    im.availability_impact.weight_x100() == 0,
            ;
            assert(iss_n6(im) == 220000);
        },
        (ConfidentialityImpactType::Negligible, IntegrityImpactType::High, AvailabilityImpactType::High) => {
            assert((100 - im.confidentiality_impact.weight_x100()) * (100
                - im.integrity_impact.weight_x100()) * (100 - im.availability_impact.weight_x100())
                == 193600) by (nonlinear_arith)
                requires
                    im.confidentiality_impact.weight_x100() == 0,
                    im.integrity_impact.weight_x100() == 56,
                    im.availability_impact.weight_x100() == 56,
            ;
            assert(iss_n6(im) == 806400);
        },
        (ConfidentialityImpactType::Negligible, IntegrityImpactType::High, AvailabilityImpactType::Low) => {
            assert((100 - im.confidentiality_impact.weight_x100()) * (100
                - im.integrity_impact.weight_x100()) * (100 - im.availability_impact.weight_x100())
                == 343200) by (nonlinear_arith)
                requires
                    im.confidentiality_impact.weight_x100() == 0,
                    im.integrity_impact.weight_x100() == 56,
                    im.availability_impact.weight_x100() == 22,
            ;
            assert(iss_n6(im) == 656800);
        },
        (ConfidentialityImpactType::Negligible, IntegrityImpactType::High, AvailabilityImpactType::Negligible) => {
            assert((100 - im.confidentiality_impact.weight_x100()) * (100
                - im.integrity_impact.weight_x100()) * (100 - im.availability_impact.weight_x100())
                == 440000) by (nonlinear_arith)
                requires
                    im.confidentiality_impact.weight_x100() == 0,
                    im.integrity_impact.weight_x100() == 56,
                    im.availability_impact.weight_x100() == 0,
            ;
            assert(iss_n6(im) == 560000);
        },
        (ConfidentialityImpactType::Negligible, IntegrityImpactType::Low, AvailabilityImpactType::High) => {
            assert((100 - im.confidentiality_impact.weight_x100()) * (100
                - im.integrity_impact.weight_x100()) * (100 - im.availability_impact.weight_x100())
                == 343200) by (nonlinear_arith)
                requires
                    im.confidentiality_impact.weight_x100() == 0,
                    im.integrity_impact.weight_x100() == 22,
                    im.availability_impact.weight_x100() == 56,
            ;
            assert(iss_n6(im) == 656800);
        },
        (ConfidentialityImpactType::Negligible, IntegrityImpactType::Low, AvailabilityImpactType::Low) => {
            assert((100 - im.confidentiality_impact.weight_x100()) * (100
                - im.integrity_impact.weight_x100()) * (100 - im.availability_impact.weight_x100())
                == 608400) by (nonlinear_arith)
                requires
                    im.confidentiality_impact.weight_x100() == 0,
                    im.integrity_impact.weight_x100() == 22,
                    im.availability_impact.weight_x100() == 22,
            ;
            assert(iss_n6(im) == 391600);
        },
        (ConfidentialityImpactType::Negligible, IntegrityImpactType::Low, AvailabilityImpactType::Negligible) => {
            assert((100 - im.confidentiality_impact.weight_x100()) * (100
                - im.integrity_impact.weight_x100()) * (100 - im.availability_impact.weight_x100())
                == 780000) by (nonlinear_arith)
                requires
                    im.confidentiality_impact.weight_x100() == 0,
                    im.integrity_impact.weight_x100() == 22,
                    im.availability_impact.weight_x100() == 0,
            ;
            assert(iss_n6(im) == 220000);
        },
        (ConfidentialityImpactType::Negligible, IntegrityImpactType::Negligible, AvailabilityImpactType::High) => {
            assert((100 - im.confidentiality_impact.weight_x100()) * (100
                - im.integrity_impact.weight_x100()) * (100 - im.availability_impact.weight_x100())
                == 440000) by (nonlinear_arith)
                requires
                    im.confidentiality_impact.weight_x100() == 0,
                    im.integrity_impact.weight_x100() == 0,
                    im.availability_impact.weight_x100() == 56,
            ;
            assert(iss_n6(im) == 560000);
        },
        (ConfidentialityImpactType::Negligible, IntegrityImpactType::Negligible, AvailabilityImpactType::Low) => {
            assert((100 - im.confidentiality_impact.weight_x100()) * (100
                - im.integrity_impact.weight_x100()) * (100 - im.availability_impact.weight_x100())
                == 780000) by (nonlinear_arith)
                requires
                    im.confidentiality_impact.weight_x100() == 0,
                    im.integrity_impact.weight_x100() == 0,
                    im.availability_impact.weight_x100() == 22,
            ;
            assert(iss_n6(im) == 220000);
        },
        (ConfidentialityImpactType::Negligible, IntegrityImpactType::Negligible, AvailabilityImpactType::Negligible) => {
            assert((100 - im.confidentiality_impact.weight_x100()) * (100
                - im.integrity_impact.weight_x100()) * (100 - im.availability_impact.weight_x100())
                == 1000000) by (nonlinear_arith)
                requires
                    im.confidentiality_impact.weight_x100() == 0,
                    im.integrity_impact.weight_x100() == 0,
                    im.availability_impact.weight_x100() == 0,
            ;
            assert(iss_n6(im) == 0);
        },
    }
}

/// The rounded-up changed-scope impact in tenths, and the quotient
/// `108 * impact * 10^92 / 10^82` needed to combine the impact exactly
/// with the exploitability: both embedded per reachable `ISS` value and
/// proven against the formula.
#[verifier::rlimit(50)]
fn v3_changed_consts(im: &Impact) -> (r: (u32, u64))
    ensures
        r.0 == v3_impact_tenths(ScopeType::Changed, *im),
        r.0 <= 100,
        0 <= 108 * v3_impact_changed_n92(iss_n6(*im)) - (r.1 as int)
            * 10000000000000000000000000000000000000000000000000000000000000000000000000000000000int
            < 10000000000000000000000000000000000000000000000000000000000000000000000000000000000int,
        r.1 <= 7000000000000,
{
    let iss = iss_exec(im);
    proof {
        lemma_iss_cases(*im);
    }
    if iss == 0 {
        proof {
            assert(v3_impact_changed_n92(iss_n6(*im)) == v3_impact_changed_n92(0int));
            assert(nearest_half_up(v3_impact_changed_n92(0int) * 100000,
                100000000000000000000000000000000000000000000000000000000000000000000000000000000000000000000int) == 21808);
            assert(roundup_e5(21808) == 3);
        }
        (3, 235526399999)
    } else if iss == 220000 {
        proof {
            assert(v3_impact_changed_n92(iss_n6(*im)) == v3_impact_changed_n92(220000int));
            assert(nearest_half_up(v3_impact_changed_n92(220000int) * 100000,
                100000000000000000000000000000000000000000000000000000000000000000000000000000000000000000000int) == 143632);
            assert(roundup_e5(143632) == 15);
        }
        (15, 1551225599884)
    } else if iss == 391600 {
        proof {
            assert(v3_impact_changed_n92(iss_n6(*im)) == v3_impact_changed_n92(391600int));
            assert(nearest_half_up(v3_impact_changed_n92(391600int) * 100000,
                100000000000000000000000000000000000000000000000000000000000000000000000000000000000000000000int) == 272675);
            assert(roundup_e5(272675) == 28);
        }
        (28, 2944890911344)
    } else if iss == 525448 {
        proof {
            assert(v3_impact_changed_n92(iss_n6(*im)) == v3_impact_changed_n92(525448int));
            assert(nearest_half_up(v3_impact_changed_n92(525448int) * 100000,
                100000000000000000000000000000000000000000000000000000000000000000000000000000000000000000000int) == 373317);
            assert(roundup_e5(373317) == 38);
        }
        (38, 4031826052482)
    } else if iss == 560000 {
        proof {
            assert(v3_impact_changed_n92(iss_n6(*im)) == v3_impact_changed_n92(560000int));
            assert(nearest_half_up(v3_impact_changed_n92(560000int) * 100000,
                100000000000000000000000000000000000000000000000000000000000000000000000000000000000000000000int) == 399281);
            assert(roundup_e5(399281) == 40);
        }
        (40, 4312229807715)
    } else if iss == 656800 {
        proof {
            assert(v3_impact_changed_n92(iss_n6(*im)) == v3_impact_changed_n92(656800int));
            assert(nearest_half_up(v3_impact_changed_n92(656800int) * 100000,
                100000000000000000000000000000000000000000000000000000000000000000000000000000000000000000000int) == 471732);
            assert(roundup_e5(471732) == 48);
        }
        (48, 5094710035572)
    } else if iss == 732304 {
        proof {
            assert(v3_impact_changed_n92(iss_n6(*im)) == v3_impact_changed_n92(732304int));
            assert(nearest_half_up(v3_impact_changed_n92(732304int) * 100000,
                100000000000000000000000000000000000000000000000000000000000000000000000000000000000000000000int) == 526881);
            assert(roundup_e5(526881) == 53);
        }
        (53, 5690312241235)
    } else if iss == 806400 {
        proof {
            assert(v3_impact_changed_n92(iss_n6(*im)) == v3_impact_changed_n92(806400int));
            assert(nearest_half_up(v3_impact_changed_n92(806400int) * 100000,
                100000000000000000000000000000000000000000000000000000000000000000000000000000000000000000000int) == 575763);
            assert(roundup_e5(575763) == 58);
        }
        (58, 6218241445218)
    } else if iss == 848992 {
        proof {
            assert(v3_impact_changed_n92(iss_n6(*im)) == v3_impact_changed_n92(848992int));
            assert(nearest_half_up(v3_impact_changed_n92(848992int) * 100000,
                100000000000000000000000000000000000000000000000000000000000000000000000000000000000000000000int) == 597129);
            assert(roundup_e5(597129) == 60);
        }
        (60, 6448996665530)
    } else if iss == 914816 {
        proof {
            assert(v3_impact_changed_n92(iss_n6(*im)) == v3_impact_changed_n92(914816int));
            assert(nearest_half_up(v3_impact_changed_n92(914816int) * 100000,
                100000000000000000000000000000000000000000000000000000000000000000000000000000000000000000000int) == 604773);
            assert(roundup_e5(604773) == 61);
        }
        (61, 6531548930868)
    } else {
        unreached()
    }
}

/// The changed-scope impact is positive for every reachable `ISS`: the
/// subtracted 15th-power term stays far below the linear term.
proof fn lemma_changed_impact_pos(im: Impact)
    ensures
        v3_impact_changed_n92(iss_n6(im)) > 0,
{
    lemma_iss_cases(im);
    let iss = iss_n6(im);
    if iss == 0 {
        assert(v3_impact_changed_n92(iss) == v3_impact_changed_n92(0int));
    } else if iss == 220000 {
        assert(v3_impact_changed_n92(iss) == v3_impact_changed_n92(220000int));
    } else if iss == 391600 {
        assert(v3_impact_changed_n92(iss) == v3_impact_changed_n92(391600int));
    } else if iss == 525448 {
        assert(v3_impact_changed_n92(iss) == v3_impact_changed_n92(525448int));
    } else if iss == 560000 {
        assert(v3_impact_changed_n92(iss) == v3_impact_changed_n92(560000int));
    } else if iss == 656800 {
        assert(v3_impact_changed_n92(iss) == v3_impact_changed_n92(656800int));
    } else if iss == 732304 {
        assert(v3_impact_changed_n92(iss) == v3_impact_changed_n92(732304int));
    } else if iss == 806400 {
        assert(v3_impact_changed_n92(iss) == v3_impact_changed_n92(806400int));
    } else if iss == 848992 {
        assert(v3_impact_changed_n92(iss) == v3_impact_changed_n92(848992int));
    } else {
        assert(v3_impact_changed_n92(iss) == v3_impact_changed_n92(914816int));
    }
}

/// `ISS` scaled by `10^6`, on machine words.
fn iss_exec(im: &Impact) -> (r: u64)
    ensures
        r == iss_n6(*im),
        r <= 1000000,
{
    im.score()
}

/// The base score in tenths, computed exactly.
pub fn v3_base(ea: &ExploitAbility, sc: &ScopeType, im: &Impact) -> (t: u32)
    ensures
        t == v3_base_tenths(*ea, *sc, *im),
        t <= 100,
{
    let changed = sc.is_changed();
    let e = expl_exec(ea, changed);
    if !changed {
        let iss = iss_exec(im);
        if iss == 0 {
            0
        } else {
            let sum = 642 * iss * 100 + e;
            if sum > 100000000000 {
                100
            } else {
                roundup(nearest_half_up_u64(sum, 100000))
            }
        }
    } else {
        let (_, a) = v3_changed_consts(im);
        let m = a + 108 * e;
        let ghost n92 = v3_impact_changed_n92(iss_n6(*im));
        let ghost p82: int =
            10000000000000000000000000000000000000000000000000000000000000000000000000000000000int;
        let ghost r = 108 * n92 - (a as int) * p82;
        let ghost num = 108 * (n92 + (e as int) * p82);
        proof {
            assert(num == (m as int) * p82 + r);
            lemma_changed_impact_pos(*im);
        }
        if m >= 10000000000000 {
            proof {
                if num <= 100000 * p82 * 10000000 {
                    // then m * p82 + r <= 10^13 * p82 forces m == 10^13, r == 0
                    assert((m as int) * p82 >= 10000000000000 * p82) by (nonlinear_arith)
                        requires
                            m >= 10000000000000,
                            p82 > 0,
                    ;
                    assert(num == 10000000000000 * p82);
                }
            }
            100
        } else {
            let i5 = (m + 5000000) / 10000000;
            proof {
                assert(num < 10000000000000 * p82) by (nonlinear_arith)
                    requires
                        num == (m as int) * p82 + r,
                        m < 10000000000000,
                        0 <= r < p82,
                ;
                let q2 = 2 * p82;
                assert(2 * num + p82 * 10000000 == ((m as int) + 5000000) * q2 + 2 * r)
                    by (nonlinear_arith)
                    requires
                        num == (m as int) * p82 + r,
                        q2 == 2 * p82,
                ;
                lemma_div_mul_den((m as int) + 5000000, 10000000, q2, 2 * r);
                assert(nearest_half_up(num, p82 * 10000000) == ((m as int) + 5000000) / 10000000);
            }
            roundup(i5)
        }
    }
}

/// The metric fields of a v3.x vector, in their one required order:
/// AV, AC, PR, UI, S, C, I, A.  A pure left-to-right scan; the first
/// failure wins.
pub open spec fn v3_parse_fields(st: Option<Seq<char>>) -> Result<
    (ExploitAbility, ScopeType, Impact),
    CVSSErrorSeq,
> {
    match parse_field(
        st,
        seq!['A', 'V'],
        AttackVectorType::letters(),
        seq!['N', ',', 'A', ',', 'L', ',', 'P'],
    ) {
        Result::Err(e) => Result::Err(e),
        Result::Ok((c_av, st)) => match parse_field(
            st,
            seq!['A', 'C'],
            AttackComplexityType::letters(),
            seq!['H', ',', 'L'],
        ) {
            Result::Err(e) => Result::Err(e),
            Result::Ok((c_ac, st)) => match parse_field(
                st,
                seq!['P', 'R'],
                PrivilegesRequiredType::letters(),
                seq!['H', ',', 'L', ',', 'N'],
            ) {
                Result::Err(e) => Result::Err(e),
                Result::Ok((c_pr, st)) => match parse_field(
                    st,
                    seq!['U', 'I'],
                    UserInteractionType::letters(),
                    seq!['N', ',', 'R'],
                ) {
                    Result::Err(e) => Result::Err(e),
                    Result::Ok((c_ui, st)) => match parse_field(
                        st,
                        seq!['S'],
                        ScopeType::letters(),
                        seq!['U', ',', 'C'],
                    ) {
                        Result::Err(e) => Result::Err(e),
                        Result::Ok((c_s, st)) => match parse_field(
                            st,
                            seq!['C'],
                            ConfidentialityImpactType::letters(),
                            seq!['H', ',', 'L', ',', 'N'],
                        ) {
                            Result::Err(e) => Result::Err(e),
                            Result::Ok((c_c, st)) => match parse_field(
                                st,
                                seq!['I'],
                                IntegrityImpactType::letters(),
                                seq!['H', ',', 'L', ',', 'N'],
                            ) {
                                Result::Err(e) => Result::Err(e),
                                Result::Ok((c_i, st)) => match parse_field(
                                    st,
                                    seq!['A'],
                                    AvailabilityImpactType::letters(),
                                    seq!['H', ',', 'L', ',', 'N'],
                                ) {
                                    Result::Err(e) => Result::Err(e),
                                    Result::Ok((c_a, _)) => Result::Ok(
                                        (
                                            ExploitAbility {
                                                attack_vector: AttackVectorType::from_code(c_av),
                                                attack_complexity: AttackComplexityType::from_code(
                                                    c_ac,
                                                ),
                                                privileges_required:
                                                    PrivilegesRequiredType::from_code(c_pr),
                                                user_interaction: UserInteractionType::from_code(
                                                    c_ui,
                                                ),
                                            },
                                            ScopeType::from_code(c_s),
                                            Impact {
                                                confidentiality_impact:
                                                    ConfidentialityImpactType::from_code(c_c),
                                                integrity_impact: IntegrityImpactType::from_code(
                                                    c_i,
                                                ),
                                                availability_impact:
                                                    AvailabilityImpactType::from_code(c_a),
                                            },
                                        ),
                                    ),
                                },
                            },
                        },
                    },
                },
            },
        },
    }
}

/// What parsing a whole v3.x vector string yields: the version and the
/// metric set, or the first error.  Case-insensitive; the version
/// prefix, with or without its `CVSS:` tag, must name 3.0 or 3.1.
pub open spec fn v3_from_str_spec(s: Seq<char>) -> Result<
    (Version, ExploitAbility, ScopeType, Impact),
    CVSSErrorSeq,
> {
    let u = upper_seq(s);
    if find(u, '/') < 0 {
        Result::Err(CVSSErrorSeq::InvalidPrefix { value: s })
    } else {
        let ver = version_from_seq(tok(u));
        if ver != Version::V3_0 && ver != Version::V3_1 {
            Result::Err(
                CVSSErrorSeq::InvalidCVSSVersion {
                    value: version_name_seq(ver),
                    expected: seq!['3', '.', '0', ' ', 'o', 'r', ' ', '3', '.', '1'],
                },
            )
        } else {
            match v3_parse_fields(rest(u)) {
                Result::Err(e) => Result::Err(e),
                Result::Ok((ea, sc, im)) => Result::Ok((ver, ea, sc, im)),
            }
        }
    }
}

/// A parsed and scored v3.x vector.
///
/// Constructed only by [`CVSS::from_str`]: the scores are computed
/// atomically as part of construction and the value is immutable from
/// then on.  `base_score` is in tenths of a point.
#[derive(Debug, Clone)]
pub struct CVSS {
    pub version: Version,
    /// The input, echoed verbatim.
    pub vector_string: String,
    pub exploit_ability: ExploitAbility,
    pub scope: ScopeType,
    pub impact: Impact,
    /// The base score, in tenths: `54` is a score of 5.4.
    pub base_score: u32,
    pub base_severity: SeverityType,
}

impl CVSS {
    /// The rounded-up exploitability sub-score, in tenths.
    pub fn exploitability_score(&self) -> (t: u32)
        ensures
            t == v3_expl_tenths(self.exploit_ability, self.scope.changed()),
            t <= 100,
    {
        self.exploit_ability.score(self.scope.is_changed())
    }

    /// The rounded-up impact sub-score, in tenths.
    pub fn impact_score(&self) -> (t: u32)
        ensures
            t == v3_impact_tenths(self.scope, self.impact),
            t <= 100,
    {
        if self.scope.is_changed() {
            let (t, _) = v3_changed_consts(&self.impact);
            t
        } else {
            let iss = iss_exec(&self.impact);
            roundup(nearest_half_up_u64(642 * iss, 1000))
        }
    }

    /// Parse a v3.x vector string and score it.
    ///
    /// Succeeds exactly on the strings [`v3_from_str_spec`] accepts, and
    /// then carries that metric set, the input echoed verbatim, and the
    /// exactly computed base score and severity.
    pub fn from_str(vector_string: &str) -> (r: Result<CVSS, CVSSError>)
        ensures
            (match r {
                Result::Ok(c) => {
                    &&& v3_from_str_spec(vector_string@) == Result::<
                        (Version, ExploitAbility, ScopeType, Impact),
                        CVSSErrorSeq,
                    >::Ok((c.version, c.exploit_ability, c.scope, c.impact))
                    &&& c.vector_string@ == vector_string@
                    &&& c.base_score == v3_base_tenths(c.exploit_ability, c.scope, c.impact)
                    &&& c.base_score <= 100
                    &&& c.base_severity == severity_from_tenths(c.base_score as int)
                },
                Result::Err(e) => v3_from_str_spec(vector_string@) == Result::<
                    (Version, ExploitAbility, ScopeType, Impact),
                    CVSSErrorSeq,
                >::Err(e@),
            }),
    {
        let norm = upper_chars_of(vector_string);
        let ghost u = upper_seq(vector_string@);
        let j = match crate::text::find_from(&norm, 0, '/') {
            Option::Some(j) => j,
            Option::None => {
                proof {
                    assert(u.skip(0) =~= u);
                }
                return Result::Err(
                    CVSSError::InvalidPrefix { value: vector_string.to_owned() },
                );
            },
        };
        proof {
            assert(u.skip(0) =~= u);
            assert(tok(u) =~= norm@.subrange(0, j as int));
        }
        let ver = version_from_chars(&norm, 0, j);
        if !(matches!(ver, Version::V3_0) || matches!(ver, Version::V3_1)) {
            let expected = "3.0 or 3.1";
            proof {
                reveal_strlit("3.0 or 3.1");
                assert(expected@ =~= seq!['3', '.', '0', ' ', 'o', 'r', ' ', '3', '.', '1']);
            }
            return Result::Err(
                CVSSError::InvalidCVSSVersion { value: ver.name(), expected: expected.to_owned() },
            );
        }
        let st = Option::Some(j + 1);
        proof {
            assert(state_view(norm@, st) == rest(u));
        }
        proof {
            reveal_strlit("AV");
            reveal_strlit("NALP");
            reveal_strlit("N,A,L,P");
            assert("AV"@ =~= seq!['A', 'V']);
            assert("NALP"@ =~= AttackVectorType::letters());
            assert("N,A,L,P"@ =~= seq!['N', ',', 'A', ',', 'L', ',', 'P']);
        }
        let (c_av, st) = match parse_field_exec(&norm, st, "AV", "NALP", "N,A,L,P") {
            Result::Ok(x) => x,
            Result::Err(e) => {
                return Result::Err(e);
            },
        };
        proof {
            reveal_strlit("AC");
            reveal_strlit("HL");
            reveal_strlit("H,L");
            assert("AC"@ =~= seq!['A', 'C']);
            assert("HL"@ =~= AttackComplexityType::letters());
            assert("H,L"@ =~= seq!['H', ',', 'L']);
        }
        let (c_ac, st) = match parse_field_exec(&norm, st, "AC", "HL", "H,L") {
            Result::Ok(x) => x,
            Result::Err(e) => {
                return Result::Err(e);
            },
        };
        proof {
            reveal_strlit("PR");
            reveal_strlit("HLN");
            reveal_strlit("H,L,N");
            assert("PR"@ =~= seq!['P', 'R']);
            assert("HLN"@ =~= PrivilegesRequiredType::letters());
            assert("H,L,N"@ =~= seq!['H', ',', 'L', ',', 'N']);
        }
        let (c_pr, st) = match parse_field_exec(&norm, st, "PR", "HLN", "H,L,N") {
            Result::Ok(x) => x,
            Result::Err(e) => {
                return Result::Err(e);
            },
        };
        proof {
            reveal_strlit("UI");
            reveal_strlit("NR");
            reveal_strlit("N,R");
            assert("UI"@ =~= seq!['U', 'I']);
            assert("NR"@ =~= UserInteractionType::letters());
            assert("N,R"@ =~= seq!['N', ',', 'R']);
        }
        let (c_ui, st) = match parse_field_exec(&norm, st, "UI", "NR", "N,R") {
            Result::Ok(x) => x,
            Result::Err(e) => {
                return Result::Err(e);
            },
        };
        proof {
            reveal_strlit("S");
            reveal_strlit("UC");
            reveal_strlit("U,C");
            assert("S"@ =~= seq!['S']);
            assert("UC"@ =~= ScopeType::letters());
            assert("U,C"@ =~= seq!['U', ',', 'C']);
        }
        let (c_s, st) = match parse_field_exec(&norm, st, "S", "UC", "U,C") {
            Result::Ok(x) => x,
            Result::Err(e) => {
                return Result::Err(e);
            },
        };
        proof {
            reveal_strlit("C");
            reveal_strlit("HLN");
            reveal_strlit("H,L,N");
            assert("C"@ =~= seq!['C']);
            assert("HLN"@ =~= ConfidentialityImpactType::letters());
        }
        let (c_c, st) = match parse_field_exec(&norm, st, "C", "HLN", "H,L,N") {
            Result::Ok(x) => x,
            Result::Err(e) => {
                return Result::Err(e);
            },
        };
        proof {
            reveal_strlit("I");
            assert("I"@ =~= seq!['I']);
            assert("HLN"@ =~= IntegrityImpactType::letters());
        }
        let (c_i, st) = match parse_field_exec(&norm, st, "I", "HLN", "H,L,N") {
            Result::Ok(x) => x,
            Result::Err(e) => {
                return Result::Err(e);
            },
        };
        proof {
            reveal_strlit("A");
            assert("A"@ =~= seq!['A']);
            assert("HLN"@ =~= AvailabilityImpactType::letters());
        }
        let (c_a, _) = match parse_field_exec(&norm, st, "A", "HLN", "H,L,N") {
            Result::Ok(x) => x,
            Result::Err(e) => {
                return Result::Err(e);
            },
        };
        let exploit_ability = ExploitAbility {
            attack_vector: AttackVectorType::from_letter(c_av),
            attack_complexity: AttackComplexityType::from_letter(c_ac),
            privileges_required: PrivilegesRequiredType::from_letter(c_pr),
            user_interaction: UserInteractionType::from_letter(c_ui),
        };
        let scope = ScopeType::from_letter(c_s);
        let impact = Impact {
            confidentiality_impact: ConfidentialityImpactType::from_letter(c_c),
            integrity_impact: IntegrityImpactType::from_letter(c_i),
            availability_impact: AvailabilityImpactType::from_letter(c_a),
        };
        let base_score = v3_base(&exploit_ability, &scope, &impact);
        let base_severity = SeverityType::from_tenths(base_score);
        Result::Ok(
            CVSS {
                version: ver,
                vector_string: vector_string.to_owned(),
                exploit_ability,
                scope,
                impact,
                base_score,
                base_severity,
            },
        )
    }
}

/// A wire letter decodes back to the value that printed it.
proof fn lemma_code_AttackVectorType(m: AttackVectorType)
    ensures
        AttackVectorType::letters().contains(m.code()),
        AttackVectorType::from_code(m.code()) == m,
        upper_char(m.code()) == m.code(),
        m.code() != '/',
{
    match m {
        AttackVectorType::Network => {
            assert(AttackVectorType::letters()[0] == 'N');
        },
        AttackVectorType::AdjacentNetwork => {
            assert(AttackVectorType::letters()[1] == 'A');
        },
        AttackVectorType::Local => {
            assert(AttackVectorType::letters()[2] == 'L');
        },
        AttackVectorType::Physical => {
            assert(AttackVectorType::letters()[3] == 'P');
        },
    }
}

/// A wire letter decodes back to the value that printed it.
proof fn lemma_code_AttackComplexityType(m: AttackComplexityType)
    ensures
        AttackComplexityType::letters().contains(m.code()),
        AttackComplexityType::from_code(m.code()) == m,
        upper_char(m.code()) == m.code(),
        m.code() != '/',
{
    match m {
        AttackComplexityType::High => {
            assert(AttackComplexityType::letters()[0] == 'H');
        },
        AttackComplexityType::Low => {
            assert(AttackComplexityType::letters()[1] == 'L');
        },
    }
}

/// A wire letter decodes back to the value that printed it.
proof fn lemma_code_PrivilegesRequiredType(m: PrivilegesRequiredType)
    ensures
        PrivilegesRequiredType::letters().contains(m.code()),
        PrivilegesRequiredType::from_code(m.code()) == m,
        upper_char(m.code()) == m.code(),
        m.code() != '/',
{
    match m {
        PrivilegesRequiredType::High => {
            assert(PrivilegesRequiredType::letters()[0] == 'H');
        },
        PrivilegesRequiredType::Low => {
            assert(PrivilegesRequiredType::letters()[1] == 'L');
        },
        PrivilegesRequiredType::Negligible => {
            assert(PrivilegesRequiredType::letters()[2] == 'N');
        },
    }
}

/// A wire letter decodes back to the value that printed it.
proof fn lemma_code_UserInteractionType(m: UserInteractionType)
    ensures
        UserInteractionType::letters().contains(m.code()),
        UserInteractionType::from_code(m.code()) == m,
        upper_char(m.code()) == m.code(),
        m.code() != '/',
{
    match m {
        UserInteractionType::NotRequired => {
            assert(UserInteractionType::letters()[0] == 'N');
        },
        UserInteractionType::Required => {
            assert(UserInteractionType::letters()[1] == 'R');
        },
    }
}

/// A wire letter decodes back to the value that printed it.
proof fn lemma_code_ScopeType(m: ScopeType)
    ensures
        ScopeType::letters().contains(m.code()),
        ScopeType::from_code(m.code()) == m,
        upper_char(m.code()) == m.code(),
        m.code() != '/',
{
    match m {
        ScopeType::Unchanged => {
            assert(ScopeType::letters()[0] == 'U');
        },
        ScopeType::Changed => {
            assert(ScopeType::letters()[1] == 'C');
        },
    }
}

/// A wire letter decodes back to the value that printed it.
proof fn lemma_code_ConfidentialityImpactType(m: ConfidentialityImpactType)
    ensures
        ConfidentialityImpactType::letters().contains(m.code()),
        ConfidentialityImpactType::from_code(m.code()) == m,
        upper_char(m.code()) == m.code(),
        m.code() != '/',
{
    match m {
        ConfidentialityImpactType::High => {
            assert(ConfidentialityImpactType::letters()[0] == 'H');
        },
        ConfidentialityImpactType::Low => {
            assert(ConfidentialityImpactType::letters()[1] == 'L');
        },
        ConfidentialityImpactType::Negligible => {
            assert(ConfidentialityImpactType::letters()[2] == 'N');
        },
    }
}

/// A wire letter decodes back to the value that printed it.
proof fn lemma_code_IntegrityImpactType(m: IntegrityImpactType)
    ensures
        IntegrityImpactType::letters().contains(m.code()),
        IntegrityImpactType::from_code(m.code()) == m,
        upper_char(m.code()) == m.code(),
        m.code() != '/',
{
    match m {
        IntegrityImpactType::High => {
            assert(IntegrityImpactType::letters()[0] == 'H');
        },
        IntegrityImpactType::Low => {
            assert(IntegrityImpactType::letters()[1] == 'L');
        },
        IntegrityImpactType::Negligible => {
            assert(IntegrityImpactType::letters()[2] == 'N');
        },
    }
}

/// A wire letter decodes back to the value that printed it.
proof fn lemma_code_AvailabilityImpactType(m: AvailabilityImpactType)
    ensures
        AvailabilityImpactType::letters().contains(m.code()),
        AvailabilityImpactType::from_code(m.code()) == m,
        upper_char(m.code()) == m.code(),
        m.code() != '/',
{
    match m {
        AvailabilityImpactType::High => {
            assert(AvailabilityImpactType::letters()[0] == 'H');
        },
        AvailabilityImpactType::Low => {
            assert(AvailabilityImpactType::letters()[1] == 'L');
        },
        AvailabilityImpactType::Negligible => {
            assert(AvailabilityImpactType::letters()[2] == 'N');
        },
    }
}

/// The canonical metric fields of a v3.x vector, in emission order.
pub open spec fn v3_metrics_seq(ea: ExploitAbility, sc: ScopeType, im: Impact) -> Seq<char> {
    cons_token(
        field_seq(seq!['A', 'V'], ea.attack_vector.code()),
        Option::Some(
            cons_token(
                field_seq(seq!['A', 'C'], ea.attack_complexity.code()),
                Option::Some(
                    cons_token(
                        field_seq(seq!['P', 'R'], ea.privileges_required.code()),
                        Option::Some(
                            cons_token(
                                field_seq(seq!['U', 'I'], ea.user_interaction.code()),
                                Option::Some(
                                    cons_token(
                                        field_seq(seq!['S'], sc.code()),
                                        Option::Some(
                                            cons_token(
                                                field_seq(
                                                    seq!['C'],
                                                    im.confidentiality_impact.code(),
                                                ),
                                                Option::Some(
                                                    cons_token(
                                                        field_seq(
                                                            seq!['I'],
                                                            im.integrity_impact.code(),
                                                        ),
                                                        Option::Some(
                                                            cons_token(
                                                                field_seq(
                                                                    seq!['A'],
                                                                    im.availability_impact.code(),
                                                                ),
                                                                Option::None,
                                                            ),
                                                        ),
                                                    ),
                                                ),
                                            ),
                                        ),
                                    ),
                                ),
                            ),
                        ),
                    ),
                ),
            ),
        ),
    )
}

/// The canonical v3.x vector string: always the `CVSS:` tag, the
/// version, and the fields in the one fixed order, upper case.
pub open spec fn v3_vector_seq(ver: Version, ea: ExploitAbility, sc: ScopeType, im: Impact) -> Seq<
    char,
> {
    seq!['C', 'V', 'S', 'S', ':'] + version_name_seq(ver) + seq!['/'] + v3_metrics_seq(ea, sc, im)
}

impl CVSS {
    /// The canonical vector string for this metric set.
    #[verifier::rlimit(100)]
    pub fn to_vector_string(&self) -> (r: String)
        ensures
            r@ == v3_vector_seq(self.version, self.exploit_ability, self.scope, self.impact),
    {
        let mut out = String::new();
        out.append("CVSS:");
        let name = self.version.name();
        out.append(name.as_str());
        out.append("/AV:");
        push_char(&mut out, self.exploit_ability.attack_vector.as_letter());
        out.append("/AC:");
        push_char(&mut out, self.exploit_ability.attack_complexity.as_letter());
        out.append("/PR:");
        push_char(&mut out, self.exploit_ability.privileges_required.as_letter());
        out.append("/UI:");
        push_char(&mut out, self.exploit_ability.user_interaction.as_letter());
        out.append("/S:");
        push_char(&mut out, self.scope.as_letter());
        out.append("/C:");
        push_char(&mut out, self.impact.confidentiality_impact.as_letter());
        out.append("/I:");
        push_char(&mut out, self.impact.integrity_impact.as_letter());
        out.append("/A:");
        push_char(&mut out, self.impact.availability_impact.as_letter());
        proof {
            reveal_strlit("CVSS:");
            reveal_strlit("/AV:");
            reveal_strlit("/AC:");
            reveal_strlit("/PR:");
            reveal_strlit("/UI:");
            reveal_strlit("/S:");
            reveal_strlit("/C:");
            reveal_strlit("/I:");
            reveal_strlit("/A:");
            assert(out@ =~= v3_vector_seq(
                self.version,
                self.exploit_ability,
                self.scope,
                self.impact,
            ));
        }
        out
    }
}

/// Upper-casing leaves a canonical field unchanged.
proof fn lemma_upper_fix_field(key: Seq<char>, c: char)
    requires
        upper_seq(key) == key,
        upper_char(c) == c,
    ensures
        upper_seq(field_seq(key, c)) == field_seq(key, c),
{
    lemma_upper_seq_concat(key + seq![':'], seq![c]);
    lemma_upper_seq_concat(key, seq![':']);
    assert(upper_seq(seq![':']) =~= seq![':']);
    assert(upper_seq(seq![c]) =~= seq![c]);
}

/// Upper-casing leaves a canonical token chain unchanged.
proof fn lemma_upper_fix_cons(t: Seq<char>, r: Seq<char>)
    requires
        upper_seq(t) == t,
        upper_seq(r) == r,
    ensures
        upper_seq(cons_token(t, Option::Some(r))) == cons_token(t, Option::Some(r)),
{
    lemma_upper_seq_concat(t + seq!['/'], r);
    lemma_upper_seq_concat(t, seq!['/']);
    assert(upper_seq(seq!['/']) =~= seq!['/']);
}

/// Round trip: re-parsing a canonically formatted v3.x vector yields
/// exactly the metric set that was formatted (and so, since every score
/// is a function of the metric set, identical scores).
#[verifier::rlimit(100)]
pub proof fn lemma_v3_round_trip(ver: Version, ea: ExploitAbility, sc: ScopeType, im: Impact)
    requires
        ver == Version::V3_0 || ver == Version::V3_1,
    ensures
        v3_from_str_spec(v3_vector_seq(ver, ea, sc, im)) == Result::<
            (Version, ExploitAbility, ScopeType, Impact),
            CVSSErrorSeq,
        >::Ok((ver, ea, sc, im)),
{
    lemma_code_AttackVectorType(ea.attack_vector);
    lemma_code_AttackComplexityType(ea.attack_complexity);
    lemma_code_PrivilegesRequiredType(ea.privileges_required);
    lemma_code_UserInteractionType(ea.user_interaction);
    lemma_code_ScopeType(sc);
    lemma_code_ConfidentialityImpactType(im.confidentiality_impact);
    lemma_code_IntegrityImpactType(im.integrity_impact);
    lemma_code_AvailabilityImpactType(im.availability_impact);
    let s = v3_vector_seq(ver, ea, sc, im);
    let f8 = field_seq(seq!['A'], im.availability_impact.code());
    let m8 = cons_token(f8, Option::None);
    let f7 = field_seq(seq!['I'], im.integrity_impact.code());
    let m7 = cons_token(f7, Option::Some(m8));
    let f6 = field_seq(seq!['C'], im.confidentiality_impact.code());
    let m6 = cons_token(f6, Option::Some(m7));
    let f5 = field_seq(seq!['S'], sc.code());
    let m5 = cons_token(f5, Option::Some(m6));
    let f4 = field_seq(seq!['U', 'I'], ea.user_interaction.code());
    let m4 = cons_token(f4, Option::Some(m5));
    let f3 = field_seq(seq!['P', 'R'], ea.privileges_required.code());
    let m3 = cons_token(f3, Option::Some(m4));
    let f2 = field_seq(seq!['A', 'C'], ea.attack_complexity.code());
    let m2 = cons_token(f2, Option::Some(m3));
    let f1 = field_seq(seq!['A', 'V'], ea.attack_vector.code());
    let m1 = cons_token(f1, Option::Some(m2));
    let pre = seq!['C', 'V', 'S', 'S', ':'] + version_name_seq(ver);
    assert(s == pre + seq!['/'] + m1);
    // upper-casing leaves the canonical string unchanged
    assert(upper_seq(seq!['A']) =~= seq!['A']);
    assert(upper_seq(seq!['I']) =~= seq!['I']);
    assert(upper_seq(seq!['C']) =~= seq!['C']);
    assert(upper_seq(seq!['S']) =~= seq!['S']);
    assert(upper_seq(seq!['U', 'I']) =~= seq!['U', 'I']);
    assert(upper_seq(seq!['P', 'R']) =~= seq!['P', 'R']);
    assert(upper_seq(seq!['A', 'C']) =~= seq!['A', 'C']);
    assert(upper_seq(seq!['A', 'V']) =~= seq!['A', 'V']);
    lemma_upper_fix_field(seq!['A'], im.availability_impact.code());
    lemma_upper_fix_field(seq!['I'], im.integrity_impact.code());
    lemma_upper_fix_field(seq!['C'], im.confidentiality_impact.code());
    lemma_upper_fix_field(seq!['S'], sc.code());
    lemma_upper_fix_field(seq!['U', 'I'], ea.user_interaction.code());
    lemma_upper_fix_field(seq!['P', 'R'], ea.privileges_required.code());
    lemma_upper_fix_field(seq!['A', 'C'], ea.attack_complexity.code());
    lemma_upper_fix_field(seq!['A', 'V'], ea.attack_vector.code());
    assert(upper_seq(m8) == m8);
    lemma_upper_fix_cons(f7, m8);
    lemma_upper_fix_cons(f6, m7);
    lemma_upper_fix_cons(f5, m6);
    lemma_upper_fix_cons(f4, m5);
    lemma_upper_fix_cons(f3, m4);
    lemma_upper_fix_cons(f2, m3);
    lemma_upper_fix_cons(f1, m2);
    assert(upper_seq(pre) =~= pre);
    lemma_upper_seq_concat(pre + seq!['/'], m1);
    lemma_upper_seq_concat(pre, seq!['/']);
    assert(upper_seq(seq!['/']) =~= seq!['/']);
    assert(upper_seq(s) == s);
    // the version prefix is the first token
    assert(pre.len() == 8);
    assert(s[8] == '/');
    assert forall|i: int| 0 <= i < 8 implies #[trigger] s[i] != '/' by {
        assert(s[i] == pre[i]);
    }
    lemma_find_is(s, '/', 8);
    assert(tok(s) =~= pre);
    assert(version_from_seq(pre.skip(5)) == ver);
    assert(version_from_seq(tok(s)) == ver);
    assert(rest(s) == Option::Some(s.skip(9)));
    assert(s.skip(9) =~= m1);
    // the eight fields, one token each
    lemma_field_token(
        seq!['A', 'V'],
        ea.attack_vector.code(),
        AttackVectorType::letters(),
        seq!['N', ',', 'A', ',', 'L', ',', 'P'],
        Option::Some(m2),
    );
    lemma_field_token(
        seq!['A', 'C'],
        ea.attack_complexity.code(),
        AttackComplexityType::letters(),
        seq!['H', ',', 'L'],
        Option::Some(m3),
    );
    lemma_field_token(
        seq!['P', 'R'],
        ea.privileges_required.code(),
        PrivilegesRequiredType::letters(),
        seq!['H', ',', 'L', ',', 'N'],
        Option::Some(m4),
    );
    lemma_field_token(
        seq!['U', 'I'],
        ea.user_interaction.code(),
        UserInteractionType::letters(),
        seq!['N', ',', 'R'],
        Option::Some(m5),
    );
    lemma_field_token(
        seq!['S'],
        sc.code(),
        ScopeType::letters(),
        seq!['U', ',', 'C'],
        Option::Some(m6),
    );
    lemma_field_token(
        seq!['C'],
        im.confidentiality_impact.code(),
        ConfidentialityImpactType::letters(),
        seq!['H', ',', 'L', ',', 'N'],
        Option::Some(m7),
    );
    lemma_field_token(
        seq!['I'],
        im.integrity_impact.code(),
        IntegrityImpactType::letters(),
        seq!['H', ',', 'L', ',', 'N'],
        Option::Some(m8),
    );
    lemma_field_token(
        seq!['A'],
        im.availability_impact.code(),
        AvailabilityImpactType::letters(),
        seq!['H', ',', 'L', ',', 'N'],
        Option::None,
    );
}

/// Version isolation: a vector string whose prefix does not name 3.0 or
/// 3.1 — a v2-shaped vector, for instance — never parses against the
/// v3.x grammar; it fails with the matching error kind, and a string
/// without any `/` separator fails as an invalid prefix.
pub proof fn lemma_v3_version_isolation(s: Seq<char>)
    ensures
        find(upper_seq(s), '/') < 0 ==> v3_from_str_spec(s) == Result::<
            (Version, ExploitAbility, ScopeType, Impact),
            CVSSErrorSeq,
        >::Err(CVSSErrorSeq::InvalidPrefix { value: s }),
        ({
            let ver = version_from_seq(tok(upper_seq(s)));
            (find(upper_seq(s), '/') >= 0 && ver != Version::V3_0 && ver != Version::V3_1)
                ==> v3_from_str_spec(s) == Result::<
                (Version, ExploitAbility, ScopeType, Impact),
                CVSSErrorSeq,
            >::Err(
                CVSSErrorSeq::InvalidCVSSVersion {
                    value: version_name_seq(ver),
                    expected: seq!['3', '.', '0', ' ', 'o', 'r', ' ', '3', '.', '1'],
                },
            )
        }),
{
}

} // verus!
