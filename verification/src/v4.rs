//! CVSS v4.0.
//!
//! Version 4.0 does not use a closed algebraic formula.  The parsed
//! metric set is classified into six equivalence classes (EQ1..EQ6),
//! whose digits form a macrovector; a published lookup table gives each
//! macrovector a base value, and a local severity-distance adjustment
//! interpolates from that value toward the next lower macrovector in
//! each class.  The table is embedded as fixed reference data.
//!
//! The grammar takes the eleven base fields in one required order, then
//! the optional threat (E) and environmental requirement (CR, IR, AR)
//! fields, whose absence means "not defined".  Modified (M*) metrics
//! and the Safety extension are not part of this grammar; the
//! safety-driven class EQ4 = 0 is therefore never produced, though the
//! scoring model keeps its table row.
//!
//! Every quantity in the adjustment is a small rational: distances are
//! whole numbers of tenth-steps and depths are whole numbers, so the
//! score is computed exactly over integers.

use vstd::prelude::*;
use crate::error::{CVSSError, CVSSErrorSeq};
use crate::metric::{Help, Worth};
use crate::score::nearest_half_up;
use crate::severity::{SeverityType, severity_from_tenths};
use crate::text::{upper_seq, upper_chars_of, upper_char, lemma_upper_seq_concat, find,
    lemma_find_is, push_char, find_from, string_of_chars};
use crate::vector::{
    parse_field, parse_field_exec, parse_opt_field, parse_opt_field_exec, state_view, state_ok,
    rest, tok, token_key, cons_token, field_seq, lemma_field_token, lemma_opt_field_token,
    lemma_opt_field_skip, lemma_upper_field, lemma_upper_cons,
};
use crate::version::{Version, version_from_seq, version_name_seq, version_from_chars};
use vstd::string::StringExecFns;
use vstd::slice::slice_subrange;

verus! {


/// Attack Vector (AV): from where the vulnerable system is reachable.
#[derive(Debug, Clone, Copy, PartialEq, Eq, Structural)]
pub enum AttackVectorType {
    Network,
    AdjacentNetwork,
    Local,
    Physical,
}

impl AttackVectorType {
    /// The wire letter.
    pub open spec fn code(self) -> char {
        match self {
            AttackVectorType::Network => 'N',
            AttackVectorType::AdjacentNetwork => 'A',
            AttackVectorType::Local => 'L',
            AttackVectorType::Physical => 'P',
        }
    }

    /// The letters the grammar accepts for this metric.
    pub open spec fn letters() -> Seq<char> {
        seq!['N', 'A', 'L', 'P']
    }

    /// The value a wire letter decodes to (unaccepted letters are mapped
    /// arbitrarily; the parser only applies this to accepted ones).
    pub open spec fn from_code(c: char) -> Self {
        match c {
            'A' => AttackVectorType::AdjacentNetwork,
            'L' => AttackVectorType::Local,
            'P' => AttackVectorType::Physical,
            _ => AttackVectorType::Network,
        }
    }

    /// The severity level: steps away from the most severe value, in the
    /// scale the macrovector distance computation uses.
    pub open spec fn level(self) -> int {
        match self {
            AttackVectorType::Network => 0,
            AttackVectorType::AdjacentNetwork => 1,
            AttackVectorType::Local => 2,
            AttackVectorType::Physical => 3,
        }
    }

    pub fn severity_level(&self) -> (l: u32)
        ensures
            l == self.level(),
            l <= 3,
    {
        match self {
            AttackVectorType::Network => 0,
            AttackVectorType::AdjacentNetwork => 1,
            AttackVectorType::Local => 2,
            AttackVectorType::Physical => 3,
        }
    }

    fn from_letter(c: char) -> (m: Self)
        ensures
            m == Self::from_code(c),
    {
        match c {
            'A' => AttackVectorType::AdjacentNetwork,
            'L' => AttackVectorType::Local,
            'P' => AttackVectorType::Physical,
            _ => AttackVectorType::Network,
        }
    }

    /// The wire letter this value prints as.
    pub fn as_letter(&self) -> (c: char)
        ensures
            c == self.code(),
    {
        match self {
            AttackVectorType::Network => 'N',
            AttackVectorType::AdjacentNetwork => 'A',
            AttackVectorType::Local => 'L',
            AttackVectorType::Physical => 'P',
        }
    }
}

/// A wire letter decodes back to the value that printed it.
proof fn lemma_code_AttackVectorType(m: AttackVectorType)
    ensures
        AttackVectorType::letters().contains(m.code()),
        AttackVectorType::from_code(m.code()) == m,
        upper_char(m.code()) == m.code(),
        m.code() != '/',
{
    match m {
        AttackVectorType::Network => {
            assert(AttackVectorType::letters()[0] == 'N');
        },
        AttackVectorType::AdjacentNetwork => {
            assert(AttackVectorType::letters()[1] == 'A');
        },
        AttackVectorType::Local => {
            assert(AttackVectorType::letters()[2] == 'L');
        },
        AttackVectorType::Physical => {
            assert(AttackVectorType::letters()[3] == 'P');
        },
    }
}

/// Attack Complexity (AC): conditions beyond the attacker's control.
#[derive(Debug, Clone, Copy, PartialEq, Eq, Structural)]
pub enum AttackComplexityType {
    Low,
    High,
}

impl AttackComplexityType {
    /// The wire letter.
    pub open spec fn code(self) -> char {
        match self {
            AttackComplexityType::Low => 'L',
            AttackComplexityType::High => 'H',
        }
    }

    /// The letters the grammar accepts for this metric.
    pub open spec fn letters() -> Seq<char> {
        seq!['L', 'H']
    }

    /// The value a wire letter decodes to (unaccepted letters are mapped
    /// arbitrarily; the parser only applies this to accepted ones).
    pub open spec fn from_code(c: char) -> Self {
        match c {
            'H' => AttackComplexityType::High,
            _ => AttackComplexityType::Low,
        }
    }

    /// The severity level: steps away from the most severe value, in the
    /// scale the macrovector distance computation uses.
    pub open spec fn level(self) -> int {
        match self {
            AttackComplexityType::Low => 0,
            AttackComplexityType::High => 1,
        }
    }

    pub fn severity_level(&self) -> (l: u32)
        ensures
            l == self.level(),
            l <= 1,
    {
        match self {
            AttackComplexityType::Low => 0,
            AttackComplexityType::High => 1,
        }
    }

    fn from_letter(c: char) -> (m: Self)
        ensures
            m == Self::from_code(c),
    {
        match c {
            'H' => AttackComplexityType::High,
            _ => AttackComplexityType::Low,
        }
    }

    /// The wire letter this value prints as.
    pub fn as_letter(&self) -> (c: char)
        ensures
            c == self.code(),
    {
        match self {
            AttackComplexityType::Low => 'L',
            AttackComplexityType::High => 'H',
        }
    }
}

/// A wire letter decodes back to the value that printed it.
proof fn lemma_code_AttackComplexityType(m: AttackComplexityType)
    ensures
        AttackComplexityType::letters().contains(m.code()),
        AttackComplexityType::from_code(m.code()) == m,
        upper_char(m.code()) == m.code(),
        m.code() != '/',
{
    match m {
        AttackComplexityType::Low => {
            assert(AttackComplexityType::letters()[0] == 'L');
        },
        AttackComplexityType::High => {
            assert(AttackComplexityType::letters()[1] == 'H');
        },
    }
}

/// Attack Requirements (AT): deployment conditions the attack depends on.
#[derive(Debug, Clone, Copy, PartialEq, Eq, Structural)]
pub enum AttackRequirementsType {
    Negligible,
    Present,
}

impl AttackRequirementsType {
    /// The wire letter.
    pub open spec fn code(self) -> char {
        match self {
            AttackRequirementsType::Negligible => 'N',
            AttackRequirementsType::Present => 'P',
        }
    }

    /// The letters the grammar accepts for this metric.
    pub open spec fn letters() -> Seq<char> {
        seq!['N', 'P']
    }

    /// The value a wire letter decodes to (unaccepted letters are mapped
    /// arbitrarily; the parser only applies this to accepted ones).
    pub open spec fn from_code(c: char) -> Self {
        match c {
            'P' => AttackRequirementsType::Present,
            _ => AttackRequirementsType::Negligible,
        }
    }

    /// The severity level: steps away from the most severe value, in the
    /// scale the macrovector distance computation uses.
    pub open spec fn level(self) -> int {
        match self {
            AttackRequirementsType::Negligible => 0,
            AttackRequirementsType::Present => 1,
        }
    }

    pub fn severity_level(&self) -> (l: u32)
        ensures
            l == self.level(),
            l <= 1,
    {
        match self {
            AttackRequirementsType::Negligible => 0,
            AttackRequirementsType::Present => 1,
        }
    }

    fn from_letter(c: char) -> (m: Self)
        ensures
            m == Self::from_code(c),
    {
        match c {
            'P' => AttackRequirementsType::Present,
            _ => AttackRequirementsType::Negligible,
        }
    }

    /// The wire letter this value prints as.
    pub fn as_letter(&self) -> (c: char)
        ensures
            c == self.code(),
    {
        match self {
            AttackRequirementsType::Negligible => 'N',
            AttackRequirementsType::Present => 'P',
        }
    }
}

/// A wire letter decodes back to the value that printed it.
proof fn lemma_code_AttackRequirementsType(m: AttackRequirementsType)
    ensures
        AttackRequirementsType::letters().contains(m.code()),
        AttackRequirementsType::from_code(m.code()) == m,
        upper_char(m.code()) == m.code(),
        m.code() != '/',
{
    match m {
        AttackRequirementsType::Negligible => {
            assert(AttackRequirementsType::letters()[0] == 'N');
        },
        AttackRequirementsType::Present => {
            assert(AttackRequirementsType::letters()[1] == 'P');
        },
    }
}

/// Privileges Required (PR).
#[derive(Debug, Clone, Copy, PartialEq, Eq, Structural)]
pub enum PrivilegesRequiredType {
    Negligible,
    Low,
    High,
}

impl PrivilegesRequiredType {
    /// The wire letter.
    pub open spec fn code(self) -> char {
        match self {
            PrivilegesRequiredType::Negligible => 'N',
            PrivilegesRequiredType::Low => 'L',
            PrivilegesRequiredType::High => 'H',
        }
    }

    /// The letters the grammar accepts for this metric.
    pub open spec fn letters() -> Seq<char> {
        seq!['N', 'L', 'H']
    }

    /// The value a wire letter decodes to (unaccepted letters are mapped
    /// arbitrarily; the parser only applies this to accepted ones).
    pub open spec fn from_code(c: char) -> Self {
        match c {
            'L' => PrivilegesRequiredType::Low,
            'H' => PrivilegesRequiredType::High,
            _ => PrivilegesRequiredType::Negligible,
        }
    }

    /// The severity level: steps away from the most severe value, in the
    /// scale the macrovector distance computation uses.
    pub open spec fn level(self) -> int {
        match self {
            PrivilegesRequiredType::Negligible => 0,
            PrivilegesRequiredType::Low => 1,
            PrivilegesRequiredType::High => 2,
        }
    }

    pub fn severity_level(&self) -> (l: u32)
        ensures
            l == self.level(),
            l <= 2,
    {
        match self {
            PrivilegesRequiredType::Negligible => 0,
            PrivilegesRequiredType::Low => 1,
            PrivilegesRequiredType::High => 2,
        }
    }

    fn from_letter(c: char) -> (m: Self)
        ensures
            m == Self::from_code(c),
    {
        match c {
            'L' => PrivilegesRequiredType::Low,
            'H' => PrivilegesRequiredType::High,
            _ => PrivilegesRequiredType::Negligible,
        }
    }

    /// The wire letter this value prints as.
    pub fn as_letter(&self) -> (c: char)
        ensures
            c == self.code(),
    {
        match self {
            PrivilegesRequiredType::Negligible => 'N',
            PrivilegesRequiredType::Low => 'L',
            PrivilegesRequiredType::High => 'H',
        }
    }
}

/// A wire letter decodes back to the value that printed it.
proof fn lemma_code_PrivilegesRequiredType(m: PrivilegesRequiredType)
    ensures
        PrivilegesRequiredType::letters().contains(m.code()),
        PrivilegesRequiredType::from_code(m.code()) == m,
        upper_char(m.code()) == m.code(),
        m.code() != '/',
{
    match m {
        PrivilegesRequiredType::Negligible => {
            assert(PrivilegesRequiredType::letters()[0] == 'N');
        },
        PrivilegesRequiredType::Low => {
            assert(PrivilegesRequiredType::letters()[1] == 'L');
        },
        PrivilegesRequiredType::High => {
            assert(PrivilegesRequiredType::letters()[2] == 'H');
        },
    }
}

/// User Interaction (UI): what a user other than the attacker must do.
#[derive(Debug, Clone, Copy, PartialEq, Eq, Structural)]
pub enum UserInteractionType {
    NotRequired,
    Passive,
    Active,
}

impl UserInteractionType {
    /// The wire letter.
    pub open spec fn code(self) -> char {
        match self {
            UserInteractionType::NotRequired => 'N',
            UserInteractionType::Passive => 'P',
            UserInteractionType::Active => 'A',
        }
    }

    /// The letters the grammar accepts for this metric.
    pub open spec fn letters() -> Seq<char> {
        seq!['N', 'P', 'A']
    }

    /// The value a wire letter decodes to (unaccepted letters are mapped
    /// arbitrarily; the parser only applies this to accepted ones).
    pub open spec fn from_code(c: char) -> Self {
        match c {
            'P' => UserInteractionType::Passive,
            'A' => UserInteractionType::Active,
            _ => UserInteractionType::NotRequired,
        }
    }

    /// The severity level: steps away from the most severe value, in the
    /// scale the macrovector distance computation uses.
    pub open spec fn level(self) -> int {
        match self {
            UserInteractionType::NotRequired => 0,
            UserInteractionType::Passive => 1,
            UserInteractionType::Active => 2,
        }
    }

    pub fn severity_level(&self) -> (l: u32)
        ensures
            l == self.level(),
            l <= 2,
    {
        match self {
            UserInteractionType::NotRequired => 0,
            UserInteractionType::Passive => 1,
            UserInteractionType::Active => 2,
        }
    }

    fn from_letter(c: char) -> (m: Self)
        ensures
            m == Self::from_code(c),
    {
        match c {
            'P' => UserInteractionType::Passive,
            'A' => UserInteractionType::Active,
            _ => UserInteractionType::NotRequired,
        }
    }

    /// The wire letter this value prints as.
    pub fn as_letter(&self) -> (c: char)
        ensures
            c == self.code(),
    {
        match self {
            UserInteractionType::NotRequired => 'N',
            UserInteractionType::Passive => 'P',
            UserInteractionType::Active => 'A',
        }
    }
}

/// A wire letter decodes back to the value that printed it.
proof fn lemma_code_UserInteractionType(m: UserInteractionType)
    ensures
        UserInteractionType::letters().contains(m.code()),
        UserInteractionType::from_code(m.code()) == m,
        upper_char(m.code()) == m.code(),
        m.code() != '/',
{
    match m {
        UserInteractionType::NotRequired => {
            assert(UserInteractionType::letters()[0] == 'N');
        },
        UserInteractionType::Passive => {
            assert(UserInteractionType::letters()[1] == 'P');
        },
        UserInteractionType::Active => {
            assert(UserInteractionType::letters()[2] == 'A');
        },
    }
}

/// Confidentiality Impact to the Vulnerable System (VC).
#[derive(Debug, Clone, Copy, PartialEq, Eq, Structural)]
pub enum ConfidentialityImpactType {
    High,
    Low,
    Negligible,
}

impl ConfidentialityImpactType {
    /// The wire letter.
    pub open spec fn code(self) -> char {
        match self {
            ConfidentialityImpactType::High => 'H',
            ConfidentialityImpactType::Low => 'L',
            ConfidentialityImpactType::Negligible => 'N',
        }
    }

    /// The letters the grammar accepts for this metric.
    pub open spec fn letters() -> Seq<char> {
        seq!['H', 'L', 'N']
    }

    /// The value a wire letter decodes to (unaccepted letters are mapped
    /// arbitrarily; the parser only applies this to accepted ones).
    pub open spec fn from_code(c: char) -> Self {
        match c {
            'H' => ConfidentialityImpactType::High,
            'L' => ConfidentialityImpactType::Low,
            _ => ConfidentialityImpactType::Negligible,
        }
    }

    /// The severity level: steps away from the most severe value, in the
    /// scale the macrovector distance computation uses.
    pub open spec fn level(self) -> int {
        match self {
            ConfidentialityImpactType::High => 0,
            ConfidentialityImpactType::Low => 1,
            ConfidentialityImpactType::Negligible => 2,
        }
    }

    pub fn severity_level(&self) -> (l: u32)
        ensures
            l == self.level(),
            l <= 2,
    {
        match self {
            ConfidentialityImpactType::High => 0,
            ConfidentialityImpactType::Low => 1,
            ConfidentialityImpactType::Negligible => 2,
        }
    }

    fn from_letter(c: char) -> (m: Self)
        ensures
            m == Self::from_code(c),
    {
        match c {
            'H' => ConfidentialityImpactType::High,
            'L' => ConfidentialityImpactType::Low,
            _ => ConfidentialityImpactType::Negligible,
        }
    }

    /// The wire letter this value prints as.
    pub fn as_letter(&self) -> (c: char)
        ensures
            c == self.code(),
    {
        match self {
            ConfidentialityImpactType::High => 'H',
            ConfidentialityImpactType::Low => 'L',
            ConfidentialityImpactType::Negligible => 'N',
        }
    }
}

/// A wire letter decodes back to the value that printed it.
proof fn lemma_code_ConfidentialityImpactType(m: ConfidentialityImpactType)
    ensures
        ConfidentialityImpactType::letters().contains(m.code()),
        ConfidentialityImpactType::from_code(m.code()) == m,
        upper_char(m.code()) == m.code(),
        m.code() != '/',
{
    match m {
        ConfidentialityImpactType::High => {
            assert(ConfidentialityImpactType::letters()[0] == 'H');
        },
        ConfidentialityImpactType::Low => {
            assert(ConfidentialityImpactType::letters()[1] == 'L');
        },
        ConfidentialityImpactType::Negligible => {
            assert(ConfidentialityImpactType::letters()[2] == 'N');
        },
    }
}

/// Integrity Impact to the Vulnerable System (VI).
#[derive(Debug, Clone, Copy, PartialEq, Eq, Structural)]
pub enum IntegrityImpactType {
    High,
    Low,
    Negligible,
}

impl IntegrityImpactType {
    /// The wire letter.
    pub open spec fn code(self) -> char {
        match self {
            IntegrityImpactType::High => 'H',
            IntegrityImpactType::Low => 'L',
            IntegrityImpactType::Negligible => 'N',
        }
    }

    /// The letters the grammar accepts for this metric.
    pub open spec fn letters() -> Seq<char> {
        seq!['H', 'L', 'N']
    }

    /// The value a wire letter decodes to (unaccepted letters are mapped
    /// arbitrarily; the parser only applies this to accepted ones).
    pub open spec fn from_code(c: char) -> Self {
        match c {
            'H' => IntegrityImpactType::High,
            'L' => IntegrityImpactType::Low,
            _ => IntegrityImpactType::Negligible,
        }
    }

    /// The severity level: steps away from the most severe value, in the
    /// scale the macrovector distance computation uses.
    pub open spec fn level(self) -> int {
        match self {
            IntegrityImpactType::High => 0,
            IntegrityImpactType::Low => 1,
            IntegrityImpactType::Negligible => 2,
        }
    }

    pub fn severity_level(&self) -> (l: u32)
        ensures
            l == self.level(),
            l <= 2,
    {
        match self {
            IntegrityImpactType::High => 0,
            IntegrityImpactType::Low => 1,
            IntegrityImpactType::Negligible => 2,
        }
    }

    fn from_letter(c: char) -> (m: Self)
        ensures
            m == Self::from_code(c),
    {
        match c {
            'H' => IntegrityImpactType::High,
            'L' => IntegrityImpactType::Low,
            _ => IntegrityImpactType::Negligible,
        }
    }

    /// The wire letter this value prints as.
    pub fn as_letter(&self) -> (c: char)
        ensures
            c == self.code(),
    {
        match self {
            IntegrityImpactType::High => 'H',
            IntegrityImpactType::Low => 'L',
            IntegrityImpactType::Negligible => 'N',
        }
    }
}

/// A wire letter decodes back to the value that printed it.
proof fn lemma_code_IntegrityImpactType(m: IntegrityImpactType)
    ensures
        IntegrityImpactType::letters().contains(m.code()),
        IntegrityImpactType::from_code(m.code()) == m,
        upper_char(m.code()) == m.code(),
        m.code() != '/',
{
    match m {
        IntegrityImpactType::High => {
            assert(IntegrityImpactType::letters()[0] == 'H');
        },
        IntegrityImpactType::Low => {
            assert(IntegrityImpactType::letters()[1] == 'L');
        },
        IntegrityImpactType::Negligible => {
            assert(IntegrityImpactType::letters()[2] == 'N');
        },
    }
}

/// Availability Impact to the Vulnerable System (VA).
#[derive(Debug, Clone, Copy, PartialEq, Eq, Structural)]
pub enum AvailabilityImpactType {
    High,
    Low,
    Negligible,
}

impl AvailabilityImpactType {
    /// The wire letter.
    pub open spec fn code(self) -> char {
        match self {
            AvailabilityImpactType::High => 'H',
            AvailabilityImpactType::Low => 'L',
            AvailabilityImpactType::Negligible => 'N',
        }
    }

    /// The letters the grammar accepts for this metric.
    pub open spec fn letters() -> Seq<char> {
        seq!['H', 'L', 'N']
    }

    /// The value a wire letter decodes to (unaccepted letters are mapped
    /// arbitrarily; the parser only applies this to accepted ones).
    pub open spec fn from_code(c: char) -> Self {
        match c {
            'H' => AvailabilityImpactType::High,
            'L' => AvailabilityImpactType::Low,
            _ => AvailabilityImpactType::Negligible,
        }
    }

    /// The severity level: steps away from the most severe value, in the
    /// scale the macrovector distance computation uses.
    pub open spec fn level(self) -> int {
        match self {
            AvailabilityImpactType::High => 0,
            AvailabilityImpactType::Low => 1,
            AvailabilityImpactType::Negligible => 2,
        }
    }

    pub fn severity_level(&self) -> (l: u32)
        ensures
            l == self.level(),
            l <= 2,
    {
        match self {
            AvailabilityImpactType::High => 0,
            AvailabilityImpactType::Low => 1,
            AvailabilityImpactType::Negligible => 2,
        }
    }

    fn from_letter(c: char) -> (m: Self)
        ensures
            m == Self::from_code(c),
    {
        match c {
            'H' => AvailabilityImpactType::High,
            'L' => AvailabilityImpactType::Low,
            _ => AvailabilityImpactType::Negligible,
        }
    }

    /// The wire letter this value prints as.
    pub fn as_letter(&self) -> (c: char)
        ensures
            c == self.code(),
    {
        match self {
            AvailabilityImpactType::High => 'H',
            AvailabilityImpactType::Low => 'L',
            AvailabilityImpactType::Negligible => 'N',
        }
    }
}

/// A wire letter decodes back to the value that printed it.
proof fn lemma_code_AvailabilityImpactType(m: AvailabilityImpactType)
    ensures
        AvailabilityImpactType::letters().contains(m.code()),
        AvailabilityImpactType::from_code(m.code()) == m,
        upper_char(m.code()) == m.code(),
        m.code() != '/',
{
    match m {
        AvailabilityImpactType::High => {
            assert(AvailabilityImpactType::letters()[0] == 'H');
        },
        AvailabilityImpactType::Low => {
            assert(AvailabilityImpactType::letters()[1] == 'L');
        },
        AvailabilityImpactType::Negligible => {
            assert(AvailabilityImpactType::letters()[2] == 'N');
        },
    }
}

/// Confidentiality Impact to the Subsequent System (SC).
#[derive(Debug, Clone, Copy, PartialEq, Eq, Structural)]
pub enum SubsequentConfidentialityImpactType {
    High,
    Low,
    Negligible,
}

impl SubsequentConfidentialityImpactType {
    /// The wire letter.
    pub open spec fn code(self) -> char {
        match self {
            SubsequentConfidentialityImpactType::High => 'H',
            SubsequentConfidentialityImpactType::Low => 'L',
            SubsequentConfidentialityImpactType::Negligible => 'N',
        }
    }

    /// The letters the grammar accepts for this metric.
    pub open spec fn letters() -> Seq<char> {
        seq!['H', 'L', 'N']
    }

    /// The value a wire letter decodes to (unaccepted letters are mapped
    /// arbitrarily; the parser only applies this to accepted ones).
    pub open spec fn from_code(c: char) -> Self {
        match c {
            'H' => SubsequentConfidentialityImpactType::High,
            'L' => SubsequentConfidentialityImpactType::Low,
            _ => SubsequentConfidentialityImpactType::Negligible,
        }
    }

    /// The severity level: steps away from the most severe value, in the
    /// scale the macrovector distance computation uses.
    pub open spec fn level(self) -> int {
        match self {
            SubsequentConfidentialityImpactType::High => 1,
            SubsequentConfidentialityImpactType::Low => 2,
            SubsequentConfidentialityImpactType::Negligible => 3,
        }
    }

    pub fn severity_level(&self) -> (l: u32)
        ensures
            l == self.level(),
            l <= 3,
    {
        match self {
            SubsequentConfidentialityImpactType::High => 1,
            SubsequentConfidentialityImpactType::Low => 2,
            SubsequentConfidentialityImpactType::Negligible => 3,
        }
    }

    fn from_letter(c: char) -> (m: Self)
        ensures
            m == Self::from_code(c),
    {
        match c {
            'H' => SubsequentConfidentialityImpactType::High,
            'L' => SubsequentConfidentialityImpactType::Low,
            _ => SubsequentConfidentialityImpactType::Negligible,
        }
    }

    /// The wire letter this value prints as.
    pub fn as_letter(&self) -> (c: char)
        ensures
            c == self.code(),
    {
        match self {
            SubsequentConfidentialityImpactType::High => 'H',
            SubsequentConfidentialityImpactType::Low => 'L',
            SubsequentConfidentialityImpactType::Negligible => 'N',
        }
    }
}

/// A wire letter decodes back to the value that printed it.
proof fn lemma_code_SubsequentConfidentialityImpactType(m: SubsequentConfidentialityImpactType)
    ensures
        SubsequentConfidentialityImpactType::letters().contains(m.code()),
        SubsequentConfidentialityImpactType::from_code(m.code()) == m,
        upper_char(m.code()) == m.code(),
        m.code() != '/',
{
    match m {
        SubsequentConfidentialityImpactType::High => {
            assert(SubsequentConfidentialityImpactType::letters()[0] == 'H');
        },
        SubsequentConfidentialityImpactType::Low => {
            assert(SubsequentConfidentialityImpactType::letters()[1] == 'L');
        },
        SubsequentConfidentialityImpactType::Negligible => {
            assert(SubsequentConfidentialityImpactType::letters()[2] == 'N');
        },
    }
}

/// Integrity Impact to the Subsequent System (SI).
#[derive(Debug, Clone, Copy, PartialEq, Eq, Structural)]
pub enum SubsequentIntegrityImpactType {
    High,
    Low,
    Negligible,
}

impl SubsequentIntegrityImpactType {
    /// The wire letter.
    pub open spec fn code(self) -> char {
        match self {
            SubsequentIntegrityImpactType::High => 'H',
            SubsequentIntegrityImpactType::Low => 'L',
            SubsequentIntegrityImpactType::Negligible => 'N',
        }
    }

    /// The letters the grammar accepts for this metric.
    pub open spec fn letters() -> Seq<char> {
        seq!['H', 'L', 'N']
    }

    /// The value a wire letter decodes to (unaccepted letters are mapped
    /// arbitrarily; the parser only applies this to accepted ones).
    pub open spec fn from_code(c: char) -> Self {
        match c {
            'H' => SubsequentIntegrityImpactType::High,
            'L' => SubsequentIntegrityImpactType::Low,
            _ => SubsequentIntegrityImpactType::Negligible,
        }
    }

    /// The severity level: steps away from the most severe value, in the
    /// scale the macrovector distance computation uses.
    pub open spec fn level(self) -> int {
        match self {
            SubsequentIntegrityImpactType::High => 1,
            SubsequentIntegrityImpactType::Low => 2,
            SubsequentIntegrityImpactType::Negligible => 3,
        }
    }

    pub fn severity_level(&self) -> (l: u32)
        ensures
            l == self.level(),
            l <= 3,
    {
        match self {
            SubsequentIntegrityImpactType::High => 1,
            SubsequentIntegrityImpactType::Low => 2,
            SubsequentIntegrityImpactType::Negligible => 3,
        }
    }

    fn from_letter(c: char) -> (m: Self)
        ensures
            m == Self::from_code(c),
    {
        match c {
            'H' => SubsequentIntegrityImpactType::High,
            'L' => SubsequentIntegrityImpactType::Low,
            _ => SubsequentIntegrityImpactType::Negligible,
        }
    }

    /// The wire letter this value prints as.
    pub fn as_letter(&self) -> (c: char)
        ensures
            c == self.code(),
    {
        match self {
            SubsequentIntegrityImpactType::High => 'H',
            SubsequentIntegrityImpactType::Low => 'L',
            SubsequentIntegrityImpactType::Negligible => 'N',
        }
    }
}

/// A wire letter decodes back to the value that printed it.
proof fn lemma_code_SubsequentIntegrityImpactType(m: SubsequentIntegrityImpactType)
    ensures
        SubsequentIntegrityImpactType::letters().contains(m.code()),
        SubsequentIntegrityImpactType::from_code(m.code()) == m,
        upper_char(m.code()) == m.code(),
        m.code() != '/',
{
    match m {
        SubsequentIntegrityImpactType::High => {
            assert(SubsequentIntegrityImpactType::letters()[0] == 'H');
        },
        SubsequentIntegrityImpactType::Low => {
            assert(SubsequentIntegrityImpactType::letters()[1] == 'L');
        },
        SubsequentIntegrityImpactType::Negligible => {
            assert(SubsequentIntegrityImpactType::letters()[2] == 'N');
        },
    }
}

/// Availability Impact to the Subsequent System (SA).
#[derive(Debug, Clone, Copy, PartialEq, Eq, Structural)]
pub enum SubsequentAvailabilityImpactType {
    High,
    Low,
    Negligible,
}

impl SubsequentAvailabilityImpactType {
    /// The wire letter.
    pub open spec fn code(self) -> char {
        match self {
            SubsequentAvailabilityImpactType::High => 'H',
            SubsequentAvailabilityImpactType::Low => 'L',
            SubsequentAvailabilityImpactType::Negligible => 'N',
        }
    }

    /// The letters the grammar accepts for this metric.
    pub open spec fn letters() -> Seq<char> {
        seq!['H', 'L', 'N']
    }

    /// The value a wire letter decodes to (unaccepted letters are mapped
    /// arbitrarily; the parser only applies this to accepted ones).
    pub open spec fn from_code(c: char) -> Self {
        match c {
            'H' => SubsequentAvailabilityImpactType::High,
            'L' => SubsequentAvailabilityImpactType::Low,
            _ => SubsequentAvailabilityImpactType::Negligible,
        }
    }

    /// The severity level: steps away from the most severe value, in the
    /// scale the macrovector distance computation uses.
    pub open spec fn level(self) -> int {
        match self {
            SubsequentAvailabilityImpactType::High => 1,
            SubsequentAvailabilityImpactType::Low => 2,
            SubsequentAvailabilityImpactType::Negligible => 3,
        }
    }

    pub fn severity_level(&self) -> (l: u32)
        ensures
            l == self.level(),
            l <= 3,
    {
        match self {
            SubsequentAvailabilityImpactType::High => 1,
            SubsequentAvailabilityImpactType::Low => 2,
            SubsequentAvailabilityImpactType::Negligible => 3,
        }
    }

    fn from_letter(c: char) -> (m: Self)
        ensures
            m == Self::from_code(c),
    {
        match c {
            'H' => SubsequentAvailabilityImpactType::High,
            'L' => SubsequentAvailabilityImpactType::Low,
            _ => SubsequentAvailabilityImpactType::Negligible,
        }
    }

    /// The wire letter this value prints as.
    pub fn as_letter(&self) -> (c: char)
        ensures
            c == self.code(),
    {
        match self {
            SubsequentAvailabilityImpactType::High => 'H',
            SubsequentAvailabilityImpactType::Low => 'L',
            SubsequentAvailabilityImpactType::Negligible => 'N',
        }
    }
}

/// A wire letter decodes back to the value that printed it.
proof fn lemma_code_SubsequentAvailabilityImpactType(m: SubsequentAvailabilityImpactType)
    ensures
        SubsequentAvailabilityImpactType::letters().contains(m.code()),
        SubsequentAvailabilityImpactType::from_code(m.code()) == m,
        upper_char(m.code()) == m.code(),
        m.code() != '/',
{
    match m {
        SubsequentAvailabilityImpactType::High => {
            assert(SubsequentAvailabilityImpactType::letters()[0] == 'H');
        },
        SubsequentAvailabilityImpactType::Low => {
            assert(SubsequentAvailabilityImpactType::letters()[1] == 'L');
        },
        SubsequentAvailabilityImpactType::Negligible => {
            assert(SubsequentAvailabilityImpactType::letters()[2] == 'N');
        },
    }
}

/// Exploit Maturity (E): the state of exploit techniques in the wild.
#[derive(Debug, Clone, Copy, PartialEq, Eq, Structural)]
pub enum ExploitMaturityType {
    NotDefined,
    Attacked,
    ProofOfConcept,
    Unreported,
}

impl ExploitMaturityType {
    /// The wire letter.
    pub open spec fn code(self) -> char {
        match self {
            ExploitMaturityType::NotDefined => 'X',
            ExploitMaturityType::Attacked => 'A',
            ExploitMaturityType::ProofOfConcept => 'P',
            ExploitMaturityType::Unreported => 'U',
        }
    }

    /// The letters the grammar accepts for this metric.
    pub open spec fn letters() -> Seq<char> {
        seq!['X', 'A', 'P', 'U']
    }

    /// The value a wire letter decodes to (unaccepted letters are mapped
    /// arbitrarily; the parser only applies this to accepted ones).
    pub open spec fn from_code(c: char) -> Self {
        match c {
            'A' => ExploitMaturityType::Attacked,
            'P' => ExploitMaturityType::ProofOfConcept,
            'U' => ExploitMaturityType::Unreported,
            _ => ExploitMaturityType::NotDefined,
        }
    }

    /// The severity level: steps away from the most severe value, in the
    /// scale the macrovector distance computation uses.
    pub open spec fn level(self) -> int {
        match self {
            ExploitMaturityType::NotDefined => 0,
            ExploitMaturityType::Attacked => 0,
            ExploitMaturityType::ProofOfConcept => 1,
            ExploitMaturityType::Unreported => 2,
        }
    }

    pub fn severity_level(&self) -> (l: u32)
        ensures
            l == self.level(),
            l <= 2,
    {
        match self {
            ExploitMaturityType::NotDefined => 0,
            ExploitMaturityType::Attacked => 0,
            ExploitMaturityType::ProofOfConcept => 1,
            ExploitMaturityType::Unreported => 2,
        }
    }

    fn from_letter(c: char) -> (m: Self)
        ensures
            m == Self::from_code(c),
    {
        match c {
            'A' => ExploitMaturityType::Attacked,
            'P' => ExploitMaturityType::ProofOfConcept,
            'U' => ExploitMaturityType::Unreported,
            _ => ExploitMaturityType::NotDefined,
        }
    }

    /// The wire letter this value prints as.
    pub fn as_letter(&self) -> (c: char)
        ensures
            c == self.code(),
    {
        match self {
            ExploitMaturityType::NotDefined => 'X',
            ExploitMaturityType::Attacked => 'A',
            ExploitMaturityType::ProofOfConcept => 'P',
            ExploitMaturityType::Unreported => 'U',
        }
    }
}

/// A wire letter decodes back to the value that printed it.
proof fn lemma_code_ExploitMaturityType(m: ExploitMaturityType)
    ensures
        ExploitMaturityType::letters().contains(m.code()),
        ExploitMaturityType::from_code(m.code()) == m,
        upper_char(m.code()) == m.code(),
        m.code() != '/',
{
    match m {
        ExploitMaturityType::NotDefined => {
            assert(ExploitMaturityType::letters()[0] == 'X');
        },
        ExploitMaturityType::Attacked => {
            assert(ExploitMaturityType::letters()[1] == 'A');
        },
        ExploitMaturityType::ProofOfConcept => {
            assert(ExploitMaturityType::letters()[2] == 'P');
        },
        ExploitMaturityType::Unreported => {
            assert(ExploitMaturityType::letters()[3] == 'U');
        },
    }
}

/// An environmental security requirement (CR, IR or AR).
#[derive(Debug, Clone, Copy, PartialEq, Eq, Structural)]
pub enum RequirementType {
    NotDefined,
    High,
    Medium,
    Low,
}

impl RequirementType {
    /// The wire letter.
    pub open spec fn code(self) -> char {
        match self {
            RequirementType::NotDefined => 'X',
            RequirementType::High => 'H',
            RequirementType::Medium => 'M',
            RequirementType::Low => 'L',
        }
    }

    /// The letters the grammar accepts for this metric.
    pub open spec fn letters() -> Seq<char> {
        seq!['X', 'H', 'M', 'L']
    }

    /// The value a wire letter decodes to (unaccepted letters are mapped
    /// arbitrarily; the parser only applies this to accepted ones).
    pub open spec fn from_code(c: char) -> Self {
        match c {
            'H' => RequirementType::High,
            'M' => RequirementType::Medium,
            'L' => RequirementType::Low,
            _ => RequirementType::NotDefined,
        }
    }

    /// The severity level: steps away from the most severe value, in the
    /// scale the macrovector distance computation uses.
    pub open spec fn level(self) -> int {
        match self {
            RequirementType::NotDefined => 0,
            RequirementType::High => 0,
            RequirementType::Medium => 1,
            RequirementType::Low => 2,
        }
    }

    pub fn severity_level(&self) -> (l: u32)
        ensures
            l == self.level(),
            l <= 2,
    {
        match self {
            RequirementType::NotDefined => 0,
            RequirementType::High => 0,
            RequirementType::Medium => 1,
            RequirementType::Low => 2,
        }
    }

    fn from_letter(c: char) -> (m: Self)
        ensures
            m == Self::from_code(c),
    {
        match c {
            'H' => RequirementType::High,
            'M' => RequirementType::Medium,
            'L' => RequirementType::Low,
            _ => RequirementType::NotDefined,
        }
    }

    /// The wire letter this value prints as.
    pub fn as_letter(&self) -> (c: char)
        ensures
            c == self.code(),
    {
        match self {
            RequirementType::NotDefined => 'X',
            RequirementType::High => 'H',
            RequirementType::Medium => 'M',
            RequirementType::Low => 'L',
        }
    }
}

/// A wire letter decodes back to the value that printed it.
proof fn lemma_code_RequirementType(m: RequirementType)
    ensures
        RequirementType::letters().contains(m.code()),
        RequirementType::from_code(m.code()) == m,
        upper_char(m.code()) == m.code(),
        m.code() != '/',
{
    match m {
        RequirementType::NotDefined => {
            assert(RequirementType::letters()[0] == 'X');
        },
        RequirementType::High => {
            assert(RequirementType::letters()[1] == 'H');
        },
        RequirementType::Medium => {
            assert(RequirementType::letters()[2] == 'M');
        },
        RequirementType::Low => {
            assert(RequirementType::letters()[3] == 'L');
        },
    }
}


/// The exploitability metrics of v4.0.
#[derive(Debug, Clone, Copy, PartialEq, Eq, Structural)]
pub struct ExploitAbility {
    pub attack_vector: AttackVectorType,
    pub attack_complexity: AttackComplexityType,
    pub attack_requirements: AttackRequirementsType,
    pub privileges_required: PrivilegesRequiredType,
    pub user_interaction: UserInteractionType,
}

/// The impact metrics for the vulnerable system (VC, VI, VA).
#[derive(Debug, Clone, Copy, PartialEq, Eq, Structural)]
pub struct VulnerableImpact {
    pub confidentiality_impact: ConfidentialityImpactType,
    pub integrity_impact: IntegrityImpactType,
    pub availability_impact: AvailabilityImpactType,
}

/// The impact metrics for systems beyond the vulnerable one (SC, SI,
/// SA).
#[derive(Debug, Clone, Copy, PartialEq, Eq, Structural)]
pub struct SubsequentImpact {
    pub confidentiality_impact: SubsequentConfidentialityImpactType,
    pub integrity_impact: SubsequentIntegrityImpactType,
    pub availability_impact: SubsequentAvailabilityImpactType,
}

/// A complete v4.0 metric set: the base metrics plus the optional
/// threat and environmental requirement metrics.
#[derive(Debug, Clone, Copy, PartialEq, Eq, Structural)]
pub struct MetricSet {
    pub exploit_ability: ExploitAbility,
    pub vulnerable_impact: VulnerableImpact,
    pub subsequent_impact: SubsequentImpact,
    pub exploit_maturity: ExploitMaturityType,
    pub confidentiality_requirement: RequirementType,
    pub integrity_requirement: RequirementType,
    pub availability_requirement: RequirementType,
}

impl SubsequentConfidentialityImpactType {
    /// The help entry for this value.
    pub fn metric_help(&self) -> (h: Help)
        ensures
            h.worth == (match self {
                SubsequentConfidentialityImpactType::High => Worth::Worst,
                SubsequentConfidentialityImpactType::Low => Worth::Bad,
                SubsequentConfidentialityImpactType::Negligible => Worth::Good,
            }),
    {
        match self {
            SubsequentConfidentialityImpactType::High => Help {
                worth: Worth::Worst,
                des: "There is a total loss of confidentiality within the subsequent system, or the disclosed information presents a direct, serious impact.".to_owned(),
            },
            SubsequentConfidentialityImpactType::Low => Help {
                worth: Worth::Bad,
                des: "There is some loss of confidentiality, but the attacker does not control what is obtained and the loss is limited.".to_owned(),
            },
            SubsequentConfidentialityImpactType::Negligible => Help {
                worth: Worth::Good,
                des: "There is no loss of confidentiality within the subsequent system.".to_owned(),
            },
        }
    }

    /// Whether this is the `High` value.
    pub fn is_high(&self) -> (b: bool)
        ensures
            b == (*self == SubsequentConfidentialityImpactType::High),
    {
        matches!(self, SubsequentConfidentialityImpactType::High)
    }

    /// Whether this is the `Negligible` (`N`) value.
    pub fn is_none(&self) -> (b: bool)
        ensures
            b == (*self == SubsequentConfidentialityImpactType::Negligible),
    {
        matches!(self, SubsequentConfidentialityImpactType::Negligible)
    }
}

impl SubsequentIntegrityImpactType {
    /// The help entry for this value.
    pub fn metric_help(&self) -> (h: Help)
        ensures
            h.worth == (match self {
                SubsequentIntegrityImpactType::High => Worth::Worst,
                SubsequentIntegrityImpactType::Low => Worth::Bad,
                SubsequentIntegrityImpactType::Negligible => Worth::Good,
            }),
    {
        match self {
            SubsequentIntegrityImpactType::High => Help {
                worth: Worth::Worst,
                des: "There is a total loss of integrity or of protection within the subsequent system, or malicious modification presents a direct, serious consequence.".to_owned(),
            },
            SubsequentIntegrityImpactType::Low => Help {
                worth: Worth::Bad,
                des: "Modification of data is possible, but the attacker does not control the consequence and the amount is limited.".to_owned(),
            },
            SubsequentIntegrityImpactType::Negligible => Help {
                worth: Worth::Good,
                des: "There is no loss of integrity within the subsequent system.".to_owned(),
            },
        }
    }

    /// Whether this is the `High` value.
    pub fn is_high(&self) -> (b: bool)
        ensures
            b == (*self == SubsequentIntegrityImpactType::High),
    {
        matches!(self, SubsequentIntegrityImpactType::High)
    }

    /// Whether this is the `Negligible` (`N`) value.
    pub fn is_none(&self) -> (b: bool)
        ensures
            b == (*self == SubsequentIntegrityImpactType::Negligible),
    {
        matches!(self, SubsequentIntegrityImpactType::Negligible)
    }
}

impl SubsequentAvailabilityImpactType {
    /// The help entry for this value.
    pub fn metric_help(&self) -> (h: Help)
        ensures
            h.worth == (match self {
                SubsequentAvailabilityImpactType::High => Worth::Worst,
                SubsequentAvailabilityImpactType::Low => Worth::Bad,
                SubsequentAvailabilityImpactType::Negligible => Worth::Good,
            }),
    {
        match self {
            SubsequentAvailabilityImpactType::High => Help {
                worth: Worth::Worst,
                des: "The attacker can fully deny access to resources in the subsequent system, or the loss of availability presents a direct, serious consequence.".to_owned(),
            },
            SubsequentAvailabilityImpactType::Low => Help {
                worth: Worth::Bad,
                des: "Performance is reduced or resource availability is interrupted, but service cannot be completely denied to legitimate users.".to_owned(),
            },
            SubsequentAvailabilityImpactType::Negligible => Help {
                worth: Worth::Good,
                des: "There is no impact to availability within the subsequent system.".to_owned(),
            },
        }
    }

    /// Whether this is the `High` value.
    pub fn is_high(&self) -> (b: bool)
        ensures
            b == (*self == SubsequentAvailabilityImpactType::High),
    {
        matches!(self, SubsequentAvailabilityImpactType::High)
    }

    /// Whether this is the `Negligible` (`N`) value.
    pub fn is_none(&self) -> (b: bool)
        ensures
            b == (*self == SubsequentAvailabilityImpactType::Negligible),
    {
        matches!(self, SubsequentAvailabilityImpactType::Negligible)
    }
}

/// The subsequent-system impact group is entirely `N`.
pub open spec fn subsequent_all_none(si: SubsequentImpact) -> bool {
    &&& si.confidentiality_impact == SubsequentConfidentialityImpactType::Negligible
    &&& si.integrity_impact == SubsequentIntegrityImpactType::Negligible
    &&& si.availability_impact == SubsequentAvailabilityImpactType::Negligible
}

/// EQ4 over the subsequent-system impacts alone: 1 when any of SC, SI,
/// SA is `High`, else 2.  The class 0 would need a Safety signal from
/// the modified metrics, which this grammar does not carry.
pub open spec fn eq4_of(si: SubsequentImpact) -> int {
    if si.confidentiality_impact == SubsequentConfidentialityImpactType::High
        || si.integrity_impact == SubsequentIntegrityImpactType::High
        || si.availability_impact == SubsequentAvailabilityImpactType::High {
        1
    } else {
        2
    }
}

impl SubsequentImpact {
    /// Whether every subsequent-system impact is `N`, which collapses
    /// environmental scoring to the vulnerable-system-only case.
    pub fn all_none(&self) -> (b: bool)
        ensures
            b == subsequent_all_none(*self),
    {
        self.confidentiality_impact.is_none() && self.integrity_impact.is_none()
            && self.availability_impact.is_none()
    }

    /// The EQ4 equivalence class this group falls in.
    pub fn eq4(&self) -> (r: Option<u32>)
        ensures
            r == Option::Some(eq4_of(*self) as u32),
    {
        if self.confidentiality_impact.is_high() || self.integrity_impact.is_high()
            || self.availability_impact.is_high() {
            Option::Some(1)
        } else {
            Option::Some(2)
        }
    }
}

/// EQ1: how directly the vulnerable system can be reached.
pub open spec fn eq1_of(ea: ExploitAbility) -> int {
    let av = ea.attack_vector.level();
    let pr = ea.privileges_required.level();
    let ui = ea.user_interaction.level();
    if av == 0 && pr == 0 && ui == 0 {
        0
    } else if av != 3 && (av == 0 || pr == 0 || ui == 0) {
        1
    } else {
        2
    }
}

/// EQ2: the attack complexity class.
pub open spec fn eq2_of(ea: ExploitAbility) -> int {
    if ea.attack_complexity.level() == 0 && ea.attack_requirements.level() == 0 {
        0
    } else {
        1
    }
}

/// EQ3: the vulnerable-system impact class.
pub open spec fn eq3_of(vi: VulnerableImpact) -> int {
    let vc = vi.confidentiality_impact.level();
    let vin = vi.integrity_impact.level();
    let va = vi.availability_impact.level();
    if vc == 0 && vin == 0 {
        0
    } else if vc == 0 || vin == 0 || va == 0 {
        1
    } else {
        2
    }
}

/// EQ5: the exploit maturity class (not defined counts as attacked).
pub open spec fn eq5_of(e: ExploitMaturityType) -> int {
    e.level()
}

/// EQ6: whether an environmental requirement concentrates on an impact
/// that is already `High` (a requirement left not defined counts as
/// `High`).
pub open spec fn eq6_of(
    vi: VulnerableImpact,
    cr: RequirementType,
    ir: RequirementType,
    ar: RequirementType,
) -> int {
    if (cr.level() == 0 && vi.confidentiality_impact.level() == 0) || (ir.level() == 0
        && vi.integrity_impact.level() == 0) || (ar.level() == 0
        && vi.availability_impact.level() == 0) {
        0
    } else {
        1
    }
}

/// The six equivalence-class digits packed as one decimal number.
pub open spec fn mv_key(e1: int, e2: int, e3: int, e4: int, e5: int, e6: int) -> int {
    e1 * 100000 + e2 * 10000 + e3 * 1000 + e4 * 100 + e5 * 10 + e6
}

/// The base score of a macrovector, in tenths: the published lookup
/// table, keyed by the six equivalence-class digits packed as a decimal
/// number `e1 e2 e3 e4 e5 e6`.  Combinations outside the table score 0.
#[verifier::opaque]
pub open spec fn mv_value(k: int) -> int {
    if k == 0 {
        100
    } else
    if k == 1 {
        99
    } else
    if k == 10 {
        98
    } else
    if k == 11 {
        95
    } else
    if k == 20 {
        95
    } else
    if k == 21 {
        92
    } else
    if k == 100 {
        100
    } else
    if k == 101 {
        96
    } else
    if k == 110 {
        93
    } else
    if k == 111 {
        87
    } else
    if k == 120 {
        91
    } else
    if k == 121 {
        81
    } else
    if k == 200 {
        93
    } else
    if k == 201 {
        90
    } else
    if k == 210 {
        89
    } else
    if k == 211 {
        80
    } else
    if k == 220 {
        81
    } else
    if k == 221 {
        68
    } else
    if k == 1000 {
        98
    } else
    if k == 1001 {
        95
    } else
    if k == 1010 {
        95
    } else
    if k == 1011 {
        92
    } else
    if k == 1020 {
        90
    } else
    if k == 1021 {
        84
    } else
    if k == 1100 {
        93
    } else
    if k == 1101 {
        92
    } else
    if k == 1110 {
        89
    } else
    if k == 1111 {
        81
    } else
    if k == 1120 {
        81
    } else
    if k == 1121 {
        65
    } else
    if k == 1200 {
        88
    } else
    if k == 1201 {
        80
    } else
    if k == 1210 {
        78
    } else
    if k == 1211 {
        70
    } else
    if k == 1220 {
        69
    } else
    if k == 1221 {
        48
    } else
    if k == 2001 {
        92
    } else
    if k == 2011 {
        82
    } else
    if k == 2021 {
        72
    } else
    if k == 2101 {
        79
    } else
    if k == 2111 {
        69
    } else
    if k == 2121 {
        50
    } else
    if k == 2201 {
        69
    } else
    if k == 2211 {
        55
    } else
    if k == 2221 {
        27
    } else
    if k == 10000 {
        99
    } else
    if k == 10001 {
        97
    } else
    if k == 10010 {
        95
    } else
    if k == 10011 {
        92
    } else
    if k == 10020 {
        92
    } else
    if k == 10021 {
        85
    } else
    if k == 10100 {
        95
    } else
    if k == 10101 {
        91
    } else
    if k == 10110 {
        90
    } else
    if k == 10111 {
        83
    } else
    if k == 10120 {
        84
    } else
    if k == 10121 {
        71
    } else
    if k == 10200 {
        92
    } else
    if k == 10201 {
        81
    } else
    if k == 10210 {
        82
    } else
    if k == 10211 {
        71
    } else
    if k == 10220 {
        72
    } else
    if k == 10221 {
        53
    } else
    if k == 11000 {
        95
    } else
    if k == 11001 {
        93
    } else
    if k == 11010 {
        92
    } else
    if k == 11011 {
        85
    } else
    if k == 11020 {
        85
    } else
    if k == 11021 {
        73
    } else
    if k == 11100 {
        92
    } else
    if k == 11101 {
        82
    } else
    if k == 11110 {
        80
    } else
    if k == 11111 {
        72
    } else
    if k == 11120 {
        70
    } else
    if k == 11121 {
        59
    } else
    if k == 11200 {
        84
    } else
    if k == 11201 {
        70
    } else
    if k == 11210 {
        71
    } else
    if k == 11211 {
        52
    } else
    if k == 11220 {
        50
    } else
    if k == 11221 {
        30
    } else
    if k == 12001 {
        86
    } else
    if k == 12011 {
        75
    } else
    if k == 12021 {
        52
    } else
    if k == 12101 {
        71
    } else
    if k == 12111 {
        52
    } else
    if k == 12121 {
        29
    } else
    if k == 12201 {
        63
    } else
    if k == 12211 {
        29
    } else
    if k == 12221 {
        17
    } else
    if k == 100000 {
        98
    } else
    if k == 100001 {
        95
    } else
    if k == 100010 {
        94
    } else
    if k == 100011 {
        87
    } else
    if k == 100020 {
        91
    } else
    if k == 100021 {
        81
    } else
    if k == 100100 {
        94
    } else
    if k == 100101 {
        89
    } else
    if k == 100110 {
        86
    } else
    if k == 100111 {
        74
    } else
    if k == 100120 {
        77
    } else
    if k == 100121 {
        64
    } else
    if k == 100200 {
        87
    } else
    if k == 100201 {
        75
    } else
    if k == 100210 {
        74
    } else
    if k == 100211 {
        63
    } else
    if k == 100220 {
        63
    } else
    if k == 100221 {
        49
    } else
    if k == 101000 {
        94
    } else
    if k == 101001 {
        89
    } else
    if k == 101010 {
        88
    } else
    if k == 101011 {
        77
    } else
    if k == 101020 {
        76
    } else
    if k == 101021 {
        67
    } else
    if k == 101100 {
        86
    } else
    if k == 101101 {
        76
    } else
    if k == 101110 {
        74
    } else
    if k == 101111 {
        58
    } else
    if k == 101120 {
        59
    } else
    if k == 101121 {
        50
    } else
    if k == 101200 {
        72
    } else
    if k == 101201 {
        57
    } else
    if k == 101210 {
        57
    } else
    if k == 101211 {
        52
    } else
    if k == 101220 {
        52
    } else
    if k == 101221 {
        25
    } else
    if k == 102001 {
        83
    } else
    if k == 102011 {
        70
    } else
    if k == 102021 {
        54
    } else
    if k == 102101 {
        65
    } else
    if k == 102111 {
        58
    } else
    if k == 102121 {
        26
    } else
    if k == 102201 {
        53
    } else
    if k == 102211 {
        21
    } else
    if k == 102221 {
        13
    } else
    if k == 110000 {
        95
    } else
    if k == 110001 {
        90
    } else
    if k == 110010 {
        88
    } else
    if k == 110011 {
        76
    } else
    if k == 110020 {
        76
    } else
    if k == 110021 {
        70
    } else
    if k == 110100 {
        90
    } else
    if k == 110101 {
        77
    } else
    if k == 110110 {
        75
    } else
    if k == 110111 {
        62
    } else
    if k == 110120 {
        61
    } else
    if k == 110121 {
        53
    } else
    if k == 110200 {
        77
    } else
    if k == 110201 {
        66
    } else
    if k == 110210 {
        68
    } else
    if k == 110211 {
        59
    } else
    if k == 110220 {
        52
    } else
    if k == 110221 {
        30
    } else
    if k == 111000 {
        89
    } else
    if k == 111001 {
        78
    } else
    if k == 111010 {
        76
    } else
    if k == 111011 {
        67
    } else
    if k == 111020 {
        62
    } else
    if k == 111021 {
        58
    } else
    if k == 111100 {
        74
    } else
    if k == 111101 {
        59
    } else
    if k == 111110 {
        57
    } else
    if k == 111111 {
        57
    } else
    if k == 111120 {
        47
    } else
    if k == 111121 {
        23
    } else
    if k == 111200 {
        61
    } else
    if k == 111201 {
        52
    } else
    if k == 111210 {
        57
    } else
    if k == 111211 {
        29
    } else
    if k == 111220 {
        24
    } else
    if k == 111221 {
        16
    } else
    if k == 112001 {
        71
    } else
    if k == 112011 {
        59
    } else
    if k == 112021 {
        30
    } else
    if k == 112101 {
        58
    } else
    if k == 112111 {
        26
    } else
    if k == 112121 {
        15
    } else
    if k == 112201 {
        23
    } else
    if k == 112211 {
        13
    } else
    if k == 112221 {
        6
    } else
    if k == 200000 {
        93
    } else
    if k == 200001 {
        87
    } else
    if k == 200010 {
        86
    } else
    if k == 200011 {
        72
    } else
    if k == 200020 {
        75
    } else
    if k == 200021 {
        58
    } else
    if k == 200100 {
        86
    } else
    if k == 200101 {
        74
    } else
    if k == 200110 {
        74
    } else
    if k == 200111 {
        61
    } else
    if k == 200120 {
        56
    } else
    if k == 200121 {
        34
    } else
    if k == 200200 {
        70
    } else
    if k == 200201 {
        54
    } else
    if k == 200210 {
        52
    } else
    if k == 200211 {
        40
    } else
    if k == 200220 {
        40
    } else
    if k == 200221 {
        22
    } else
    if k == 201000 {
        85
    } else
    if k == 201001 {
        75
    } else
    if k == 201010 {
        74
    } else
    if k == 201011 {
        55
    } else
    if k == 201020 {
        62
    } else
    if k == 201021 {
        51
    } else
    if k == 201100 {
        72
    } else
    if k == 201101 {
        57
    } else
    if k == 201110 {
        55
    } else
    if k == 201111 {
        41
    } else
    if k == 201120 {
        46
    } else
    if k == 201121 {
        19
    } else
    if k == 201200 {
        53
    } else
    if k == 201201 {
        36
    } else
    if k == 201210 {
        34
    } else
    if k == 201211 {
        19
    } else
    if k == 201220 {
        19
    } else
    if k == 201221 {
        8
    } else
    if k == 202001 {
        64
    } else
    if k == 202011 {
        51
    } else
    if k == 202021 {
        20
    } else
    if k == 202101 {
        47
    } else
    if k == 202111 {
        21
    } else
    if k == 202121 {
        11
    } else
    if k == 202201 {
        24
    } else
    if k == 202211 {
        9
    } else
    if k == 202221 {
        4
    } else
    if k == 210000 {
        88
    } else
    if k == 210001 {
        75
    } else
    if k == 210010 {
        73
    } else
    if k == 210011 {
        53
    } else
    if k == 210020 {
        60
    } else
    if k == 210021 {
        50
    } else
    if k == 210100 {
        73
    } else
    if k == 210101 {
        55
    } else
    if k == 210110 {
        59
    } else
    if k == 210111 {
        40
    } else
    if k == 210120 {
        41
    } else
    if k == 210121 {
        20
    } else
    if k == 210200 {
        54
    } else
    if k == 210201 {
        43
    } else
    if k == 210210 {
        45
    } else
    if k == 210211 {
        22
    } else
    if k == 210220 {
        20
    } else
    if k == 210221 {
        11
    } else
    if k == 211000 {
        75
    } else
    if k == 211001 {
        55
    } else
    if k == 211010 {
        58
    } else
    if k == 211011 {
        45
    } else
    if k == 211020 {
        40
    } else
    if k == 211021 {
        21
    } else
    if k == 211100 {
        61
    } else
    if k == 211101 {
        51
    } else
    if k == 211110 {
        48
    } else
    if k == 211111 {
        18
    } else
    if k == 211120 {
        20
    } else
    if k == 211121 {
        9
    } else
    if k == 211200 {
        46
    } else
    if k == 211201 {
        18
    } else
    if k == 211210 {
        17
    } else
    if k == 211211 {
        7
    } else
    if k == 211220 {
        8
    } else
    if k == 211221 {
        2
    } else
    if k == 212001 {
        53
    } else
    if k == 212011 {
        24
    } else
    if k == 212021 {
        14
    } else
    if k == 212101 {
        24
    } else
    if k == 212111 {
        12
    } else
    if k == 212121 {
        5
    } else
    if k == 212201 {
        10
    } else
    if k == 212211 {
        3
    } else
    if k == 212221 {
        1
    } else {
        0
    }
}

/// The lookup table on machine words.
#[verifier::rlimit(100)]
pub fn mv_value_exec(k: u32) -> (v: u32)
    ensures
        v == mv_value(k as int),
        v <= 100,
{
    proof {
        reveal(mv_value);
    }
    if k == 0 {
        100
    } else
    if k == 1 {
        99
    } else
    if k == 10 {
        98
    } else
    if k == 11 {
        95
    } else
    if k == 20 {
        95
    } else
    if k == 21 {
        92
    } else
    if k == 100 {
        100
    } else
    if k == 101 {
        96
    } else
    if k == 110 {
        93
    } else
    if k == 111 {
        87
    } else
    if k == 120 {
        91
    } else
    if k == 121 {
        81
    } else
    if k == 200 {
        93
    } else
    if k == 201 {
        90
    } else
    if k == 210 {
        89
    } else
    if k == 211 {
        80
    } else
    if k == 220 {
        81
    } else
    if k == 221 {
        68
    } else
    if k == 1000 {
        98
    } else
    if k == 1001 {
        95
    } else
    if k == 1010 {
        95
    } else
    if k == 1011 {
        92
    } else
    if k == 1020 {
        90
    } else
    if k == 1021 {
        84
    } else
    if k == 1100 {
        93
    } else
    if k == 1101 {
        92
    } else
    if k == 1110 {
        89
    } else
    if k == 1111 {
        81
    } else
    if k == 1120 {
        81
    } else
    if k == 1121 {
        65
    } else
    if k == 1200 {
        88
    } else
    if k == 1201 {
        80
    } else
    if k == 1210 {
        78
    } else
    if k == 1211 {
        70
    } else
    if k == 1220 {
        69
    } else
    if k == 1221 {
        48
    } else
    if k == 2001 {
        92
    } else
    if k == 2011 {
        82
    } else
    if k == 2021 {
        72
    } else
    if k == 2101 {
        79
    } else
    if k == 2111 {
        69
    } else
    if k == 2121 {
        50
    } else
    if k == 2201 {
        69
    } else
    if k == 2211 {
        55
    } else
    if k == 2221 {
        27
    } else
    if k == 10000 {
        99
    } else
    if k == 10001 {
        97
    } else
    if k == 10010 {
        95
    } else
    if k == 10011 {
        92
    } else
    if k == 10020 {
        92
    } else
    if k == 10021 {
        85
    } else
    if k == 10100 {
        95
    } else
    if k == 10101 {
        91
    } else
    if k == 10110 {
        90
    } else
    if k == 10111 {
        83
    } else
    if k == 10120 {
        84
    } else
    if k == 10121 {
        71
    } else
    if k == 10200 {
        92
    } else
    if k == 10201 {
        81
    } else
    if k == 10210 {
        82
    } else
    if k == 10211 {
        71
    } else
    if k == 10220 {
        72
    } else
    if k == 10221 {
        53
    } else
    if k == 11000 {
        95
    } else
    if k == 11001 {
        93
    } else
    if k == 11010 {
        92
    } else
    if k == 11011 {
        85
    } else
    if k == 11020 {
        85
    } else
    if k == 11021 {
        73
    } else
    if k == 11100 {
        92
    } else
    if k == 11101 {
        82
    } else
    if k == 11110 {
        80
    } else
    if k == 11111 {
        72
    } else
    if k == 11120 {
        70
    } else
    if k == 11121 {
        59
    } else
    if k == 11200 {
        84
    } else
    if k == 11201 {
        70
    } else
    if k == 11210 {
        71
    } else
    if k == 11211 {
        52
    } else
    if k == 11220 {
        50
    } else
    if k == 11221 {
        30
    } else
    if k == 12001 {
        86
    } else
    if k == 12011 {
        75
    } else
    if k == 12021 {
        52
    } else
    if k == 12101 {
        71
    } else
    if k == 12111 {
        52
    } else
    if k == 12121 {
        29
    } else
    if k == 12201 {
        63
    } else
    if k == 12211 {
        29
    } else
    if k == 12221 {
        17
    } else
    if k == 100000 {
        98
    } else
    if k == 100001 {
        95
    } else
    if k == 100010 {
        94
    } else
    if k == 100011 {
        87
    } else
    if k == 100020 {
        91
    } else
    if k == 100021 {
        81
    } else
    if k == 100100 {
        94
    } else
    if k == 100101 {
        89
    } else
    if k == 100110 {
        86
    } else
    if k == 100111 {
        74
    } else
    if k == 100120 {
        77
    } else
    if k == 100121 {
        64
    } else
    if k == 100200 {
        87
    } else
    if k == 100201 {
        75
    } else
    if k == 100210 {
        74
    } else
    if k == 100211 {
        63
    } else
    if k == 100220 {
        63
    } else
    if k == 100221 {
        49
    } else
    if k == 101000 {
        94
    } else
    if k == 101001 {
        89
    } else
    if k == 101010 {
        88
    } else
    if k == 101011 {
        77
    } else
    if k == 101020 {
        76
    } else
    if k == 101021 {
        67
    } else
    if k == 101100 {
        86
    } else
    if k == 101101 {
        76
    } else
    if k == 101110 {
        74
    } else
    if k == 101111 {
        58
    } else
    if k == 101120 {
        59
    } else
    if k == 101121 {
        50
    } else
    if k == 101200 {
        72
    } else
    if k == 101201 {
        57
    } else
    if k == 101210 {
        57
    } else
    if k == 101211 {
        52
    } else
    if k == 101220 {
        52
    } else
    if k == 101221 {
        25
    } else
    if k == 102001 {
        83
    } else
    if k == 102011 {
        70
    } else
    if k == 102021 {
        54
    } else
    if k == 102101 {
        65
    } else
    if k == 102111 {
        58
    } else
    if k == 102121 {
        26
    } else
    if k == 102201 {
        53
    } else
    if k == 102211 {
        21
    } else
    if k == 102221 {
        13
    } else
    if k == 110000 {
        95
    } else
    if k == 110001 {
        90
    } else
    if k == 110010 {
        88
    } else
    if k == 110011 {
        76
    } else
    if k == 110020 {
        76
    } else
    if k == 110021 {
        70
    } else
    if k == 110100 {
        90
    } else
    if k == 110101 {
        77
    } else
    if k == 110110 {
        75
    } else
    if k == 110111 {
        62
    } else
    if k == 110120 {
        61
    } else
    if k == 110121 {
        53
    } else
    if k == 110200 {
        77
    } else
    if k == 110201 {
        66
    } else
    if k == 110210 {
        68
    } else
    if k == 110211 {
        59
    } else
    if k == 110220 {
        52
    } else
    if k == 110221 {
        30
    } else
    if k == 111000 {
        89
    } else
    if k == 111001 {
        78
    } else
    if k == 111010 {
        76
    } else
    if k == 111011 {
        67
    } else
    if k == 111020 {
        62
    } else
    if k == 111021 {
        58
    } else
    if k == 111100 {
        74
    } else
    if k == 111101 {
        59
    } else
    if k == 111110 {
        57
    } else
    if k == 111111 {
        57
    } else
    if k == 111120 {
        47
    } else
    if k == 111121 {
        23
    } else
    if k == 111200 {
        61
    } else
    if k == 111201 {
        52
    } else
    if k == 111210 {
        57
    } else
    if k == 111211 {
        29
    } else
    if k == 111220 {
        24
    } else
    if k == 111221 {
        16
    } else
    if k == 112001 {
        71
    } else
    if k == 112011 {
        59
    } else
    if k == 112021 {
        30
    } else
    if k == 112101 {
        58
    } else
    if k == 112111 {
        26
    } else
    if k == 112121 {
        15
    } else
    if k == 112201 {
        23
    } else
    if k == 112211 {
        13
    } else
    if k == 112221 {
        6
    } else
    if k == 200000 {
        93
    } else
    if k == 200001 {
        87
    } else
    if k == 200010 {
        86
    } else
    if k == 200011 {
        72
    } else
    if k == 200020 {
        75
    } else
    if k == 200021 {
        58
    } else
    if k == 200100 {
        86
    } else
    if k == 200101 {
        74
    } else
    if k == 200110 {
        74
    } else
    if k == 200111 {
        61
    } else
    if k == 200120 {
        56
    } else
    if k == 200121 {
        34
    } else
    if k == 200200 {
        70
    } else
    if k == 200201 {
        54
    } else
    if k == 200210 {
        52
    } else
    if k == 200211 {
        40
    } else
    if k == 200220 {
        40
    } else
    if k == 200221 {
        22
    } else
    if k == 201000 {
        85
    } else
    if k == 201001 {
        75
    } else
    if k == 201010 {
        74
    } else
    if k == 201011 {
        55
    } else
    if k == 201020 {
        62
    } else
    if k == 201021 {
        51
    } else
    if k == 201100 {
        72
    } else
    if k == 201101 {
        57
    } else
    if k == 201110 {
        55
    } else
    if k == 201111 {
        41
    } else
    if k == 201120 {
        46
    } else
    if k == 201121 {
        19
    } else
    if k == 201200 {
        53
    } else
    if k == 201201 {
        36
    } else
    if k == 201210 {
        34
    } else
    if k == 201211 {
        19
    } else
    if k == 201220 {
        19
    } else
    if k == 201221 {
        8
    } else
    if k == 202001 {
        64
    } else
    if k == 202011 {
        51
    } else
    if k == 202021 {
        20
    } else
    if k == 202101 {
        47
    } else
    if k == 202111 {
        21
    } else
    if k == 202121 {
        11
    } else
    if k == 202201 {
        24
    } else
    if k == 202211 {
        9
    } else
    if k == 202221 {
        4
    } else
    if k == 210000 {
        88
    } else
    if k == 210001 {
        75
    } else
    if k == 210010 {
        73
    } else
    if k == 210011 {
        53
    } else
    if k == 210020 {
        60
    } else
    if k == 210021 {
        50
    } else
    if k == 210100 {
        73
    } else
    if k == 210101 {
        55
    } else
    if k == 210110 {
        59
    } else
    if k == 210111 {
        40
    } else
    if k == 210120 {
        41
    } else
    if k == 210121 {
        20
    } else
    if k == 210200 {
        54
    } else
    if k == 210201 {
        43
    } else
    if k == 210210 {
        45
    } else
    if k == 210211 {
        22
    } else
    if k == 210220 {
        20
    } else
    if k == 210221 {
        11
    } else
    if k == 211000 {
        75
    } else
    if k == 211001 {
        55
    } else
    if k == 211010 {
        58
    } else
    if k == 211011 {
        45
    } else
    if k == 211020 {
        40
    } else
    if k == 211021 {
        21
    } else
    if k == 211100 {
        61
    } else
    if k == 211101 {
        51
    } else
    if k == 211110 {
        48
    } else
    if k == 211111 {
        18
    } else
    if k == 211120 {
        20
    } else
    if k == 211121 {
        9
    } else
    if k == 211200 {
        46
    } else
    if k == 211201 {
        18
    } else
    if k == 211210 {
        17
    } else
    if k == 211211 {
        7
    } else
    if k == 211220 {
        8
    } else
    if k == 211221 {
        2
    } else
    if k == 212001 {
        53
    } else
    if k == 212011 {
        24
    } else
    if k == 212021 {
        14
    } else
    if k == 212101 {
        24
    } else
    if k == 212111 {
        12
    } else
    if k == 212121 {
        5
    } else
    if k == 212201 {
        10
    } else
    if k == 212211 {
        3
    } else
    if k == 212221 {
        1
    } else {
        0
    }
}



/// The next lower macrovector's value for EQ1, when one exists.
pub open spec fn low1_spec(e1: int, e2: int, e3: int, e4: int, e5: int, e6: int) -> Option<int> {
    if e1 < 2 {
        Option::Some(mv_value(mv_key(e1 + 1, e2, e3, e4, e5, e6)))
    } else {
        Option::None
    }
}

/// The next lower macrovector's value for EQ2, when one exists.
pub open spec fn low2_spec(e1: int, e2: int, e3: int, e4: int, e5: int, e6: int) -> Option<int> {
    if e2 < 1 {
        Option::Some(mv_value(mv_key(e1, e2 + 1, e3, e4, e5, e6)))
    } else {
        Option::None
    }
}

/// The next lower macrovector's value for the joint EQ3/EQ6 class, when
/// one exists; from the most severe class both neighbours are in reach
/// and the higher value is taken.
pub open spec fn low36_spec(e1: int, e2: int, e3: int, e4: int, e5: int, e6: int) -> Option<int> {
    if e3 == 0 && e6 == 0 {
        let a = mv_value(mv_key(e1, e2, 1, e4, e5, 0));
        let b = mv_value(mv_key(e1, e2, 0, e4, e5, 1));
        Option::Some(
            if a >= b {
                a
            } else {
                b
            },
        )
    } else if e3 == 0 && e6 == 1 {
        Option::Some(mv_value(mv_key(e1, e2, 1, e4, e5, 1)))
    } else if e3 == 1 && e6 == 0 {
        Option::Some(mv_value(mv_key(e1, e2, 1, e4, e5, 1)))
    } else if e3 == 1 && e6 == 1 {
        Option::Some(mv_value(mv_key(e1, e2, 2, e4, e5, 1)))
    } else {
        Option::None
    }
}

/// The next lower macrovector's value for EQ4, when one exists.
pub open spec fn low4_spec(e1: int, e2: int, e3: int, e4: int, e5: int, e6: int) -> Option<int> {
    if e4 < 2 {
        Option::Some(mv_value(mv_key(e1, e2, e3, e4 + 1, e5, e6)))
    } else {
        Option::None
    }
}

/// The next lower macrovector's value for EQ5, when one exists.
pub open spec fn low5_spec(e1: int, e2: int, e3: int, e4: int, e5: int, e6: int) -> Option<int> {
    if e5 < 2 {
        Option::Some(mv_value(mv_key(e1, e2, e3, e4, e5 + 1, e6)))
    } else {
        Option::None
    }
}


/// The four severity distances of a metric set, one per adjustable
/// class: steps between the metric set and the most severe combination
/// in its own class (EQ5's single metric makes its distance 0).
#[verifier::opaque]
pub open spec fn dists_spec(m: MetricSet) -> (int, int, int, int) {
    let av = m.exploit_ability.attack_vector.level();
    let ac = m.exploit_ability.attack_complexity.level();
    let at = m.exploit_ability.attack_requirements.level();
    let pr = m.exploit_ability.privileges_required.level();
    let ui = m.exploit_ability.user_interaction.level();
    let vc = m.vulnerable_impact.confidentiality_impact.level();
    let vin = m.vulnerable_impact.integrity_impact.level();
    let va = m.vulnerable_impact.availability_impact.level();
    let sc = m.subsequent_impact.confidentiality_impact.level();
    let si = m.subsequent_impact.integrity_impact.level();
    let sa = m.subsequent_impact.availability_impact.level();
    let cr = m.confidentiality_requirement.level();
    let ir = m.integrity_requirement.level();
    let ar = m.availability_requirement.level();
    let e1 = eq1_of(m.exploit_ability);
    let e2 = eq2_of(m.exploit_ability);
    let e3 = eq3_of(m.vulnerable_impact);
    let e4 = eq4_of(m.subsequent_impact);
    let e6 = eq6_of(
        m.vulnerable_impact,
        m.confidentiality_requirement,
        m.integrity_requirement,
        m.availability_requirement,
    );
    let d1 = if e1 == 0 {
        0int
    } else if e1 == 1 {
        av + pr + ui - 1
    } else if av == 3 {
        pr + ui
    } else {
        av + pr + ui - 3
    };
    let d2 = if e2 == 0 {
        0int
    } else {
        ac + at - 1
    };
    let s6 = vc + vin + va + cr + ir + ar;
    let d36 = if e3 == 0 && e6 == 0 {
        s6
    } else if e3 == 1 && e6 == 0 {
        s6 - 1
    } else {
        s6 - 3
    };
    let d4 = if e4 == 1 {
        sc + si + sa - 3
    } else {
        sc + si + sa - 6
    };
    (d1, d2, d36, d4)
}

/// The four class depths of a metric set: the maximal severity distance
/// within its macrovector's class, in steps.
#[verifier::opaque]
pub open spec fn deps_spec(m: MetricSet) -> (int, int, int, int) {
    let e1 = eq1_of(m.exploit_ability);
    let e2 = eq2_of(m.exploit_ability);
    let e3 = eq3_of(m.vulnerable_impact);
    let e4 = eq4_of(m.subsequent_impact);
    let e6 = eq6_of(
        m.vulnerable_impact,
        m.confidentiality_requirement,
        m.integrity_requirement,
        m.availability_requirement,
    );
    let dep1 = if e1 == 0 {
        1int
    } else if e1 == 1 {
        4
    } else {
        5
    };
    let dep2 = if e2 == 0 {
        1int
    } else {
        2
    };
    let dep36 = if e3 == 0 && e6 == 0 {
        7int
    } else if e3 == 0 && e6 == 1 {
        6
    } else if e3 == 1 && e6 == 0 {
        8
    } else if e3 == 1 && e6 == 1 {
        8
    } else {
        10
    };
    let dep4 = if e4 == 0 {
        6int
    } else if e4 == 1 {
        5
    } else {
        4
    };
    (dep1, dep2, dep36, dep4)
}

/// The v4.0 score in tenths: the macrovector's table value, pulled down
/// toward the next lower macrovector of each equivalence class in
/// proportion to the metric set's severity distance within the class,
/// then clamped to [0, 10] and rounded to the nearest tenth.  A vector
/// whose six impact metrics are all `N` scores 0.
#[verifier::opaque]
pub open spec fn v4_score_tenths(m: MetricSet) -> int {
    let av = m.exploit_ability.attack_vector.level();
    let ac = m.exploit_ability.attack_complexity.level();
    let at = m.exploit_ability.attack_requirements.level();
    let pr = m.exploit_ability.privileges_required.level();
    let ui = m.exploit_ability.user_interaction.level();
    let vc = m.vulnerable_impact.confidentiality_impact.level();
    let vin = m.vulnerable_impact.integrity_impact.level();
    let va = m.vulnerable_impact.availability_impact.level();
    let sc = m.subsequent_impact.confidentiality_impact.level();
    let si = m.subsequent_impact.integrity_impact.level();
    let sa = m.subsequent_impact.availability_impact.level();
    let cr = m.confidentiality_requirement.level();
    let ir = m.integrity_requirement.level();
    let ar = m.availability_requirement.level();
    if vc == 2 && vin == 2 && va == 2 && sc == 3 && si == 3 && sa == 3 {
        0
    } else {
        let e1 = eq1_of(m.exploit_ability);
        let e2 = eq2_of(m.exploit_ability);
        let e3 = eq3_of(m.vulnerable_impact);
        let e4 = eq4_of(m.subsequent_impact);
        let e5 = eq5_of(m.exploit_maturity);
        let e6 = eq6_of(
            m.vulnerable_impact,
            m.confidentiality_requirement,
            m.integrity_requirement,
            m.availability_requirement,
        );
        let value = mv_value(mv_key(e1, e2, e3, e4, e5, e6));
        let low1 = low1_spec(e1, e2, e3, e4, e5, e6);
        let low2 = low2_spec(e1, e2, e3, e4, e5, e6);
        let low36 = low36_spec(e1, e2, e3, e4, e5, e6);
        let low4 = low4_spec(e1, e2, e3, e4, e5, e6);
        let low5 = low5_spec(e1, e2, e3, e4, e5, e6);
        let d = dists_spec(m);
        let dep = deps_spec(m);
        v4_adjust_spec(
            value,
            low1,
            low2,
            low36,
            low4,
            low5,
            d.0,
            d.1,
            d.2,
            d.3,
            dep.0,
            dep.1,
            dep.2,
            dep.3,
        )
    }
}

/// The severity-distance adjustment: the proportional pull from the
/// macrovector's value toward each existing next-lower macrovector,
/// averaged over the classes that have one, clamped and rounded.
#[verifier::opaque]
pub open spec fn v4_adjust_spec(
    value: int,
    low1: Option<int>,
    low2: Option<int>,
    low36: Option<int>,
    low4: Option<int>,
    low5: Option<int>,
    d1: int,
    d2: int,
    d36: int,
    d4: int,
    dep1: int,
    dep2: int,
    dep36: int,
    dep4: int,
) -> int {
    let n = (if low1 is Some {
        1int
    } else {
        0
    }) + (if low2 is Some {
        1int
    } else {
        0
    }) + (if low36 is Some {
        1int
    } else {
        0
    }) + (if low4 is Some {
        1int
    } else {
        0
    }) + (if low5 is Some {
        1int
    } else {
        0
    });
    if n == 0 {
        value
    } else {
        let p = (if low1 is Some {
            dep1
        } else {
            1
        }) * (if low2 is Some {
            dep2
        } else {
            1
        }) * (if low36 is Some {
            dep36
        } else {
            1
        }) * (if low4 is Some {
            dep4
        } else {
            1
        });
        let sum = (match low1 {
            Option::Some(l) => (value - l) * d1 * (p / dep1),
            Option::None => 0,
        }) + (match low2 {
            Option::Some(l) => (value - l) * d2 * (p / dep2),
            Option::None => 0,
        }) + (match low36 {
            Option::Some(l) => (value - l) * d36 * (p / dep36),
            Option::None => 0,
        }) + (match low4 {
            Option::Some(l) => (value - l) * d4 * (p / dep4),
            Option::None => 0,
        });
        let num = value * p * n - sum;
        if num <= 0 {
            0
        } else if num > 100 * p * n {
            100
        } else {
            nearest_half_up(num, p * n)
        }
    }
}

/// Bounded product of three machine words.
/// Bounded product of three machine words.
#[verifier::nonlinear]
fn mul3b(a: i64, b: i64, c: i64) -> (r: i64)
    requires
        -1000 <= a <= 1000,
        -1000 <= b <= 1000,
        -1000 <= c <= 1000,
    ensures
        r == a * b * c,
        -1000000000 <= r <= 1000000000,
{
    a * b * c
}

/// The view of an optional machine-word score as an optional integer.
pub open spec fn opt_int(o: Option<u32>) -> Option<int> {
    match o {
        Option::Some(l) => Option::Some(l as int),
        Option::None => Option::None,
    }
}

/// The severity-distance adjustment, on machine words.
#[verifier::rlimit(100)]
#[verifier::spinoff_prover]
fn v4_adjust(
    value: u32,
    low1: Option<u32>,
    low2: Option<u32>,
    low36: Option<u32>,
    low4: Option<u32>,
    low5: Option<u32>,
    d1: i64,
    d2: i64,
    d36: i64,
    d4: i64,
    dep1: i64,
    dep2: i64,
    dep36: i64,
    dep4: i64,
) -> (t: u32)
    requires
        value <= 100,
        (low1 matches Option::Some(l) ==> l <= 100),
        (low2 matches Option::Some(l) ==> l <= 100),
        (low36 matches Option::Some(l) ==> l <= 100),
        (low4 matches Option::Some(l) ==> l <= 100),
        (low5 matches Option::Some(l) ==> l <= 100),
        -20 <= d1 <= 20,
        -20 <= d2 <= 20,
        -20 <= d36 <= 20,
        -20 <= d4 <= 20,
        1 <= dep1 <= 5,
        1 <= dep2 <= 2,
        1 <= dep36 <= 10,
        1 <= dep4 <= 6,
    ensures
        t == v4_adjust_spec(
            value as int,
            opt_int(low1),
            opt_int(low2),
            opt_int(low36),
            opt_int(low4),
            opt_int(low5),
            d1 as int,
            d2 as int,
            d36 as int,
            d4 as int,
            dep1 as int,
            dep2 as int,
            dep36 as int,
            dep4 as int,
        ),
        t <= 100,
{
    proof {
        reveal(v4_adjust_spec);
    }
    let n: i64 = (if low1.is_some() {
        1
    } else {
        0
    }) + (if low2.is_some() {
        1
    } else {
        0
    }) + (if low36.is_some() {
        1
    } else {
        0
    }) + (if low4.is_some() {
        1
    } else {
        0
    }) + (if low5.is_some() {
        1
    } else {
        0
    });
    if n == 0 {
        return value;
    }
    let f1: i64 = if low1.is_some() {
        dep1
    } else {
        1
    };
    let f2: i64 = if low2.is_some() {
        dep2
    } else {
        1
    };
    let f3: i64 = if low36.is_some() {
        dep36
    } else {
        1
    };
    let f4: i64 = if low4.is_some() {
        dep4
    } else {
        1
    };
    proof {
        assert(1 <= f1 * f2 <= 10) by (nonlinear_arith)
            requires
                1 <= f1 <= 5,
                1 <= f2 <= 2,
        ;
    }
    let p12 = f1 * f2;
    proof {
        assert(1 <= p12 * f3 <= 100) by (nonlinear_arith)
            requires
                1 <= p12 <= 10,
                1 <= f3 <= 10,
        ;
    }
    let p123 = p12 * f3;
    proof {
        assert(1 <= p123 * f4 <= 600) by (nonlinear_arith)
            requires
                1 <= p123 <= 100,
                1 <= f4 <= 6,
        ;
    }
    let p = p123 * f4;
    let t1 = match low1 {
        Option::Some(l) => mul3b(value as i64 - l as i64, d1, p / dep1),
        Option::None => 0,
    };
    let t2 = match low2 {
        Option::Some(l) => mul3b(value as i64 - l as i64, d2, p / dep2),
        Option::None => 0,
    };
    let t3 = match low36 {
        Option::Some(l) => mul3b(value as i64 - l as i64, d36, p / dep36),
        Option::None => 0,
    };
    let t4 = match low4 {
        Option::Some(l) => mul3b(value as i64 - l as i64, d4, p / dep4),
        Option::None => 0,
    };
    let sum = t1 + t2 + t3 + t4;
    let a = mul3b(value as i64, p, n);
    let num = a - sum;
    proof {
        assert(1 <= p * n <= 3000) by (nonlinear_arith)
            requires
                1 <= p <= 600,
                1 <= n <= 5,
        ;
    }
    let pn = p * n;
    proof {
        let lo1 = opt_int(low1);
        let lo2 = opt_int(low2);
        let lo36 = opt_int(low36);
        let lo4 = opt_int(low4);
        let lo5 = opt_int(low5);
        let n_s = (if lo1 is Some { 1int } else { 0 }) + (if lo2 is Some { 1int } else { 0 })
            + (if lo36 is Some { 1int } else { 0 }) + (if lo4 is Some { 1int } else { 0 })
            + (if lo5 is Some { 1int } else { 0 });
        assert(n == n_s);
        let p_s = (if lo1 is Some { dep1 as int } else { 1 }) * (if lo2 is Some { dep2 as int } else { 1 })
            * (if lo36 is Some { dep36 as int } else { 1 }) * (if lo4 is Some { dep4 as int } else { 1 });
        assert(p == p_s);
        let sum_s = (match lo1 {
            Option::Some(l) => ((value as int) - l) * (d1 as int) * (p_s / (dep1 as int)),
            Option::None => 0int,
        }) + (match lo2 {
            Option::Some(l) => ((value as int) - l) * (d2 as int) * (p_s / (dep2 as int)),
            Option::None => 0int,
        }) + (match lo36 {
            Option::Some(l) => ((value as int) - l) * (d36 as int) * (p_s / (dep36 as int)),
            Option::None => 0int,
        }) + (match lo4 {
            Option::Some(l) => ((value as int) - l) * (d4 as int) * (p_s / (dep4 as int)),
            Option::None => 0int,
        });
        assert(sum == sum_s);
        assert(num == (value as int) * p_s * n_s - sum_s);
        assert(100 * (pn as int) == 100 * p_s * n_s) by (nonlinear_arith)
            requires
                pn == p * n,
                p == p_s,
                n == n_s,
        ;
        assert(pn == p_s * n_s);
    }
    if num <= 0 {
        0
    } else if num > 100 * pn {
        100
    } else {
        proof {
            crate::score::lemma_nearest_le(num as int, pn as int, 100);
        }
        let t = (2 * num + pn) / (2 * pn);
        t as u32
    }
}


/// The macrovector's value and its five next-lower values.
#[verifier::rlimit(100)]
fn v4_lows(e1: u32, e2: u32, e3: u32, e4: u32, e5: u32, e6: u32) -> (r: (
    u32,
    Option<u32>,
    Option<u32>,
    Option<u32>,
    Option<u32>,
    Option<u32>,
))
    requires
        e1 <= 2,
        e2 <= 1,
        e3 <= 2,
        e4 <= 2,
        e5 <= 2,
        e6 <= 1,
    ensures
        r.0 == mv_value(mv_key(e1 as int, e2 as int, e3 as int, e4 as int, e5 as int, e6 as int)),
        r.0 <= 100,
        opt_int(r.1) == low1_spec(e1 as int, e2 as int, e3 as int, e4 as int, e5 as int, e6 as int),
        opt_int(r.2) == low2_spec(e1 as int, e2 as int, e3 as int, e4 as int, e5 as int, e6 as int),
        opt_int(r.3) == low36_spec(
            e1 as int,
            e2 as int,
            e3 as int,
            e4 as int,
            e5 as int,
            e6 as int,
        ),
        opt_int(r.4) == low4_spec(e1 as int, e2 as int, e3 as int, e4 as int, e5 as int, e6 as int),
        opt_int(r.5) == low5_spec(e1 as int, e2 as int, e3 as int, e4 as int, e5 as int, e6 as int),
        (r.1 matches Option::Some(l) ==> l <= 100),
        (r.2 matches Option::Some(l) ==> l <= 100),
        (r.3 matches Option::Some(l) ==> l <= 100),
        (r.4 matches Option::Some(l) ==> l <= 100),
        (r.5 matches Option::Some(l) ==> l <= 100),
{
    let k = e1 * 100000 + e2 * 10000 + e3 * 1000 + e4 * 100 + e5 * 10 + e6;
    let value = mv_value_exec(k);
    let low1: Option<u32> = if e1 < 2 {
        Option::Some(mv_value_exec(k + 100000))
    } else {
        Option::None
    };
    let low2: Option<u32> = if e2 < 1 {
        Option::Some(mv_value_exec(k + 10000))
    } else {
        Option::None
    };
    let base36 = k - e3 * 1000 - e6;
    let low36: Option<u32> = if e3 == 0 && e6 == 0 {
        let a = mv_value_exec(base36 + 1000);
        let b = mv_value_exec(base36 + 1);
        Option::Some(
            if a >= b {
                a
            } else {
                b
            },
        )
    } else if e3 == 0 && e6 == 1 {
        Option::Some(mv_value_exec(base36 + 1000 + 1))
    } else if e3 == 1 && e6 == 0 {
        Option::Some(mv_value_exec(base36 + 1000 + 1))
    } else if e3 == 1 && e6 == 1 {
        Option::Some(mv_value_exec(base36 + 2000 + 1))
    } else {
        Option::None
    };
    let low4: Option<u32> = if e4 < 2 {
        Option::Some(mv_value_exec(k + 100))
    } else {
        Option::None
    };
    let low5: Option<u32> = if e5 < 2 {
        Option::Some(mv_value_exec(k + 10))
    } else {
        Option::None
    };
    (value, low1, low2, low36, low4, low5)
}


/// The four severity distances, on machine words.
#[verifier::rlimit(100)]
fn v4_dists(m: &MetricSet) -> (r: (i64, i64, i64, i64))
    ensures
        (r.0 as int, r.1 as int, r.2 as int, r.3 as int) == dists_spec(*m),
        -20 <= r.0 <= 20,
        -20 <= r.1 <= 20,
        -20 <= r.2 <= 20,
        -20 <= r.3 <= 20,
{
    proof {
        reveal(dists_spec);
    }
    let av = m.exploit_ability.attack_vector.severity_level();
    let ac = m.exploit_ability.attack_complexity.severity_level();
    let at = m.exploit_ability.attack_requirements.severity_level();
    let pr = m.exploit_ability.privileges_required.severity_level();
    let ui = m.exploit_ability.user_interaction.severity_level();
    let vc = m.vulnerable_impact.confidentiality_impact.severity_level();
    let vin = m.vulnerable_impact.integrity_impact.severity_level();
    let va = m.vulnerable_impact.availability_impact.severity_level();
    let sc = m.subsequent_impact.confidentiality_impact.severity_level();
    let si = m.subsequent_impact.integrity_impact.severity_level();
    let sa = m.subsequent_impact.availability_impact.severity_level();
    let cr = m.confidentiality_requirement.severity_level();
    let ir = m.integrity_requirement.severity_level();
    let ar = m.availability_requirement.severity_level();
    let e1: u32 = if av == 0 && pr == 0 && ui == 0 {
        0
    } else if av != 3 && (av == 0 || pr == 0 || ui == 0) {
        1
    } else {
        2
    };
    let e2: u32 = if ac == 0 && at == 0 {
        0
    } else {
        1
    };
    let e3: u32 = if vc == 0 && vin == 0 {
        0
    } else if vc == 0 || vin == 0 || va == 0 {
        1
    } else {
        2
    };
    let e4: u32 = if sc == 1 || si == 1 || sa == 1 {
        1
    } else {
        2
    };
    let e6: u32 = if (cr == 0 && vc == 0) || (ir == 0 && vin == 0) || (ar == 0 && va == 0) {
        0
    } else {
        1
    };
    let d1: i64 = if e1 == 0 {
        0
    } else if e1 == 1 {
        av as i64 + pr as i64 + ui as i64 - 1
    } else if av == 3 {
        pr as i64 + ui as i64
    } else {
        av as i64 + pr as i64 + ui as i64 - 3
    };
    let d2: i64 = if e2 == 0 {
        0
    } else {
        ac as i64 + at as i64 - 1
    };
    let s6: i64 = vc as i64 + vin as i64 + va as i64 + cr as i64 + ir as i64 + ar as i64;
    let d36: i64 = if e3 == 0 && e6 == 0 {
        s6
    } else if e3 == 1 && e6 == 0 {
        s6 - 1
    } else {
        s6 - 3
    };
    let d4: i64 = if e4 == 1 {
        sc as i64 + si as i64 + sa as i64 - 3
    } else {
        sc as i64 + si as i64 + sa as i64 - 6
    };
    (d1, d2, d36, d4)
}

/// The four class depths, on machine words.
#[verifier::rlimit(100)]
fn v4_deps(m: &MetricSet) -> (r: (i64, i64, i64, i64))
    ensures
        (r.0 as int, r.1 as int, r.2 as int, r.3 as int) == deps_spec(*m),
        1 <= r.0 <= 5,
        1 <= r.1 <= 2,
        1 <= r.2 <= 10,
        1 <= r.3 <= 6,
{
    proof {
        reveal(deps_spec);
    }
    let av = m.exploit_ability.attack_vector.severity_level();
    let ac = m.exploit_ability.attack_complexity.severity_level();
    let at = m.exploit_ability.attack_requirements.severity_level();
    let pr = m.exploit_ability.privileges_required.severity_level();
    let ui = m.exploit_ability.user_interaction.severity_level();
    let vc = m.vulnerable_impact.confidentiality_impact.severity_level();
    let vin = m.vulnerable_impact.integrity_impact.severity_level();
    let va = m.vulnerable_impact.availability_impact.severity_level();
    let sc = m.subsequent_impact.confidentiality_impact.severity_level();
    let si = m.subsequent_impact.integrity_impact.severity_level();
    let sa = m.subsequent_impact.availability_impact.severity_level();
    let cr = m.confidentiality_requirement.severity_level();
    let ir = m.integrity_requirement.severity_level();
    let ar = m.availability_requirement.severity_level();
    let e1: u32 = if av == 0 && pr == 0 && ui == 0 {
        0
    } else if av != 3 && (av == 0 || pr == 0 || ui == 0) {
        1
    } else {
        2
    };
    let e2: u32 = if ac == 0 && at == 0 {
        0
    } else {
        1
    };
    let e3: u32 = if vc == 0 && vin == 0 {
        0
    } else if vc == 0 || vin == 0 || va == 0 {
        1
    } else {
        2
    };
    let e4: u32 = if sc == 1 || si == 1 || sa == 1 {
        1
    } else {
        2
    };
    let e6: u32 = if (cr == 0 && vc == 0) || (ir == 0 && vin == 0) || (ar == 0 && va == 0) {
        0
    } else {
        1
    };
    let dep1: i64 = if e1 == 0 {
        1
    } else if e1 == 1 {
        4
    } else {
        5
    };
    let dep2: i64 = if e2 == 0 {
        1
    } else {
        2
    };
    let dep36: i64 = if e3 == 0 && e6 == 0 {
        7
    } else if e3 == 0 && e6 == 1 {
        6
    } else if e3 == 1 && e6 == 0 {
        8
    } else if e3 == 1 && e6 == 1 {
        8
    } else {
        10
    };
    let dep4: i64 = if e4 == 0 {
        6
    } else if e4 == 1 {
        5
    } else {
        4
    };
    (dep1, dep2, dep36, dep4)
}

/// The v4.0 score in tenths, computed exactly.
#[verifier::rlimit(100)]
#[verifier::spinoff_prover]
pub fn v4_score(m: &MetricSet) -> (t: u32)
    ensures
        t == v4_score_tenths(*m),
        t <= 100,
{
    let av = m.exploit_ability.attack_vector.severity_level();
    let ac = m.exploit_ability.attack_complexity.severity_level();
    let at = m.exploit_ability.attack_requirements.severity_level();
    let pr = m.exploit_ability.privileges_required.severity_level();
    let ui = m.exploit_ability.user_interaction.severity_level();
    let vc = m.vulnerable_impact.confidentiality_impact.severity_level();
    let vin = m.vulnerable_impact.integrity_impact.severity_level();
    let va = m.vulnerable_impact.availability_impact.severity_level();
    let sc = m.subsequent_impact.confidentiality_impact.severity_level();
    let si = m.subsequent_impact.integrity_impact.severity_level();
    let sa = m.subsequent_impact.availability_impact.severity_level();
    let cr = m.confidentiality_requirement.severity_level();
    let ir = m.integrity_requirement.severity_level();
    let ar = m.availability_requirement.severity_level();
    if vc == 2 && vin == 2 && va == 2 && sc == 3 && si == 3 && sa == 3 {
        proof {
            reveal(v4_score_tenths);
        }
        return 0;
    }
    let e1: u32 = if av == 0 && pr == 0 && ui == 0 {
        0
    } else if av != 3 && (av == 0 || pr == 0 || ui == 0) {
        1
    } else {
        2
    };
    let e2: u32 = if ac == 0 && at == 0 {
        0
    } else {
        1
    };
    let e3: u32 = if vc == 0 && vin == 0 {
        0
    } else if vc == 0 || vin == 0 || va == 0 {
        1
    } else {
        2
    };
    let e4: u32 = if sc == 1 || si == 1 || sa == 1 {
        1
    } else {
        2
    };
    let e5: u32 = m.exploit_maturity.severity_level();
    let e6: u32 = if (cr == 0 && vc == 0) || (ir == 0 && vin == 0) || (ar == 0 && va == 0) {
        0
    } else {
        1
    };
    proof {
        assert(e1 == eq1_of(m.exploit_ability));
        assert(e2 == eq2_of(m.exploit_ability));
        assert(e3 == eq3_of(m.vulnerable_impact));
        assert(e4 == eq4_of(m.subsequent_impact));
        assert(e5 == eq5_of(m.exploit_maturity));
        assert(e6 == eq6_of(
            m.vulnerable_impact,
            m.confidentiality_requirement,
            m.integrity_requirement,
            m.availability_requirement,
        ));
    }
    let (value, low1, low2, low36, low4, low5) = v4_lows(e1, e2, e3, e4, e5, e6);
    let (d1, d2, d36, d4) = v4_dists(m);
    let (dep1, dep2, dep36, dep4) = v4_deps(m);
    let t = v4_adjust(value, low1, low2, low36, low4, low5, d1, d2, d36, d4, dep1, dep2, dep36, dep4);
    proof {
        reveal(v4_score_tenths);
    }
    t
}

/// The optional threat and environmental fields E, CR, IR, AR of a
/// v4.0 vector, each of which may be absent, followed by the
/// end-of-vector check; the earlier base fields' letters are handed
/// through.
pub open spec fn v4_parse_opt(
    st: Option<Seq<char>>,
    c_av: char,
    c_ac: char,
    c_at: char,
    c_pr: char,
    c_ui: char,
    c_vc: char,
    c_vi: char,
    c_va: char,
    c_sc: char,
    c_si: char,
    c_sa: char,
) -> Result<MetricSet, CVSSErrorSeq> {
    match parse_opt_field(st, seq!['E'], ExploitMaturityType::letters(), seq!['X', ',', 'A', ',', 'P', ',', 'U']) {
        Result::Err(e) => Result::Err(e),
        Result::Ok((c_e, st)) => match parse_opt_field(st, seq!['C', 'R'], RequirementType::letters(), seq!['X', ',', 'H', ',', 'M', ',', 'L']) {
        Result::Err(e) => Result::Err(e),
        Result::Ok((c_cr, st)) => match parse_opt_field(st, seq!['I', 'R'], RequirementType::letters(), seq!['X', ',', 'H', ',', 'M', ',', 'L']) {
        Result::Err(e) => Result::Err(e),
        Result::Ok((c_ir, st)) => match parse_opt_field(st, seq!['A', 'R'], RequirementType::letters(), seq!['X', ',', 'H', ',', 'M', ',', 'L']) {
        Result::Err(e) => Result::Err(e),
        Result::Ok((c_ar, st)) => match st {
        Option::None => Result::Ok(
            (MetricSet {
                exploit_ability: ExploitAbility {
                    attack_vector: AttackVectorType::from_code(c_av),
                    attack_complexity: AttackComplexityType::from_code(c_ac),
                    attack_requirements: AttackRequirementsType::from_code(c_at),
                    privileges_required: PrivilegesRequiredType::from_code(c_pr),
                    user_interaction: UserInteractionType::from_code(c_ui),
                },
                vulnerable_impact: VulnerableImpact {
                    confidentiality_impact: ConfidentialityImpactType::from_code(c_vc),
                    integrity_impact: IntegrityImpactType::from_code(c_vi),
                    availability_impact: AvailabilityImpactType::from_code(c_va),
                },
                subsequent_impact: SubsequentImpact {
                    confidentiality_impact: SubsequentConfidentialityImpactType::from_code(c_sc),
                    integrity_impact: SubsequentIntegrityImpactType::from_code(c_si),
                    availability_impact: SubsequentAvailabilityImpactType::from_code(c_sa),
                },
                exploit_maturity: match c_e {
                    Option::Some(c) => ExploitMaturityType::from_code(c),
                    Option::None => ExploitMaturityType::NotDefined,
                },
                confidentiality_requirement: match c_cr {
                    Option::Some(c) => RequirementType::from_code(c),
                    Option::None => RequirementType::NotDefined,
                },
                integrity_requirement: match c_ir {
                    Option::Some(c) => RequirementType::from_code(c),
                    Option::None => RequirementType::NotDefined,
                },
                availability_requirement: match c_ar {
                    Option::Some(c) => RequirementType::from_code(c),
                    Option::None => RequirementType::NotDefined,
                },
            }),
        ),
        Option::Some(s) => Result::Err(
            CVSSErrorSeq::InvalidCVSS {
                key: token_key(tok(s)),
                value: tok(s),
                expected: seq!['E', ',', 'C', 'R', ',', 'I', 'R', ',', 'A', 'R'],
            },
        ),
    },
    },
    },
    },
    }
}

/// The subsequent-system impact fields SC, SI, SA of a v4.0 vector,
/// then the optional fields.
pub open spec fn v4_parse_sub(
    st: Option<Seq<char>>,
    c_av: char,
    c_ac: char,
    c_at: char,
    c_pr: char,
    c_ui: char,
    c_vc: char,
    c_vi: char,
    c_va: char,
) -> Result<MetricSet, CVSSErrorSeq> {
    match parse_field(st, seq!['S', 'C'], SubsequentConfidentialityImpactType::letters(), seq!['H', ',', 'L', ',', 'N']) {
        Result::Err(e) => Result::Err(e),
        Result::Ok((c_sc, st)) => match parse_field(st, seq!['S', 'I'], SubsequentIntegrityImpactType::letters(), seq!['H', ',', 'L', ',', 'N']) {
        Result::Err(e) => Result::Err(e),
        Result::Ok((c_si, st)) => match parse_field(st, seq!['S', 'A'], SubsequentAvailabilityImpactType::letters(), seq!['H', ',', 'L', ',', 'N']) {
        Result::Err(e) => Result::Err(e),
        Result::Ok((c_sa, st)) => v4_parse_opt(st, c_av, c_ac, c_at, c_pr, c_ui, c_vc, c_vi, c_va, c_sc, c_si, c_sa),
    },
    },
    }
}

/// The vulnerable-system impact fields VC, VI, VA of a v4.0 vector,
/// then the rest.
pub open spec fn v4_parse_vuln(
    st: Option<Seq<char>>,
    c_av: char,
    c_ac: char,
    c_at: char,
    c_pr: char,
    c_ui: char,
) -> Result<MetricSet, CVSSErrorSeq> {
    match parse_field(st, seq!['V', 'C'], ConfidentialityImpactType::letters(), seq!['H', ',', 'L', ',', 'N']) {
        Result::Err(e) => Result::Err(e),
        Result::Ok((c_vc, st)) => match parse_field(st, seq!['V', 'I'], IntegrityImpactType::letters(), seq!['H', ',', 'L', ',', 'N']) {
        Result::Err(e) => Result::Err(e),
        Result::Ok((c_vi, st)) => match parse_field(st, seq!['V', 'A'], AvailabilityImpactType::letters(), seq!['H', ',', 'L', ',', 'N']) {
        Result::Err(e) => Result::Err(e),
        Result::Ok((c_va, st)) => v4_parse_sub(st, c_av, c_ac, c_at, c_pr, c_ui, c_vc, c_vi, c_va),
    },
    },
    }
}

/// The metric fields of a v4.0 vector: the eleven base fields in their
/// one required order, then the optional threat and environmental
/// fields E, CR, IR, AR, each of which may be absent; anything left
/// after them is an unrecognized field and an error.
pub open spec fn v4_parse_fields(st: Option<Seq<char>>) -> Result<MetricSet, CVSSErrorSeq> {
    match parse_field(st, seq!['A', 'V'], AttackVectorType::letters(), seq!['N', ',', 'A', ',', 'L', ',', 'P']) {
        Result::Err(e) => Result::Err(e),
        Result::Ok((c_av, st)) => match parse_field(st, seq!['A', 'C'], AttackComplexityType::letters(), seq!['L', ',', 'H']) {
        Result::Err(e) => Result::Err(e),
        Result::Ok((c_ac, st)) => match parse_field(st, seq!['A', 'T'], AttackRequirementsType::letters(), seq!['N', ',', 'P']) {
        Result::Err(e) => Result::Err(e),
        Result::Ok((c_at, st)) => match parse_field(st, seq!['P', 'R'], PrivilegesRequiredType::letters(), seq!['N', ',', 'L', ',', 'H']) {
        Result::Err(e) => Result::Err(e),
        Result::Ok((c_pr, st)) => match parse_field(st, seq!['U', 'I'], UserInteractionType::letters(), seq!['N', ',', 'P', ',', 'A']) {
        Result::Err(e) => Result::Err(e),
        Result::Ok((c_ui, st)) => v4_parse_vuln(st, c_av, c_ac, c_at, c_pr, c_ui),
    },
    },
    },
    },
    }
}

/// What parsing a whole v4.0 vector string yields.  The version prefix
/// must name 4.0.
pub open spec fn v4_from_str_spec(s: Seq<char>) -> Result<MetricSet, CVSSErrorSeq> {
    let u = upper_seq(s);
    if find(u, '/') < 0 {
        Result::Err(CVSSErrorSeq::InvalidPrefix { value: s })
    } else {
        let ver = version_from_seq(tok(u));
        if ver != Version::V4_0 {
            Result::Err(
                CVSSErrorSeq::InvalidCVSSVersion {
                    value: version_name_seq(ver),
                    expected: seq!['4', '.', '0'],
                },
            )
        } else {
            v4_parse_fields(rest(u))
        }
    }
}

/// A parsed and scored v4.0 vector.
///
/// Constructed only by [`CVSS::from_str`]: the score is computed
/// atomically as part of construction and the value is immutable from
/// then on.  `base_score` is in tenths of a point.
#[derive(Debug, Clone)]
pub struct CVSS {
    pub version: Version,
    /// The input, echoed verbatim.
    pub vector_string: String,
    pub exploit_ability: ExploitAbility,
    pub vulnerable_impact: VulnerableImpact,
    pub subsequent_impact: SubsequentImpact,
    pub exploit_maturity: ExploitMaturityType,
    pub confidentiality_requirement: RequirementType,
    pub integrity_requirement: RequirementType,
    pub availability_requirement: RequirementType,
    /// The base score, in tenths: `93` is a score of 9.3.
    pub base_score: u32,
    pub base_severity: SeverityType,
}

/// The metric set a parsed vector carries.
pub open spec fn metric_set_of(c: CVSS) -> MetricSet {
    MetricSet {
        exploit_ability: c.exploit_ability,
        vulnerable_impact: c.vulnerable_impact,
        subsequent_impact: c.subsequent_impact,
        exploit_maturity: c.exploit_maturity,
        confidentiality_requirement: c.confidentiality_requirement,
        integrity_requirement: c.integrity_requirement,
        availability_requirement: c.availability_requirement,
    }
}

/// The error for a leftover token that follows the optional fields.
fn mk_trailing_err(norm: &Vec<char>, p: usize) -> (e: CVSSError)
    requires
        p <= norm@.len(),
    ensures
        e@ == (CVSSErrorSeq::InvalidCVSS {
            key: token_key(tok(norm@.skip(p as int))),
            value: tok(norm@.skip(p as int)),
            expected: seq!['E', ',', 'C', 'R', ',', 'I', 'R', ',', 'A', 'R'],
        }),
{
    let ghost s = norm@.skip(p as int);
    let n = norm.len();
    let end = match find_from(norm, p, '/') {
        Option::Some(j) => j,
        Option::None => n,
    };
    proof {
        assert(tok(s) =~= norm@.subrange(p as int, end as int));
    }
    let kend = match find_from(norm, p, ':') {
        Option::Some(j) => if j < end {
            j
        } else {
            end
        },
        Option::None => end,
    };
    proof {
        let sp = norm@.skip(p as int);
        crate::text::lemma_find(sp, ':');
        assert forall|k: int| p <= k < kend implies #[trigger] norm@[k] != ':' by {
            assert(sp[k - p] == norm@[k]);
        }
        if kend < end {
            assert(sp[kend - p] == ':');
        }
        crate::vector::lemma_find_colon_in_token2(norm@, p as int, end as int, kend as int);
    }
    let key = string_of_chars(slice_subrange(norm.as_slice(), p, kend));
    let value = string_of_chars(slice_subrange(norm.as_slice(), p, end));
    let expected = "E,CR,IR,AR";
    proof {
        reveal_strlit("E,CR,IR,AR");
        assert(expected@ =~= seq!['E', ',', 'C', 'R', ',', 'I', 'R', ',', 'A', 'R']);
    }
    CVSSError::InvalidCVSS { key, value, expected: expected.to_owned() }
}

/// Executable form of [`v4_parse_fields`] over the upper-cased
/// characters `norm` of the vector string.
#[verifier::rlimit(100)]
#[verifier::spinoff_prover]
fn parse_fields_exec(norm: &Vec<char>, st: Option<usize>) -> (r: Result<MetricSet, CVSSError>)
    requires
        state_ok(norm@, st),
    ensures
        (match r {
            Result::Ok(m) => v4_parse_fields(state_view(norm@, st)) == Result::<
                MetricSet,
                CVSSErrorSeq,
            >::Ok(m),
            Result::Err(e) => v4_parse_fields(state_view(norm@, st)) == Result::<
                MetricSet,
                CVSSErrorSeq,
            >::Err(e@),
        }),
{
        proof {
            reveal_strlit("AV");
            reveal_strlit("NALP");
            reveal_strlit("N,A,L,P");
            assert("AV"@ =~= seq!['A', 'V']);
            assert("NALP"@ =~= AttackVectorType::letters());
            assert("N,A,L,P"@ =~= seq!['N', ',', 'A', ',', 'L', ',', 'P']);
        }
        let (c_av, st) = match parse_field_exec(&norm, st, "AV", "NALP", "N,A,L,P") {
            Result::Ok(x) => x,
            Result::Err(e) => {
                return Result::Err(e);
            },
        };
        proof {
            reveal_strlit("AC");
            reveal_strlit("LH");
            reveal_strlit("L,H");
            assert("AC"@ =~= seq!['A', 'C']);
            assert("LH"@ =~= AttackComplexityType::letters());
            assert("L,H"@ =~= seq!['L', ',', 'H']);
        }
        let (c_ac, st) = match parse_field_exec(&norm, st, "AC", "LH", "L,H") {
            Result::Ok(x) => x,
            Result::Err(e) => {
                return Result::Err(e);
            },
        };
        proof {
            reveal_strlit("AT");
            reveal_strlit("NP");
            reveal_strlit("N,P");
            assert("AT"@ =~= seq!['A', 'T']);
            assert("NP"@ =~= AttackRequirementsType::letters());
            assert("N,P"@ =~= seq!['N', ',', 'P']);
        }
        let (c_at, st) = match parse_field_exec(&norm, st, "AT", "NP", "N,P") {
            Result::Ok(x) => x,
            Result::Err(e) => {
                return Result::Err(e);
            },
        };
        proof {
            reveal_strlit("PR");
            reveal_strlit("NLH");
            reveal_strlit("N,L,H");
            assert("PR"@ =~= seq!['P', 'R']);
            assert("NLH"@ =~= PrivilegesRequiredType::letters());
            assert("N,L,H"@ =~= seq!['N', ',', 'L', ',', 'H']);
        }
        let (c_pr, st) = match parse_field_exec(&norm, st, "PR", "NLH", "N,L,H") {
            Result::Ok(x) => x,
            Result::Err(e) => {
                return Result::Err(e);
            },
        };
        proof {
            reveal_strlit("UI");
            reveal_strlit("NPA");
            reveal_strlit("N,P,A");
            assert("UI"@ =~= seq!['U', 'I']);
            assert("NPA"@ =~= UserInteractionType::letters());
            assert("N,P,A"@ =~= seq!['N', ',', 'P', ',', 'A']);
        }
        let (c_ui, st) = match parse_field_exec(&norm, st, "UI", "NPA", "N,P,A") {
            Result::Ok(x) => x,
            Result::Err(e) => {
                return Result::Err(e);
            },
        };
        proof {
            reveal_strlit("VC");
            reveal_strlit("HLN");
            reveal_strlit("H,L,N");
            assert("VC"@ =~= seq!['V', 'C']);
            assert("HLN"@ =~= ConfidentialityImpactType::letters());
            assert("H,L,N"@ =~= seq!['H', ',', 'L', ',', 'N']);
        }
        let (c_vc, st) = match parse_field_exec(&norm, st, "VC", "HLN", "H,L,N") {
            Result::Ok(x) => x,
            Result::Err(e) => {
                return Result::Err(e);
            },
        };
        proof {
            reveal_strlit("VI");
            reveal_strlit("HLN");
            reveal_strlit("H,L,N");
            assert("VI"@ =~= seq!['V', 'I']);
            assert("HLN"@ =~= IntegrityImpactType::letters());
            assert("H,L,N"@ =~= seq!['H', ',', 'L', ',', 'N']);
        }
        let (c_vi, st) = match parse_field_exec(&norm, st, "VI", "HLN", "H,L,N") {
            Result::Ok(x) => x,
            Result::Err(e) => {
                return Result::Err(e);
            },
        };
        proof {
            reveal_strlit("VA");
            reveal_strlit("HLN");
            reveal_strlit("H,L,N");
            assert("VA"@ =~= seq!['V', 'A']);
            assert("HLN"@ =~= AvailabilityImpactType::letters());
            assert("H,L,N"@ =~= seq!['H', ',', 'L', ',', 'N']);
        }
        let (c_va, st) = match parse_field_exec(&norm, st, "VA", "HLN", "H,L,N") {
            Result::Ok(x) => x,
            Result::Err(e) => {
                return Result::Err(e);
            },
        };
        proof {
            reveal_strlit("SC");
            reveal_strlit("HLN");
            reveal_strlit("H,L,N");
            assert("SC"@ =~= seq!['S', 'C']);
            assert("HLN"@ =~= SubsequentConfidentialityImpactType::letters());
            assert("H,L,N"@ =~= seq!['H', ',', 'L', ',', 'N']);
        }
        let (c_sc, st) = match parse_field_exec(&norm, st, "SC", "HLN", "H,L,N") {
            Result::Ok(x) => x,
            Result::Err(e) => {
                return Result::Err(e);
            },
        };
        proof {
            reveal_strlit("SI");
            reveal_strlit("HLN");
            reveal_strlit("H,L,N");
            assert("SI"@ =~= seq!['S', 'I']);
            assert("HLN"@ =~= SubsequentIntegrityImpactType::letters());
            assert("H,L,N"@ =~= seq!['H', ',', 'L', ',', 'N']);
        }
        let (c_si, st) = match parse_field_exec(&norm, st, "SI", "HLN", "H,L,N") {
            Result::Ok(x) => x,
            Result::Err(e) => {
                return Result::Err(e);
            },
        };
        proof {
            reveal_strlit("SA");
            reveal_strlit("HLN");
            reveal_strlit("H,L,N");
            assert("SA"@ =~= seq!['S', 'A']);
            assert("HLN"@ =~= SubsequentAvailabilityImpactType::letters());
            assert("H,L,N"@ =~= seq!['H', ',', 'L', ',', 'N']);
        }
        let (c_sa, st) = match parse_field_exec(&norm, st, "SA", "HLN", "H,L,N") {
            Result::Ok(x) => x,
            Result::Err(e) => {
                return Result::Err(e);
            },
        };
        proof {
            reveal_strlit("E");
            reveal_strlit("XAPU");
            reveal_strlit("X,A,P,U");
            assert("E"@ =~= seq!['E']);
            assert("XAPU"@ =~= ExploitMaturityType::letters());
            assert("X,A,P,U"@ =~= seq!['X', ',', 'A', ',', 'P', ',', 'U']);
        }
        let (c_e, st) = match parse_opt_field_exec(&norm, st, "E", "XAPU", "X,A,P,U") {
            Result::Ok(x) => x,
            Result::Err(e) => {
                return Result::Err(e);
            },
        };
        proof {
            reveal_strlit("CR");
            reveal_strlit("XHML");
            reveal_strlit("X,H,M,L");
            assert("CR"@ =~= seq!['C', 'R']);
            assert("XHML"@ =~= RequirementType::letters());
            assert("X,H,M,L"@ =~= seq!['X', ',', 'H', ',', 'M', ',', 'L']);
        }
        let (c_cr, st) = match parse_opt_field_exec(&norm, st, "CR", "XHML", "X,H,M,L") {
            Result::Ok(x) => x,
            Result::Err(e) => {
                return Result::Err(e);
            },
        };
        proof {
            reveal_strlit("IR");
            reveal_strlit("XHML");
            reveal_strlit("X,H,M,L");
            assert("IR"@ =~= seq!['I', 'R']);
            assert("XHML"@ =~= RequirementType::letters());
            assert("X,H,M,L"@ =~= seq!['X', ',', 'H', ',', 'M', ',', 'L']);
        }
        let (c_ir, st) = match parse_opt_field_exec(&norm, st, "IR", "XHML", "X,H,M,L") {
            Result::Ok(x) => x,
            Result::Err(e) => {
                return Result::Err(e);
            },
        };
        proof {
            reveal_strlit("AR");
            reveal_strlit("XHML");
            reveal_strlit("X,H,M,L");
            assert("AR"@ =~= seq!['A', 'R']);
            assert("XHML"@ =~= RequirementType::letters());
            assert("X,H,M,L"@ =~= seq!['X', ',', 'H', ',', 'M', ',', 'L']);
        }
        let (c_ar, st) = match parse_opt_field_exec(&norm, st, "AR", "XHML", "X,H,M,L") {
            Result::Ok(x) => x,
            Result::Err(e) => {
                return Result::Err(e);
            },
        };
        if let Option::Some(p) = st {
            return Result::Err(mk_trailing_err(&norm, p));
        }
        let exploit_ability = ExploitAbility {
            attack_vector: AttackVectorType::from_letter(c_av),
            attack_complexity: AttackComplexityType::from_letter(c_ac),
            attack_requirements: AttackRequirementsType::from_letter(c_at),
            privileges_required: PrivilegesRequiredType::from_letter(c_pr),
            user_interaction: UserInteractionType::from_letter(c_ui),
        };
        let vulnerable_impact = VulnerableImpact {
            confidentiality_impact: ConfidentialityImpactType::from_letter(c_vc),
            integrity_impact: IntegrityImpactType::from_letter(c_vi),
            availability_impact: AvailabilityImpactType::from_letter(c_va),
        };
        let subsequent_impact = SubsequentImpact {
            confidentiality_impact: SubsequentConfidentialityImpactType::from_letter(c_sc),
            integrity_impact: SubsequentIntegrityImpactType::from_letter(c_si),
            availability_impact: SubsequentAvailabilityImpactType::from_letter(c_sa),
        };
        let exploit_maturity = match c_e {
            Option::Some(c) => ExploitMaturityType::from_letter(c),
            Option::None => ExploitMaturityType::NotDefined,
        };
        let confidentiality_requirement = match c_cr {
            Option::Some(c) => RequirementType::from_letter(c),
            Option::None => RequirementType::NotDefined,
        };
        let integrity_requirement = match c_ir {
            Option::Some(c) => RequirementType::from_letter(c),
            Option::None => RequirementType::NotDefined,
        };
        let availability_requirement = match c_ar {
            Option::Some(c) => RequirementType::from_letter(c),
            Option::None => RequirementType::NotDefined,
        };
        let metrics = MetricSet {
            exploit_ability,
            vulnerable_impact,
            subsequent_impact,
            exploit_maturity,
            confidentiality_requirement,
            integrity_requirement,
            availability_requirement,
        };
        Result::Ok(metrics)
}

impl CVSS {
    /// Parse a v4.0 vector string and score it.
    ///
    /// Succeeds exactly on the strings [`v4_from_str_spec`] accepts, and
    /// then carries that metric set, the input echoed verbatim, and the
    /// exactly computed base score and severity.
    #[verifier::rlimit(100)]
    #[verifier::spinoff_prover]
    pub fn from_str(vector_string: &str) -> (r: Result<CVSS, CVSSError>)
        ensures
            (match r {
                Result::Ok(c) => {
                    &&& v4_from_str_spec(vector_string@) == Result::<
                        MetricSet,
                        CVSSErrorSeq,
                    >::Ok(metric_set_of(c))
                    &&& c.version == Version::V4_0
                    &&& c.vector_string@ == vector_string@
                    &&& c.base_score == v4_score_tenths(metric_set_of(c))
                    &&& c.base_score <= 100
                    &&& c.base_severity == severity_from_tenths(c.base_score as int)
                },
                Result::Err(e) => v4_from_str_spec(vector_string@) == Result::<
                    MetricSet,
                    CVSSErrorSeq,
                >::Err(e@),
            }),
    {
        let norm = upper_chars_of(vector_string);
        let ghost u = upper_seq(vector_string@);
        let j = match find_from(&norm, 0, '/') {
            Option::Some(j) => j,
            Option::None => {
                proof {
                    assert(u.skip(0) =~= u);
                }
                return Result::Err(
                    CVSSError::InvalidPrefix { value: vector_string.to_owned() },
                );
            },
        };
        proof {
            assert(u.skip(0) =~= u);
            assert(tok(u) =~= norm@.subrange(0, j as int));
        }
        let ver = version_from_chars(&norm, 0, j);
        if !matches!(ver, Version::V4_0) {
            let expected = "4.0";
            proof {
                reveal_strlit("4.0");
                assert(expected@ =~= seq!['4', '.', '0']);
            }
            return Result::Err(
                CVSSError::InvalidCVSSVersion { value: ver.name(), expected: expected.to_owned() },
            );
        }
        let st = Option::Some(j + 1);
        proof {
            assert(state_view(norm@, st) == rest(u));
        }
        let metrics = match parse_fields_exec(&norm, st) {
            Result::Ok(m) => m,
            Result::Err(e) => {
                return Result::Err(e);
            },
        };
        let base_score = v4_score(&metrics);
        let base_severity = SeverityType::from_tenths(base_score);
        Result::Ok(
            CVSS {
                version: Version::V4_0,
                vector_string: vector_string.to_owned(),
                exploit_ability: metrics.exploit_ability,
                vulnerable_impact: metrics.vulnerable_impact,
                subsequent_impact: metrics.subsequent_impact,
                exploit_maturity: metrics.exploit_maturity,
                confidentiality_requirement: metrics.confidentiality_requirement,
                integrity_requirement: metrics.integrity_requirement,
                availability_requirement: metrics.availability_requirement,
                base_score,
                base_severity,
            },
        )
    }
}


/// The canonical tail from the AR field on: one field when AR is
/// defined, nothing otherwise.
pub open spec fn v4_tail_ar(m: MetricSet) -> Option<Seq<char>> {
    if m.availability_requirement == RequirementType::NotDefined {
        Option::<Seq<char>>::None
    } else {
        Option::Some(
            cons_token(field_seq(seq!['A', 'R'], m.availability_requirement.code()), Option::None),
        )
    }
}

/// The canonical tail from the IR field on.
pub open spec fn v4_tail_ir(m: MetricSet) -> Option<Seq<char>> {
    if m.integrity_requirement == RequirementType::NotDefined {
        v4_tail_ar(m)
    } else {
        Option::Some(
            cons_token(field_seq(seq!['I', 'R'], m.integrity_requirement.code()), v4_tail_ar(m)),
        )
    }
}

/// The canonical tail from the CR field on.
pub open spec fn v4_tail_cr(m: MetricSet) -> Option<Seq<char>> {
    if m.confidentiality_requirement == RequirementType::NotDefined {
        v4_tail_ir(m)
    } else {
        Option::Some(
            cons_token(
                field_seq(seq!['C', 'R'], m.confidentiality_requirement.code()),
                v4_tail_ir(m),
            ),
        )
    }
}

/// The canonical optional tail of a v4.0 vector: the threat and
/// environmental requirement fields that are defined, in emission
/// order; fields left not defined are omitted.
pub open spec fn v4_opt_tail(m: MetricSet) -> Option<Seq<char>> {
    if m.exploit_maturity == ExploitMaturityType::NotDefined {
        v4_tail_cr(m)
    } else {
        Option::Some(cons_token(field_seq(seq!['E'], m.exploit_maturity.code()), v4_tail_cr(m)))
    }
}

/// The canonical subsequent-impact fields SC, SI, SA followed by the
/// optional tail.
pub open spec fn v4_sub_seq(m: MetricSet) -> Seq<char> {
    cons_token(
        field_seq(seq!['S', 'C'], m.subsequent_impact.confidentiality_impact.code()),
        Option::Some(
            cons_token(
                field_seq(seq!['S', 'I'], m.subsequent_impact.integrity_impact.code()),
                Option::Some(
                    cons_token(
                        field_seq(seq!['S', 'A'], m.subsequent_impact.availability_impact.code()),
                        v4_opt_tail(m),
                    ),
                ),
            ),
        ),
    )
}

/// The canonical vulnerable-impact fields VC, VI, VA followed by the
/// rest of the vector.
pub open spec fn v4_vuln_seq(m: MetricSet) -> Seq<char> {
    cons_token(
        field_seq(seq!['V', 'C'], m.vulnerable_impact.confidentiality_impact.code()),
        Option::Some(
            cons_token(
                field_seq(seq!['V', 'I'], m.vulnerable_impact.integrity_impact.code()),
                Option::Some(
                    cons_token(
                        field_seq(seq!['V', 'A'], m.vulnerable_impact.availability_impact.code()),
                        Option::Some(v4_sub_seq(m)),
                    ),
                ),
            ),
        ),
    )
}

/// The canonical metric fields of a v4.0 vector, in emission order.
pub open spec fn v4_metrics_seq(m: MetricSet) -> Seq<char> {
    cons_token(
        field_seq(seq!['A', 'V'], m.exploit_ability.attack_vector.code()),
        Option::Some(
            cons_token(
                field_seq(seq!['A', 'C'], m.exploit_ability.attack_complexity.code()),
                Option::Some(
                    cons_token(
                        field_seq(seq!['A', 'T'], m.exploit_ability.attack_requirements.code()),
                        Option::Some(
                            cons_token(
                                field_seq(
                                    seq!['P', 'R'],
                                    m.exploit_ability.privileges_required.code(),
                                ),
                                Option::Some(
                                    cons_token(
                                        field_seq(
                                            seq!['U', 'I'],
                                            m.exploit_ability.user_interaction.code(),
                                        ),
                                        Option::Some(v4_vuln_seq(m)),
                                    ),
                                ),
                            ),
                        ),
                    ),
                ),
            ),
        ),
    )
}

/// The canonical v4.0 vector string.
pub open spec fn v4_vector_seq(m: MetricSet) -> Seq<char> {
    seq!['C', 'V', 'S', 'S', ':'] + seq!['4', '.', '0'] + seq!['/'] + v4_metrics_seq(m)
}

/// The `/KEY:v` pieces for the defined optional fields, as one string.
#[verifier::rlimit(100)]
fn opt_tail_string(m: &MetricSet) -> (r: String)
    ensures
        r@ == (match v4_opt_tail(*m) {
            Option::None => Seq::<char>::empty(),
            Option::Some(t) => seq!['/'] + t,
        }),
{
    let mut out = String::new();
    if !matches!(m.exploit_maturity, ExploitMaturityType::NotDefined) {
        out.append("/E:");
        push_char(&mut out, m.exploit_maturity.as_letter());
    }
    if !matches!(m.confidentiality_requirement, RequirementType::NotDefined) {
        out.append("/CR:");
        push_char(&mut out, m.confidentiality_requirement.as_letter());
    }
    if !matches!(m.integrity_requirement, RequirementType::NotDefined) {
        out.append("/IR:");
        push_char(&mut out, m.integrity_requirement.as_letter());
    }
    if !matches!(m.availability_requirement, RequirementType::NotDefined) {
        out.append("/AR:");
        push_char(&mut out, m.availability_requirement.as_letter());
    }
    proof {
        reveal_strlit("/E:");
        reveal_strlit("/CR:");
        reveal_strlit("/IR:");
        reveal_strlit("/AR:");
        assert(out@ =~= (match v4_opt_tail(*m) {
            Option::None => Seq::<char>::empty(),
            Option::Some(t) => seq!['/'] + t,
        }));
    }
    out
}

/// The subsequent-impact fields and the optional tail, as one string.
#[verifier::rlimit(100)]
fn sub_string(m: &MetricSet) -> (r: String)
    ensures
        r@ == v4_sub_seq(*m),
{
    let mut out = String::new();
    out.append("SC:");
    push_char(&mut out, m.subsequent_impact.confidentiality_impact.as_letter());
    out.append("/SI:");
    push_char(&mut out, m.subsequent_impact.integrity_impact.as_letter());
    out.append("/SA:");
    push_char(&mut out, m.subsequent_impact.availability_impact.as_letter());
    let tail = opt_tail_string(m);
    out.append(tail.as_str());
    proof {
        reveal_strlit("SC:");
        reveal_strlit("/SI:");
        reveal_strlit("/SA:");
        assert(out@ =~= v4_sub_seq(*m));
    }
    out
}

/// The vulnerable-impact fields and everything after them, as one
/// string.
#[verifier::rlimit(100)]
fn vuln_string(m: &MetricSet) -> (r: String)
    ensures
        r@ == v4_vuln_seq(*m),
{
    let mut out = String::new();
    out.append("VC:");
    push_char(&mut out, m.vulnerable_impact.confidentiality_impact.as_letter());
    out.append("/VI:");
    push_char(&mut out, m.vulnerable_impact.integrity_impact.as_letter());
    out.append("/VA:");
    push_char(&mut out, m.vulnerable_impact.availability_impact.as_letter());
    out.append("/");
    let rest = sub_string(m);
    out.append(rest.as_str());
    proof {
        reveal_strlit("VC:");
        reveal_strlit("/VI:");
        reveal_strlit("/VA:");
        reveal_strlit("/");
        assert(out@ =~= v4_vuln_seq(*m));
    }
    out
}

impl CVSS {
    /// The canonical vector string for this metric set.
    #[verifier::rlimit(100)]
    #[verifier::spinoff_prover]
    pub fn to_vector_string(&self) -> (r: String)
        ensures
            r@ == v4_vector_seq(
                MetricSet {
                    exploit_ability: self.exploit_ability,
                    vulnerable_impact: self.vulnerable_impact,
                    subsequent_impact: self.subsequent_impact,
                    exploit_maturity: self.exploit_maturity,
                    confidentiality_requirement: self.confidentiality_requirement,
                    integrity_requirement: self.integrity_requirement,
                    availability_requirement: self.availability_requirement,
                },
            ),
    {
        let m = MetricSet {
            exploit_ability: self.exploit_ability,
            vulnerable_impact: self.vulnerable_impact,
            subsequent_impact: self.subsequent_impact,
            exploit_maturity: self.exploit_maturity,
            confidentiality_requirement: self.confidentiality_requirement,
            integrity_requirement: self.integrity_requirement,
            availability_requirement: self.availability_requirement,
        };
        let mut out = String::new();
        out.append("CVSS:4.0");
        out.append("/AV:");
        push_char(&mut out, m.exploit_ability.attack_vector.as_letter());
        out.append("/AC:");
        push_char(&mut out, m.exploit_ability.attack_complexity.as_letter());
        out.append("/AT:");
        push_char(&mut out, m.exploit_ability.attack_requirements.as_letter());
        out.append("/PR:");
        push_char(&mut out, m.exploit_ability.privileges_required.as_letter());
        out.append("/UI:");
        push_char(&mut out, m.exploit_ability.user_interaction.as_letter());
        out.append("/");
        let rest = vuln_string(&m);
        out.append(rest.as_str());
        proof {
            reveal_strlit("CVSS:4.0");
            reveal_strlit("/AV:");
            reveal_strlit("/AC:");
            reveal_strlit("/AT:");
            reveal_strlit("/PR:");
            reveal_strlit("/UI:");
            reveal_strlit("/");
            assert(out@ =~= v4_vector_seq(m));
        }
        out
    }
}

/// Upper-casing leaves a canonical token chain unchanged when its key
/// and letter are upper case and the rest of the chain is unchanged.
proof fn lemma_upper_fix_opt_cons(key: Seq<char>, c: char, rst: Option<Seq<char>>)
    requires
        upper_seq(key) == key,
        upper_char(c) == c,
        (rst matches Option::Some(x) ==> upper_seq(x) == x),
    ensures
        upper_seq(cons_token(field_seq(key, c), rst)) == cons_token(field_seq(key, c), rst),
{
    lemma_upper_field(key, c);
    match rst {
        Option::None => {
        },
        Option::Some(r) => {
            lemma_upper_cons(field_seq(key, c), r);
        },
    }
}


/// Upper-casing leaves the canonical subsequent-impact fields and the
/// optional tail unchanged.
#[verifier::rlimit(100)]
#[verifier::spinoff_prover]
proof fn lemma_v4_upper_fix_sub(m: MetricSet)
    ensures
        upper_seq(v4_sub_seq(m)) == v4_sub_seq(m),
{
    lemma_code_SubsequentConfidentialityImpactType(m.subsequent_impact.confidentiality_impact);
    lemma_code_SubsequentIntegrityImpactType(m.subsequent_impact.integrity_impact);
    lemma_code_SubsequentAvailabilityImpactType(m.subsequent_impact.availability_impact);
    lemma_code_ExploitMaturityType(m.exploit_maturity);
    lemma_code_RequirementType(m.confidentiality_requirement);
    lemma_code_RequirementType(m.integrity_requirement);
    lemma_code_RequirementType(m.availability_requirement);
    assert(upper_seq(seq!['E']) =~= seq!['E']);
    assert(upper_seq(seq!['A', 'R']) =~= seq!['A', 'R']);
    assert(upper_seq(seq!['I', 'R']) =~= seq!['I', 'R']);
    assert(upper_seq(seq!['C', 'R']) =~= seq!['C', 'R']);
    assert(upper_seq(seq!['S', 'A']) =~= seq!['S', 'A']);
    assert(upper_seq(seq!['S', 'I']) =~= seq!['S', 'I']);
    assert(upper_seq(seq!['S', 'C']) =~= seq!['S', 'C']);
    let nd = RequirementType::NotDefined;
    let t_ar = if m.availability_requirement == nd {
        Option::<Seq<char>>::None
    } else {
        Option::Some(
            cons_token(field_seq(seq!['A', 'R'], m.availability_requirement.code()), Option::None),
        )
    };
    let t_ir = if m.integrity_requirement == nd {
        t_ar
    } else {
        Option::Some(cons_token(field_seq(seq!['I', 'R'], m.integrity_requirement.code()), t_ar))
    };
    let t_cr = if m.confidentiality_requirement == nd {
        t_ir
    } else {
        Option::Some(
            cons_token(field_seq(seq!['C', 'R'], m.confidentiality_requirement.code()), t_ir),
        )
    };
    let t_e = if m.exploit_maturity == ExploitMaturityType::NotDefined {
        t_cr
    } else {
        Option::Some(cons_token(field_seq(seq!['E'], m.exploit_maturity.code()), t_cr))
    };
    if m.availability_requirement != nd {
        lemma_upper_fix_opt_cons(
            seq!['A', 'R'],
            m.availability_requirement.code(),
            Option::None,
        );
    }
    if m.integrity_requirement != nd {
        lemma_upper_fix_opt_cons(seq!['I', 'R'], m.integrity_requirement.code(), t_ar);
    }
    if m.confidentiality_requirement != nd {
        lemma_upper_fix_opt_cons(seq!['C', 'R'], m.confidentiality_requirement.code(), t_ir);
    }
    if m.exploit_maturity != ExploitMaturityType::NotDefined {
        lemma_upper_fix_opt_cons(seq!['E'], m.exploit_maturity.code(), t_cr);
    }
    let f11 = field_seq(seq!['S', 'A'], m.subsequent_impact.availability_impact.code());
    let m11 = cons_token(f11, t_e);
    let f10 = field_seq(seq!['S', 'I'], m.subsequent_impact.integrity_impact.code());
    let m10 = cons_token(f10, Option::Some(m11));
    lemma_upper_fix_opt_cons(
        seq!['S', 'A'],
        m.subsequent_impact.availability_impact.code(),
        t_e,
    );
    lemma_upper_fix_opt_cons(
        seq!['S', 'I'],
        m.subsequent_impact.integrity_impact.code(),
        Option::Some(m11),
    );
    lemma_upper_fix_opt_cons(
        seq!['S', 'C'],
        m.subsequent_impact.confidentiality_impact.code(),
        Option::Some(m10),
    );
}

/// Upper-casing leaves a canonical v4.0 vector string unchanged: every
/// key and letter it emits is already upper case.
#[verifier::rlimit(100)]
#[verifier::spinoff_prover]
proof fn lemma_v4_upper_fix(m: MetricSet)
    ensures
        upper_seq(v4_vector_seq(m)) == v4_vector_seq(m),
{
    lemma_v4_upper_fix_sub(m);
    lemma_code_AttackVectorType(m.exploit_ability.attack_vector);
    lemma_code_AttackComplexityType(m.exploit_ability.attack_complexity);
    lemma_code_AttackRequirementsType(m.exploit_ability.attack_requirements);
    lemma_code_PrivilegesRequiredType(m.exploit_ability.privileges_required);
    lemma_code_UserInteractionType(m.exploit_ability.user_interaction);
    lemma_code_ConfidentialityImpactType(m.vulnerable_impact.confidentiality_impact);
    lemma_code_IntegrityImpactType(m.vulnerable_impact.integrity_impact);
    lemma_code_AvailabilityImpactType(m.vulnerable_impact.availability_impact);
    assert(upper_seq(seq!['V', 'A']) =~= seq!['V', 'A']);
    assert(upper_seq(seq!['V', 'I']) =~= seq!['V', 'I']);
    assert(upper_seq(seq!['V', 'C']) =~= seq!['V', 'C']);
    assert(upper_seq(seq!['U', 'I']) =~= seq!['U', 'I']);
    assert(upper_seq(seq!['P', 'R']) =~= seq!['P', 'R']);
    assert(upper_seq(seq!['A', 'T']) =~= seq!['A', 'T']);
    assert(upper_seq(seq!['A', 'C']) =~= seq!['A', 'C']);
    assert(upper_seq(seq!['A', 'V']) =~= seq!['A', 'V']);
    let f8 = field_seq(seq!['V', 'A'], m.vulnerable_impact.availability_impact.code());
    let m8 = cons_token(f8, Option::Some(v4_sub_seq(m)));
    let f7 = field_seq(seq!['V', 'I'], m.vulnerable_impact.integrity_impact.code());
    let m7 = cons_token(f7, Option::Some(m8));
    lemma_upper_fix_opt_cons(
        seq!['V', 'A'],
        m.vulnerable_impact.availability_impact.code(),
        Option::Some(v4_sub_seq(m)),
    );
    lemma_upper_fix_opt_cons(
        seq!['V', 'I'],
        m.vulnerable_impact.integrity_impact.code(),
        Option::Some(m8),
    );
    lemma_upper_fix_opt_cons(
        seq!['V', 'C'],
        m.vulnerable_impact.confidentiality_impact.code(),
        Option::Some(m7),
    );
    assert(upper_seq(v4_vuln_seq(m)) == v4_vuln_seq(m));
    let f5 = field_seq(seq!['U', 'I'], m.exploit_ability.user_interaction.code());
    let m5 = cons_token(f5, Option::Some(v4_vuln_seq(m)));
    let f4 = field_seq(seq!['P', 'R'], m.exploit_ability.privileges_required.code());
    let m4 = cons_token(f4, Option::Some(m5));
    let f3 = field_seq(seq!['A', 'T'], m.exploit_ability.attack_requirements.code());
    let m3 = cons_token(f3, Option::Some(m4));
    let f2 = field_seq(seq!['A', 'C'], m.exploit_ability.attack_complexity.code());
    let m2 = cons_token(f2, Option::Some(m3));
    lemma_upper_fix_opt_cons(
        seq!['U', 'I'],
        m.exploit_ability.user_interaction.code(),
        Option::Some(v4_vuln_seq(m)),
    );
    lemma_upper_fix_opt_cons(
        seq!['P', 'R'],
        m.exploit_ability.privileges_required.code(),
        Option::Some(m5),
    );
    lemma_upper_fix_opt_cons(
        seq!['A', 'T'],
        m.exploit_ability.attack_requirements.code(),
        Option::Some(m4),
    );
    lemma_upper_fix_opt_cons(
        seq!['A', 'C'],
        m.exploit_ability.attack_complexity.code(),
        Option::Some(m3),
    );
    lemma_upper_fix_opt_cons(
        seq!['A', 'V'],
        m.exploit_ability.attack_vector.code(),
        Option::Some(m2),
    );
    assert(upper_seq(v4_metrics_seq(m)) == v4_metrics_seq(m));
    let pre = seq!['C', 'V', 'S', 'S', ':'] + seq!['4', '.', '0'];
    lemma_upper_seq_concat(pre + seq!['/'], v4_metrics_seq(m));
    lemma_upper_seq_concat(pre, seq!['/']);
    assert(upper_seq(seq!['/']) =~= seq!['/']);
    assert(upper_seq(pre) =~= pre);
    assert(upper_seq(v4_vector_seq(m)) == v4_vector_seq(m));
}

/// The optional E field: consumed when defined, skipped past otherwise.
proof fn lemma_v4_opt_e(m: MetricSet)
    ensures
        parse_opt_field(
            v4_opt_tail(m),
            seq!['E'],
            ExploitMaturityType::letters(),
            seq!['X', ',', 'A', ',', 'P', ',', 'U'],
        ) == Result::<(Option<char>, Option<Seq<char>>), CVSSErrorSeq>::Ok(
            (
                if m.exploit_maturity == ExploitMaturityType::NotDefined {
                    Option::<char>::None
                } else {
                    Option::Some(m.exploit_maturity.code())
                },
                v4_tail_cr(m),
            ),
        ),
{
    lemma_code_ExploitMaturityType(m.exploit_maturity);
    lemma_code_RequirementType(m.confidentiality_requirement);
    lemma_code_RequirementType(m.integrity_requirement);
    lemma_code_RequirementType(m.availability_requirement);
    let letters = ExploitMaturityType::letters();
    let exp = seq!['X', ',', 'A', ',', 'P', ',', 'U'];
    let nd = RequirementType::NotDefined;
    if m.exploit_maturity != ExploitMaturityType::NotDefined {
        lemma_opt_field_token(seq!['E'], m.exploit_maturity.code(), letters, exp, v4_tail_cr(m));
    } else {
        if m.confidentiality_requirement != nd {
            lemma_opt_field_skip(
                seq!['E'],
                seq!['C', 'R'],
                m.confidentiality_requirement.code(),
                letters,
                exp,
                v4_tail_ir(m),
            );
        } else if m.integrity_requirement != nd {
            lemma_opt_field_skip(
                seq!['E'],
                seq!['I', 'R'],
                m.integrity_requirement.code(),
                letters,
                exp,
                v4_tail_ar(m),
            );
        } else if m.availability_requirement != nd {
            lemma_opt_field_skip(
                seq!['E'],
                seq!['A', 'R'],
                m.availability_requirement.code(),
                letters,
                exp,
                Option::None,
            );
        }
    }
}

/// The optional CR field: consumed when defined, skipped past otherwise.
proof fn lemma_v4_opt_cr(m: MetricSet)
    ensures
        parse_opt_field(
            v4_tail_cr(m),
            seq!['C', 'R'],
            RequirementType::letters(),
            seq!['X', ',', 'H', ',', 'M', ',', 'L'],
        ) == Result::<(Option<char>, Option<Seq<char>>), CVSSErrorSeq>::Ok(
            (
                if m.confidentiality_requirement == RequirementType::NotDefined {
                    Option::<char>::None
                } else {
                    Option::Some(m.confidentiality_requirement.code())
                },
                v4_tail_ir(m),
            ),
        ),
{
    lemma_code_RequirementType(m.confidentiality_requirement);
    lemma_code_RequirementType(m.integrity_requirement);
    lemma_code_RequirementType(m.availability_requirement);
    let letters = RequirementType::letters();
    let exp = seq!['X', ',', 'H', ',', 'M', ',', 'L'];
    let nd = RequirementType::NotDefined;
    if m.confidentiality_requirement != nd {
        lemma_opt_field_token(
            seq!['C', 'R'],
            m.confidentiality_requirement.code(),
            letters,
            exp,
            v4_tail_ir(m),
        );
    } else {
        if m.integrity_requirement != nd {
            lemma_opt_field_skip(
                seq!['C', 'R'],
                seq!['I', 'R'],
                m.integrity_requirement.code(),
                letters,
                exp,
                v4_tail_ar(m),
            );
        } else if m.availability_requirement != nd {
            lemma_opt_field_skip(
                seq!['C', 'R'],
                seq!['A', 'R'],
                m.availability_requirement.code(),
                letters,
                exp,
                Option::None,
            );
        }
    }
}

/// The optional IR field: consumed when defined, skipped past otherwise.
proof fn lemma_v4_opt_ir(m: MetricSet)
    ensures
        parse_opt_field(
            v4_tail_ir(m),
            seq!['I', 'R'],
            RequirementType::letters(),
            seq!['X', ',', 'H', ',', 'M', ',', 'L'],
        ) == Result::<(Option<char>, Option<Seq<char>>), CVSSErrorSeq>::Ok(
            (
                if m.integrity_requirement == RequirementType::NotDefined {
                    Option::<char>::None
                } else {
                    Option::Some(m.integrity_requirement.code())
                },
                v4_tail_ar(m),
            ),
        ),
{
    lemma_code_RequirementType(m.integrity_requirement);
    lemma_code_RequirementType(m.availability_requirement);
    let letters = RequirementType::letters();
    let exp = seq!['X', ',', 'H', ',', 'M', ',', 'L'];
    let nd = RequirementType::NotDefined;
    if m.integrity_requirement != nd {
        lemma_opt_field_token(
            seq!['I', 'R'],
            m.integrity_requirement.code(),
            letters,
            exp,
            v4_tail_ar(m),
        );
    } else {
        if m.availability_requirement != nd {
            lemma_opt_field_skip(
                seq!['I', 'R'],
                seq!['A', 'R'],
                m.availability_requirement.code(),
                letters,
                exp,
                Option::None,
            );
        }
    }
}

/// The optional AR field: consumed when defined, absent otherwise.
proof fn lemma_v4_opt_ar(m: MetricSet)
    ensures
        parse_opt_field(
            v4_tail_ar(m),
            seq!['A', 'R'],
            RequirementType::letters(),
            seq!['X', ',', 'H', ',', 'M', ',', 'L'],
        ) == Result::<(Option<char>, Option<Seq<char>>), CVSSErrorSeq>::Ok(
            (
                if m.availability_requirement == RequirementType::NotDefined {
                    Option::<char>::None
                } else {
                    Option::Some(m.availability_requirement.code())
                },
                Option::<Seq<char>>::None,
            ),
        ),
{
    lemma_code_RequirementType(m.availability_requirement);
    let letters = RequirementType::letters();
    let exp = seq!['X', ',', 'H', ',', 'M', ',', 'L'];
    if m.availability_requirement != RequirementType::NotDefined {
        lemma_opt_field_token(
            seq!['A', 'R'],
            m.availability_requirement.code(),
            letters,
            exp,
            Option::None,
        );
    }
}

/// Round trip: re-parsing a canonically formatted v4.0 vector yields
/// exactly the metric set that was formatted — the optional threat and
/// environmental fields included — and so an identical score.
#[verifier::rlimit(100)]
#[verifier::spinoff_prover]
pub proof fn lemma_v4_round_trip(m: MetricSet)
    ensures
        v4_from_str_spec(v4_vector_seq(m)) == Result::<MetricSet, CVSSErrorSeq>::Ok(m),
{
    lemma_code_AttackVectorType(m.exploit_ability.attack_vector);
    lemma_code_AttackComplexityType(m.exploit_ability.attack_complexity);
    lemma_code_AttackRequirementsType(m.exploit_ability.attack_requirements);
    lemma_code_PrivilegesRequiredType(m.exploit_ability.privileges_required);
    lemma_code_UserInteractionType(m.exploit_ability.user_interaction);
    lemma_code_ConfidentialityImpactType(m.vulnerable_impact.confidentiality_impact);
    lemma_code_IntegrityImpactType(m.vulnerable_impact.integrity_impact);
    lemma_code_AvailabilityImpactType(m.vulnerable_impact.availability_impact);
    lemma_code_SubsequentConfidentialityImpactType(m.subsequent_impact.confidentiality_impact);
    lemma_code_SubsequentIntegrityImpactType(m.subsequent_impact.integrity_impact);
    lemma_code_SubsequentAvailabilityImpactType(m.subsequent_impact.availability_impact);
    lemma_code_ExploitMaturityType(m.exploit_maturity);
    lemma_code_RequirementType(m.confidentiality_requirement);
    lemma_code_RequirementType(m.integrity_requirement);
    lemma_code_RequirementType(m.availability_requirement);
    lemma_v4_upper_fix(m);
    let s = v4_vector_seq(m);
    let f11 = field_seq(seq!['S', 'A'], m.subsequent_impact.availability_impact.code());
    let m11 = cons_token(f11, v4_opt_tail(m));
    let f10 = field_seq(seq!['S', 'I'], m.subsequent_impact.integrity_impact.code());
    let m10 = cons_token(f10, Option::Some(m11));
    let f9 = field_seq(seq!['S', 'C'], m.subsequent_impact.confidentiality_impact.code());
    let m9 = cons_token(f9, Option::Some(m10));
    assert(v4_sub_seq(m) == m9);
    let f8 = field_seq(seq!['V', 'A'], m.vulnerable_impact.availability_impact.code());
    let m8 = cons_token(f8, Option::Some(m9));
    let f7 = field_seq(seq!['V', 'I'], m.vulnerable_impact.integrity_impact.code());
    let m7 = cons_token(f7, Option::Some(m8));
    let f6 = field_seq(seq!['V', 'C'], m.vulnerable_impact.confidentiality_impact.code());
    let m6 = cons_token(f6, Option::Some(m7));
    assert(v4_vuln_seq(m) == m6);
    let f5 = field_seq(seq!['U', 'I'], m.exploit_ability.user_interaction.code());
    let m5 = cons_token(f5, Option::Some(m6));
    let f4 = field_seq(seq!['P', 'R'], m.exploit_ability.privileges_required.code());
    let m4 = cons_token(f4, Option::Some(m5));
    let f3 = field_seq(seq!['A', 'T'], m.exploit_ability.attack_requirements.code());
    let m3 = cons_token(f3, Option::Some(m4));
    let f2 = field_seq(seq!['A', 'C'], m.exploit_ability.attack_complexity.code());
    let m2 = cons_token(f2, Option::Some(m3));
    let f1 = field_seq(seq!['A', 'V'], m.exploit_ability.attack_vector.code());
    let m1 = cons_token(f1, Option::Some(m2));
    assert(v4_metrics_seq(m) == m1);
    let pre = seq!['C', 'V', 'S', 'S', ':'] + seq!['4', '.', '0'];
    assert(s == pre + seq!['/'] + m1);
    // the version prefix is the first token
    assert(pre.len() == 8);
    assert(s[8] == '/');
    assert forall|i: int| 0 <= i < 8 implies #[trigger] s[i] != '/' by {
        assert(s[i] == pre[i]);
    }
    lemma_find_is(s, '/', 8);
    assert(tok(s) =~= pre);
    assert(version_from_seq(pre.skip(5)) == Version::V4_0);
    assert(version_from_seq(tok(s)) == Version::V4_0);
    assert(rest(s) == Option::Some(s.skip(9)));
    assert(s.skip(9) =~= m1);
    // the eleven base fields, one token each
    lemma_field_token(
        seq!['A', 'V'],
        m.exploit_ability.attack_vector.code(),
        AttackVectorType::letters(),
        seq!['N', ',', 'A', ',', 'L', ',', 'P'],
        Option::Some(m2),
    );
    lemma_field_token(
        seq!['A', 'C'],
        m.exploit_ability.attack_complexity.code(),
        AttackComplexityType::letters(),
        seq!['L', ',', 'H'],
        Option::Some(m3),
    );
    lemma_field_token(
        seq!['A', 'T'],
        m.exploit_ability.attack_requirements.code(),
        AttackRequirementsType::letters(),
        seq!['N', ',', 'P'],
        Option::Some(m4),
    );
    lemma_field_token(
        seq!['P', 'R'],
        m.exploit_ability.privileges_required.code(),
        PrivilegesRequiredType::letters(),
        seq!['N', ',', 'L', ',', 'H'],
        Option::Some(m5),
    );
    lemma_field_token(
        seq!['U', 'I'],
        m.exploit_ability.user_interaction.code(),
        UserInteractionType::letters(),
        seq!['N', ',', 'P', ',', 'A'],
        Option::Some(m6),
    );
    lemma_field_token(
        seq!['V', 'C'],
        m.vulnerable_impact.confidentiality_impact.code(),
        ConfidentialityImpactType::letters(),
        seq!['H', ',', 'L', ',', 'N'],
        Option::Some(m7),
    );
    lemma_field_token(
        seq!['V', 'I'],
        m.vulnerable_impact.integrity_impact.code(),
        IntegrityImpactType::letters(),
        seq!['H', ',', 'L', ',', 'N'],
        Option::Some(m8),
    );
    lemma_field_token(
        seq!['V', 'A'],
        m.vulnerable_impact.availability_impact.code(),
        AvailabilityImpactType::letters(),
        seq!['H', ',', 'L', ',', 'N'],
        Option::Some(m9),
    );
    lemma_field_token(
        seq!['S', 'C'],
        m.subsequent_impact.confidentiality_impact.code(),
        SubsequentConfidentialityImpactType::letters(),
        seq!['H', ',', 'L', ',', 'N'],
        Option::Some(m10),
    );
    lemma_field_token(
        seq!['S', 'I'],
        m.subsequent_impact.integrity_impact.code(),
        SubsequentIntegrityImpactType::letters(),
        seq!['H', ',', 'L', ',', 'N'],
        Option::Some(m11),
    );
    lemma_field_token(
        seq!['S', 'A'],
        m.subsequent_impact.availability_impact.code(),
        SubsequentAvailabilityImpactType::letters(),
        seq!['H', ',', 'L', ',', 'N'],
        v4_opt_tail(m),
    );
    // the optional fields, in order
    lemma_v4_opt_e(m);
    lemma_v4_opt_cr(m);
    lemma_v4_opt_ir(m);
    lemma_v4_opt_ar(m);
}


} // verus!
