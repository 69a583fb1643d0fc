//! The help surface of a metric value.
//!
//! Every metric value carries a coarse severity-worth classification and
//! a descriptive sentence, used by documentation and help surfaces; the
//! scoring formulas never read them.

use vstd::prelude::*;

verus! {

/// How bad a metric value is for the system under assessment.
#[derive(Debug, Clone, Copy, PartialEq, Eq, Structural)]
pub enum Worth {
    Good,
    Bad,
    Worst,
}

/// A metric value's help entry: its severity worth and a description.
#[derive(Debug, Clone)]
pub struct Help {
    pub worth: Worth,
    pub des: String,
}

} // verus!
