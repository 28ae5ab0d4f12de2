//! The reader-side model of an evaluated proposition payment: the intents a
//! reader can express, how each of a cone's coordinates is covered, the
//! bounded explanation cone, and the disposition that the payment evaluator
//! hands back for an intent. These hold, as plain values, exactly what the
//! projections of this crate read.
use vstd::prelude::*;

verus! {

/// What a reader asks of a proposition.
#[derive(Clone, Copy, Debug, PartialEq, Eq, Structural)]
pub enum ReaderIntent {
    Explain,
    WhyClaim,
    OpenSource,
    ExpandProofCone,
    Back,
}

/// How one coordinate (qualifier, defeater or comparator) of an explanation
/// cone is covered: paid by evidence, or left as an explicit residual.
#[derive(Clone, Debug, PartialEq, Eq)]
pub enum CoordinateCoverage {
    Paid { evidence_refs: Vec<String> },
    Residualised(String),
}

/// The residual reference of a coverage, if it is residualised.
pub open spec fn residual_of(coverage: CoordinateCoverage) -> Option<String> {
    match coverage {
        CoordinateCoverage::Paid { .. } => None,
        CoordinateCoverage::Residualised(r) => Some(r),
    }
}

impl CoordinateCoverage {
    /// The residual reference, when this coordinate is left residual.
    pub fn residual_ref(&self) -> (r: Option<&String>)
        ensures
            r matches Some(s) ==> residual_of(*self) == Some(*s),
            r is None <==> residual_of(*self) is None,
    {
        match self {
            CoordinateCoverage::Paid { .. } => None,
            CoordinateCoverage::Residualised(r) => Some(r),
        }
    }
}

/// A bounded explanation of a proposition: its exact source, the support
/// observations, and the coverage of its three coordinates. The two payment
/// flags are the evaluator's verdicts, carried through unchanged.
#[derive(Clone, Debug, PartialEq, Eq)]
pub struct ExplanationCone {
    pub proposition_ref: String,
    pub source_revision_ref: String,
    pub span_ref: String,
    pub support_refs: Vec<String>,
    pub qualifier: CoordinateCoverage,
    pub defeater: CoordinateCoverage,
    pub comparator: CoordinateCoverage,
    pub applicability_paid: bool,
    pub claim_truth_paid: bool,
}

/// What the payment evaluator decided for one reader intent.
#[derive(Clone, Debug, PartialEq, Eq)]
pub enum ReaderDisposition {
    ExecuteSource { proposition_ref: String, source_revision_ref: String, span_ref: String },
    ExecuteBoundedWhy(ExplanationCone),
    Defer(Vec<String>),
    Reject { reason: String },
}

} // verus!
