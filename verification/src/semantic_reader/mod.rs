//! Projection of an already-evaluated payment disposition into reader-only
//! state. The projection inspects no evidence, infers no support and never
//! alters a payment outcome; what the evaluator settled is shown as it is.
use vstd::prelude::*;
use crate::reader_model::{residual_of, CoordinateCoverage, ExplanationCone, ReaderDisposition};

pub mod mabo;

verus! {

/// What the semantic reader shows.
#[derive(Clone, Debug, PartialEq, Eq)]
pub enum ReaderViewState {
    Ready,
    Source { proposition_ref: String, source_revision_ref: String, span_ref: String },
    Explanation {
        proposition_ref: String,
        source_revision_ref: String,
        span_ref: String,
        support_refs: Vec<String>,
        residual_refs: Vec<String>,
        applicability_paid: bool,
        claim_truth_paid: bool,
    },
    Deferred { residual_refs: Vec<String> },
    Rejected { reason: String },
}

/// The residual reference of a coverage as a sequence of zero or one items.
pub open spec fn residual_items(coverage: CoordinateCoverage) -> Seq<String> {
    match residual_of(coverage) {
        Some(r) => seq![r],
        None => Seq::empty(),
    }
}

/// The open coordinates of a cone: the residual references of its qualifier,
/// defeater and comparator, in that order, skipping paid coordinates.
pub open spec fn open_coordinates(cone: ExplanationCone) -> Seq<String> {
    residual_items(cone.qualifier) + residual_items(cone.defeater) + residual_items(
        cone.comparator,
    )
}

/// `view` is the reader state that shows `disposition`.
pub open spec fn shows(disposition: ReaderDisposition, view: ReaderViewState) -> bool {
    match disposition {
        ReaderDisposition::ExecuteSource { proposition_ref, source_revision_ref, span_ref } => view
            == ReaderViewState::Source { proposition_ref, source_revision_ref, span_ref },
        ReaderDisposition::ExecuteBoundedWhy(cone) => match view {
            ReaderViewState::Explanation {
                proposition_ref,
                source_revision_ref,
                span_ref,
                support_refs,
                residual_refs,
                applicability_paid,
                claim_truth_paid,
            } => {
                &&& proposition_ref == cone.proposition_ref
                &&& source_revision_ref == cone.source_revision_ref
                &&& span_ref == cone.span_ref
                &&& support_refs@ == cone.support_refs@
                &&& residual_refs@ == open_coordinates(cone)
                &&& applicability_paid == cone.applicability_paid
                &&& claim_truth_paid == cone.claim_truth_paid
            },
            _ => false,
        },
        ReaderDisposition::Defer(residuals) => match view {
            ReaderViewState::Deferred { residual_refs } => residual_refs@ == residuals@,
            _ => false,
        },
        ReaderDisposition::Reject { reason } => view == ReaderViewState::Rejected { reason },
    }
}

fn residual_refs(coverages: [&CoordinateCoverage; 3]) -> (refs: Vec<String>)
    ensures
        refs@ == residual_items(*coverages[0]) + residual_items(*coverages[1]) + residual_items(
            *coverages[2],
        ),
{
    let mut refs: Vec<String> = Vec::new();
    let mut i: usize = 0;
    while i < 3
        invariant
            i <= 3,
            refs@ == (if i == 0 {
                Seq::empty()
            } else if i == 1 {
                residual_items(*coverages[0])
            } else if i == 2 {
                residual_items(*coverages[0]) + residual_items(*coverages[1])
            } else {
                residual_items(*coverages[0]) + residual_items(*coverages[1]) + residual_items(
                    *coverages[2],
                )
            }),
        decreases 3 - i,
    {
        let coverage: &CoordinateCoverage = coverages[i];
        match coverage.residual_ref() {
            Some(residual) => {
                refs.push(residual.clone());
            },
            None => {},
        }
        i = i + 1;
    }
    refs
}

/// Projects an already-evaluated disposition into reader-only state.
///
/// Source and rejection are carried field for field; a bounded explanation
/// keeps its support and both payment flags unchanged and lists the residual
/// coordinates in qualifier, defeater, comparator order; a deferral lists the
/// outstanding residuals.
pub fn render_state(disposition: ReaderDisposition) -> (view: ReaderViewState)
    ensures
        shows(disposition, view),
{
    match disposition {
        ReaderDisposition::ExecuteSource { proposition_ref, source_revision_ref, span_ref } => {
            ReaderViewState::Source { proposition_ref, source_revision_ref, span_ref }
        },
        ReaderDisposition::ExecuteBoundedWhy(cone) => {
            let ExplanationCone {
                proposition_ref,
                source_revision_ref,
                span_ref,
                support_refs,
                qualifier,
                defeater,
                comparator,
                applicability_paid,
                claim_truth_paid,
            } = cone;
            let residual_refs = residual_refs([&qualifier, &defeater, &comparator]);
            ReaderViewState::Explanation {
                proposition_ref,
                source_revision_ref,
                span_ref,
                support_refs,
                residual_refs,
                applicability_paid,
                claim_truth_paid,
            }
        },
        ReaderDisposition::Defer(residuals) => ReaderViewState::Deferred { residual_refs: residuals },
        ReaderDisposition::Reject { reason } => ReaderViewState::Rejected { reason },
    }
}

/// Every disposition has something to show: the projection never falls back
/// to the idle `Ready` state, and it shows a source, an explanation, a
/// deferral or a rejection exactly when the evaluator executed the source,
/// executed a bounded why, deferred, or rejected.
pub proof fn lemma_projection_keeps_the_decision(disposition: ReaderDisposition, view: ReaderViewState)
    requires
        shows(disposition, view),
    ensures
        !(view is Ready),
        view is Source <==> disposition is ExecuteSource,
        view is Explanation <==> disposition is ExecuteBoundedWhy,
        view is Deferred <==> disposition is Defer,
        view is Rejected <==> disposition is Reject,
{
}

/// The projection carries every field of the disposition it shows: a bounded
/// explanation shows exactly the cone's proposition, source revision, span
/// and support references (same length, same order), as open coordinates
/// exactly the residual references of its qualifier, defeater and comparator
/// (in that order, paid ones left out), and the cone's own applicability and
/// claim-truth verdicts; a source, a deferral and a rejection show exactly
/// their references, residuals and reason.
pub proof fn lemma_projection_carries_fields(disposition: ReaderDisposition, view: ReaderViewState)
    requires
        shows(disposition, view),
    ensures
        disposition matches ReaderDisposition::ExecuteBoundedWhy(cone) ==> (
        view matches ReaderViewState::Explanation {
            proposition_ref,
            source_revision_ref,
            span_ref,
            support_refs,
            residual_refs,
            applicability_paid,
            claim_truth_paid,
        } && {
            &&& proposition_ref@ == cone.proposition_ref@
            &&& source_revision_ref@ == cone.source_revision_ref@
            &&& span_ref@ == cone.span_ref@
            &&& support_refs@.len() == cone.support_refs@.len()
            &&& forall|i: int|
                0 <= i < support_refs@.len() ==> (#[trigger] support_refs@[i]) == cone.support_refs@[i]
            &&& residual_refs@ =~= (if cone.qualifier is Residualised {
                seq![cone.qualifier->0]
            } else {
                Seq::<String>::empty()
            }) + (if cone.defeater is Residualised {
                seq![cone.defeater->0]
            } else {
                Seq::<String>::empty()
            }) + (if cone.comparator is Residualised {
                seq![cone.comparator->0]
            } else {
                Seq::<String>::empty()
            })
            &&& applicability_paid == cone.applicability_paid
            &&& claim_truth_paid == cone.claim_truth_paid
        }),
        disposition matches ReaderDisposition::ExecuteSource {
            proposition_ref,
            source_revision_ref,
            span_ref,
        } ==> (view matches ReaderViewState::Source { proposition_ref: p, source_revision_ref: r, span_ref: s }
            && p == proposition_ref && r == source_revision_ref && s == span_ref),
        disposition matches ReaderDisposition::Defer(residuals) ==> (
        view matches ReaderViewState::Deferred { residual_refs } && residual_refs@.len()
            == residuals@.len() && forall|i: int|
            0 <= i < residuals@.len() ==> (#[trigger] residual_refs@[i]) == residuals@[i]),
        disposition matches ReaderDisposition::Reject { reason } ==> (
        view matches ReaderViewState::Rejected { reason: shown } && shown == reason),
{
    match disposition {
        ReaderDisposition::ExecuteBoundedWhy(cone) => {
            assert(residual_items(cone.qualifier) == (if cone.qualifier is Residualised {
                seq![cone.qualifier->0]
            } else {
                Seq::<String>::empty()
            }));
            assert(residual_items(cone.defeater) == (if cone.defeater is Residualised {
                seq![cone.defeater->0]
            } else {
                Seq::<String>::empty()
            }));
            assert(residual_items(cone.comparator) == (if cone.comparator is Residualised {
                seq![cone.comparator->0]
            } else {
                Seq::<String>::empty()
            }));
        },
        _ => {},
    }
}

} // verus!
