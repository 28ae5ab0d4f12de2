use solfunmeme_dioxus::reader_model::{CoordinateCoverage, ExplanationCone, ReaderDisposition};
use solfunmeme_dioxus::semantic_reader::{render_state, ReaderViewState};

const PROPOSITION: &str = "mabo:proposition:radical-title-native-title";
const SOURCE_REVISION: &str = "source-revision:mabo:1992:hca:23:wikisource:page-39:rev-16058297:2026-06-29";
const SPAN: &str = "span:mabo:brennan:radical-title:no-automatic-beneficial-ownership";

/// The bounded explanation that the evaluator hands back for a why-claim on
/// the bounded Mabo payment: paid source, one support observation, three
/// residual coordinates, neither applicability nor claim truth paid.
fn bounded_why() -> ReaderDisposition {
    ReaderDisposition::ExecuteBoundedWhy(ExplanationCone {
        proposition_ref: PROPOSITION.to_string(),
        source_revision_ref: SOURCE_REVISION.to_string(),
        span_ref: SPAN.to_string(),
        support_refs: vec!["observation:mabo:radical-title:support".into()],
        qualifier: CoordinateCoverage::Residualised("reader-residual:qualifier".into()),
        defeater: CoordinateCoverage::Residualised("reader-residual:defeater".into()),
        comparator: CoordinateCoverage::Residualised("reader-residual:comparator".into()),
        applicability_paid: false,
        claim_truth_paid: false,
    })
}

#[test]
fn bounded_why_is_projected_without_promoting_applicability_or_truth() {
    let view = render_state(bounded_why());

    match view {
        ReaderViewState::Explanation {
            proposition_ref,
            source_revision_ref,
            span_ref,
            support_refs,
            residual_refs,
            applicability_paid,
            claim_truth_paid,
        } => {
            assert_eq!(proposition_ref, PROPOSITION);
            assert_eq!(source_revision_ref, SOURCE_REVISION);
            assert_eq!(span_ref, SPAN);
            assert_eq!(support_refs, vec!["observation:mabo:radical-title:support"]);
            assert_eq!(
                residual_refs,
                vec![
                    "reader-residual:qualifier",
                    "reader-residual:defeater",
                    "reader-residual:comparator",
                ]
            );
            assert!(!applicability_paid);
            assert!(!claim_truth_paid);
        }
        other => panic!("expected bounded explanation, got {other:?}"),
    }
}

#[test]
fn source_only_payment_executes_source_but_defers_why() {
    // What the evaluator decides for a source-only payment: the source is
    // executed, a why-claim is deferred on the missing proposition support.
    let open_source = ReaderDisposition::ExecuteSource {
        proposition_ref: PROPOSITION.to_string(),
        source_revision_ref: SOURCE_REVISION.to_string(),
        span_ref: SPAN.to_string(),
    };
    let why = ReaderDisposition::Defer(vec!["reader-residual:proposition-support".to_string()]);

    assert!(matches!(
        render_state(open_source),
        ReaderViewState::Source {
            proposition_ref,
            source_revision_ref,
            span_ref,
        } if proposition_ref == PROPOSITION
            && source_revision_ref == SOURCE_REVISION
            && span_ref == SPAN
    ));

    assert!(matches!(
        render_state(why),
        ReaderViewState::Deferred { residual_refs }
            if residual_refs.iter().any(|residual| residual == "reader-residual:proposition-support")
    ));
}

#[test]
fn paid_coordinates_are_not_listed_as_open() {
    let disposition = ReaderDisposition::ExecuteBoundedWhy(ExplanationCone {
        proposition_ref: "p".to_string(),
        source_revision_ref: "r".to_string(),
        span_ref: "s".to_string(),
        support_refs: vec![],
        qualifier: CoordinateCoverage::Paid { evidence_refs: vec!["e1".to_string()] },
        defeater: CoordinateCoverage::Residualised("res:defeater".into()),
        comparator: CoordinateCoverage::Paid { evidence_refs: vec![] },
        applicability_paid: true,
        claim_truth_paid: false,
    });
    match render_state(disposition) {
        ReaderViewState::Explanation { residual_refs, support_refs, applicability_paid, claim_truth_paid, .. } => {
            assert_eq!(residual_refs, vec!["res:defeater"]);
            assert!(support_refs.is_empty());
            assert!(applicability_paid);
            assert!(!claim_truth_paid);
        }
        other => panic!("expected bounded explanation, got {other:?}"),
    }
}

#[test]
fn rejection_and_deferral_are_carried_unchanged() {
    assert_eq!(
        render_state(ReaderDisposition::Reject { reason: "no authority".to_string() }),
        ReaderViewState::Rejected { reason: "no authority".to_string() }
    );
    assert_eq!(
        render_state(ReaderDisposition::Defer(vec!["a".to_string(), "b".to_string()])),
        ReaderViewState::Deferred { residual_refs: vec!["a".to_string(), "b".to_string()] }
    );
    assert_eq!(
        render_state(ReaderDisposition::Defer(vec![])),
        ReaderViewState::Deferred { residual_refs: vec![] }
    );
}

#[test]
fn residual_ref_names_only_residualised_coordinates() {
    let residual = CoordinateCoverage::Residualised("r".to_string());
    let paid = CoordinateCoverage::Paid { evidence_refs: vec!["e".to_string()] };
    assert_eq!(residual.residual_ref(), Some(&"r".to_string()));
    assert_eq!(paid.residual_ref(), None);
}
