use solfunmeme_dioxus::reader_model::{CoordinateCoverage, ExplanationCone, ReaderDisposition};
use solfunmeme_dioxus::semantic_reader::{render_state, ReaderViewState};
use solfunmeme_dioxus::semantic_reader::mabo::{
    MABO_BRENNAN_SPAN_REF, MABO_PROPOSITION_REF, MABO_SOURCE_REVISION_REF,
};
use solfunmeme_dioxus::visualisation::{ProofConeVisualIR, VisualNodeKind};

const MABO_PROP: &str = "mabo:proposition:radical-title-native-title";
const MABO_REV: &str = "source-revision:mabo-hca23";
const MABO_SPAN: &str = "span:mabo:brennan:radical-title:no-automatic-beneficial-ownership";

/// The cone that a why-claim on the bounded Mabo payment resolves to.
fn mabo_cone() -> ExplanationCone {
    ExplanationCone {
        proposition_ref: MABO_PROP.to_string(),
        source_revision_ref: MABO_REV.to_string(),
        span_ref: MABO_SPAN.to_string(),
        support_refs: vec!["observation:mabo:radical-title:brennan-p39".into()],
        qualifier: CoordinateCoverage::Residualised("reader-residual:qualifier".into()),
        defeater: CoordinateCoverage::Residualised("reader-residual:defeater".into()),
        comparator: CoordinateCoverage::Residualised("reader-residual:comparator".into()),
        applicability_paid: false,
        claim_truth_paid: false,
    }
}

#[test]
fn test_proof_cone_visual_ir_deterministic_projection() {
    let cone = mabo_cone();

    let visual_ir = ProofConeVisualIR::from_explanation_cone(&cone);

    assert_eq!(visual_ir.root_id, MABO_PROP);
    assert!(!visual_ir.applicability_paid);
    assert!(!visual_ir.claim_truth_paid);

    // Nodes: root (1) + source span (1) + support (1) + 3 residuals (3) = 6 nodes
    assert_eq!(visual_ir.nodes.len(), 6);
    // Edges: root->source (1) + root->support (1) + root->qualifier (1) + root->defeater (1) + root->comparator (1) = 5 edges
    assert_eq!(visual_ir.edges.len(), 5);

    // Verify root node
    let root = visual_ir.nodes.iter().find(|n| n.id == MABO_PROP).unwrap();
    assert_eq!(root.kind, VisualNodeKind::Proposition);
    assert!(!root.is_residual);

    // Verify source span node
    let span_node = visual_ir.nodes.iter().find(|n| n.id == MABO_SPAN).unwrap();
    assert_eq!(span_node.kind, VisualNodeKind::SourceSpan);
    assert!(!span_node.is_residual);

    // Verify residual nodes
    let qualifier_node = visual_ir
        .nodes
        .iter()
        .find(|n| n.id == "qualifier:residual")
        .unwrap();
    assert_eq!(qualifier_node.kind, VisualNodeKind::ResidualCoordinate);
    assert!(qualifier_node.is_residual);
    assert_eq!(qualifier_node.label, "reader-residual:qualifier");

    // Verify residual edges
    let qualifier_edge = visual_ir
        .edges
        .iter()
        .find(|e| e.target_id == "qualifier:residual")
        .unwrap();
    assert!(qualifier_edge.is_residual);
    assert_eq!(qualifier_edge.relation, "residual_qualifier");
}

#[test]
fn canonical_mabo_constants_match_the_cone() {
    assert_eq!(MABO_PROPOSITION_REF, MABO_PROP);
    assert_eq!(MABO_SOURCE_REVISION_REF, MABO_REV);
    assert_eq!(MABO_BRENNAN_SPAN_REF, MABO_SPAN);
}

#[test]
fn source_span_label_joins_revision_and_span() {
    let ir = ProofConeVisualIR::from_explanation_cone(&mabo_cone());
    assert_eq!(ir.nodes[1].id, MABO_SPAN);
    assert_eq!(ir.nodes[1].label, format!("{}:{}", MABO_REV, MABO_SPAN));
    assert_eq!(ir.edges[0].source_id, MABO_PROP);
    assert_eq!(ir.edges[0].target_id, MABO_SPAN);
    assert_eq!(ir.edges[0].relation, "exact_source_span");
}

#[test]
fn paid_coordinates_become_numbered_support_nodes() {
    let supports: Vec<String> = (0..12).map(|i| format!("obs-{i}")).collect();
    let cone = ExplanationCone {
        proposition_ref: "p".to_string(),
        source_revision_ref: "rev".to_string(),
        span_ref: "span".to_string(),
        support_refs: supports.clone(),
        qualifier: CoordinateCoverage::Paid { evidence_refs: vec!["ev-a".into(), "ev-b".into()] },
        defeater: CoordinateCoverage::Paid { evidence_refs: vec![] },
        comparator: CoordinateCoverage::Residualised("open-comparator".into()),
        applicability_paid: true,
        claim_truth_paid: true,
    };
    let ir = ProofConeVisualIR::from_explanation_cone(&cone);
    // 2 + 12 supports + 2 qualifier evidence + 0 defeater + 1 comparator residual
    assert_eq!(ir.nodes.len(), 17);
    assert_eq!(ir.edges.len(), 16);
    assert!(ir.applicability_paid);
    assert!(ir.claim_truth_paid);

    for i in 0..12 {
        assert_eq!(ir.nodes[2 + i].id, format!("support:{}", i));
        assert_eq!(ir.nodes[2 + i].label, supports[i]);
        assert_eq!(ir.nodes[2 + i].kind, VisualNodeKind::SupportObservation);
        assert_eq!(ir.edges[1 + i].target_id, format!("support:{}", i));
        assert_eq!(ir.edges[1 + i].relation, "supports_proposition");
    }
    assert_eq!(ir.nodes[11].id, "support:9");
    assert_eq!(ir.nodes[12].id, "support:10");
    assert_eq!(ir.nodes[13].id, "support:11");

    assert_eq!(ir.nodes[14].id, "qualifier:0:paid");
    assert_eq!(ir.nodes[14].label, "ev-a");
    assert_eq!(ir.nodes[15].id, "qualifier:1:paid");
    assert!(!ir.nodes[15].is_residual);
    assert_eq!(ir.edges[13].relation, "covered_qualifier");
    assert_eq!(ir.edges[14].target_id, "qualifier:1:paid");

    assert_eq!(ir.nodes[16].id, "comparator:residual");
    assert_eq!(ir.nodes[16].kind, VisualNodeKind::ResidualCoordinate);
    assert_eq!(ir.edges[15].relation, "residual_comparator");
    assert!(ir.edges[15].is_residual);

    for (k, edge) in ir.edges.iter().enumerate() {
        assert_eq!(edge.source_id, "p");
        assert_eq!(edge.target_id, ir.nodes[k + 1].id);
        assert_eq!(edge.is_residual, ir.nodes[k + 1].is_residual);
    }
}

#[test]
fn explanation_and_visual_ir_agree_on_residuals_and_flags() {
    let cone = ExplanationCone {
        proposition_ref: "prop".to_string(),
        source_revision_ref: "rev".to_string(),
        span_ref: "span".to_string(),
        support_refs: vec!["s0".to_string()],
        qualifier: CoordinateCoverage::Residualised("open-q".into()),
        defeater: CoordinateCoverage::Paid { evidence_refs: vec!["d0".into()] },
        comparator: CoordinateCoverage::Residualised("open-c".into()),
        applicability_paid: true,
        claim_truth_paid: false,
    };
    let ir = ProofConeVisualIR::from_explanation_cone(&cone);
    for node in &ir.nodes {
        assert_eq!(node.is_residual, node.kind == VisualNodeKind::ResidualCoordinate);
    }
    let residual_labels: Vec<String> =
        ir.nodes.iter().filter(|n| n.is_residual).map(|n| n.label.clone()).collect();
    match render_state(ReaderDisposition::ExecuteBoundedWhy(cone)) {
        ReaderViewState::Explanation {
            proposition_ref,
            residual_refs,
            applicability_paid,
            claim_truth_paid,
            ..
        } => {
            assert_eq!(proposition_ref, ir.root_id);
            assert_eq!(residual_refs, residual_labels);
            assert_eq!(residual_refs, vec!["open-q", "open-c"]);
            assert_eq!(applicability_paid, ir.applicability_paid);
            assert_eq!(claim_truth_paid, ir.claim_truth_paid);
        }
        other => panic!("expected bounded explanation, got {other:?}"),
    }
}
