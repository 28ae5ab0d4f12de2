//! Renderer-neutral visual IR for explanation cones.
//!
//! Converts a reader-side explanation cone into a node/edge graph for a
//! renderer, without creating or modifying semantic authority: every payment
//! verdict is copied from the cone, and every residual coordinate stays
//! marked as residual.
use vstd::prelude::*;
use vstd::string::*;
use crate::reader_model::{CoordinateCoverage, ExplanationCone};
use crate::text::{decimal, lemma_cancel_prefix, lemma_cancel_suffix, lemma_decimal_injective, push_decimal};
use crate::reader_model::ReaderDisposition;
use crate::semantic_reader::{open_coordinates, residual_items, shows, ReaderViewState};

verus! {

#[derive(Clone, Copy, Debug, Eq, PartialEq, Structural)]
pub enum VisualNodeKind {
    Proposition,
    SourceSpan,
    SupportObservation,
    ResidualCoordinate,
}

#[derive(Clone, Debug, PartialEq)]
pub struct VisualNode {
    pub id: String,
    pub label: String,
    pub kind: VisualNodeKind,
    pub is_residual: bool,
}

#[derive(Clone, Debug, PartialEq)]
pub struct VisualEdge {
    pub source_id: String,
    pub target_id: String,
    pub relation: String,
    pub is_residual: bool,
}

#[derive(Clone, Debug, PartialEq)]
pub struct ProofConeVisualIR {
    pub root_id: String,
    pub nodes: Vec<VisualNode>,
    pub edges: Vec<VisualEdge>,
    pub applicability_paid: bool,
    pub claim_truth_paid: bool,
}

/// A node with its strings taken as character sequences.
pub struct VisualNodeView {
    pub id: Seq<char>,
    pub label: Seq<char>,
    pub kind: VisualNodeKind,
    pub is_residual: bool,
}

/// An edge with its strings taken as character sequences.
pub struct VisualEdgeView {
    pub source_id: Seq<char>,
    pub target_id: Seq<char>,
    pub relation: Seq<char>,
    pub is_residual: bool,
}

impl View for VisualNode {
    type V = VisualNodeView;

    open spec fn view(&self) -> VisualNodeView {
        VisualNodeView {
            id: self.id@,
            label: self.label@,
            kind: self.kind,
            is_residual: self.is_residual,
        }
    }
}

impl View for VisualEdge {
    type V = VisualEdgeView;

    open spec fn view(&self) -> VisualEdgeView {
        VisualEdgeView {
            source_id: self.source_id@,
            target_id: self.target_id@,
            relation: self.relation@,
            is_residual: self.is_residual,
        }
    }
}

pub open spec fn node_views(nodes: Seq<VisualNode>) -> Seq<VisualNodeView> {
    nodes.map_values(|n: VisualNode| n@)
}

pub open spec fn edge_views(edges: Seq<VisualEdge>) -> Seq<VisualEdgeView> {
    edges.map_values(|e: VisualEdge| e@)
}

pub open spec fn node_of(
    id: Seq<char>,
    label: Seq<char>,
    kind: VisualNodeKind,
    is_residual: bool,
) -> VisualNodeView {
    VisualNodeView { id, label, kind, is_residual }
}

pub open spec fn edge_of(
    source_id: Seq<char>,
    target_id: Seq<char>,
    relation: Seq<char>,
    is_residual: bool,
) -> VisualEdgeView {
    VisualEdgeView { source_id, target_id, relation, is_residual }
}

/// Id of the `i`-th support observation: `support:{i}`.
pub open spec fn support_id(i: nat) -> Seq<char> {
    "support:"@ + decimal(i)
}

/// Id of the `i`-th evidence item paying coordinate `role`: `{role}:{i}:paid`.
pub open spec fn paid_id(role: Seq<char>, i: nat) -> Seq<char> {
    role + ":"@ + decimal(i) + ":paid"@
}

/// Id of the residual node of coordinate `role`: `{role}:residual`.
pub open spec fn residual_id(role: Seq<char>) -> Seq<char> {
    role + ":residual"@
}

pub open spec fn support_nodes(supports: Seq<String>) -> Seq<VisualNodeView> {
    Seq::new(
        supports.len(),
        |i: int|
            node_of(support_id(i as nat), supports[i]@, VisualNodeKind::SupportObservation, false),
    )
}

pub open spec fn support_edges(root: Seq<char>, count: nat) -> Seq<VisualEdgeView> {
    Seq::new(
        count,
        |i: int| edge_of(root, support_id(i as nat), "supports_proposition"@, false),
    )
}

/// The nodes that coordinate `role` contributes: one per paying evidence
/// item, or the single residual node.
pub open spec fn coverage_nodes(role: Seq<char>, coverage: CoordinateCoverage) -> Seq<
    VisualNodeView,
> {
    match coverage {
        CoordinateCoverage::Paid { evidence_refs } => Seq::new(
            evidence_refs@.len(),
            |i: int|
                node_of(
                    paid_id(role, i as nat),
                    evidence_refs@[i]@,
                    VisualNodeKind::SupportObservation,
                    false,
                ),
        ),
        CoordinateCoverage::Residualised(r) => seq![
            node_of(residual_id(role), r@, VisualNodeKind::ResidualCoordinate, true),
        ],
    }
}

/// The edges from the root that coordinate `role` contributes.
pub open spec fn coverage_edges(
    root: Seq<char>,
    role: Seq<char>,
    coverage: CoordinateCoverage,
) -> Seq<VisualEdgeView> {
    match coverage {
        CoordinateCoverage::Paid { evidence_refs } => Seq::new(
            evidence_refs@.len(),
            |i: int| edge_of(root, paid_id(role, i as nat), "covered_"@ + role, false),
        ),
        CoordinateCoverage::Residualised(r) => seq![
            edge_of(root, residual_id(role), "residual_"@ + role, true),
        ],
    }
}

/// All nodes of a cone's visual IR, in order: the proposition, its exact
/// source span, the support observations, then the qualifier, defeater and
/// comparator coordinates.
pub open spec fn cone_nodes(cone: ExplanationCone) -> Seq<VisualNodeView> {
    seq![
        node_of(
            cone.proposition_ref@,
            cone.proposition_ref@,
            VisualNodeKind::Proposition,
            false,
        ),
        node_of(
            cone.span_ref@,
            cone.source_revision_ref@ + ":"@ + cone.span_ref@,
            VisualNodeKind::SourceSpan,
            false,
        ),
    ] + support_nodes(cone.support_refs@) + coverage_nodes("qualifier"@, cone.qualifier)
        + coverage_nodes("defeater"@, cone.defeater) + coverage_nodes(
        "comparator"@,
        cone.comparator,
    )
}

/// All edges of a cone's visual IR, in order, each leaving the proposition.
pub open spec fn cone_edges(cone: ExplanationCone) -> Seq<VisualEdgeView> {
    let root = cone.proposition_ref@;
    seq![edge_of(root, cone.span_ref@, "exact_source_span"@, false)] + support_edges(
        root,
        cone.support_refs@.len(),
    ) + coverage_edges(root, "qualifier"@, cone.qualifier) + coverage_edges(
        root,
        "defeater"@,
        cone.defeater,
    ) + coverage_edges(root, "comparator"@, cone.comparator)
}

/// `ir` is the visual IR of `cone`: rooted at its proposition, with exactly
/// the nodes and edges of `cone_nodes` and `cone_edges`, and with both payment
/// verdicts copied unchanged.
pub open spec fn projects(cone: ExplanationCone, ir: ProofConeVisualIR) -> bool {
    &&& ir.root_id@ == cone.proposition_ref@
    &&& node_views(ir.nodes@) == cone_nodes(cone)
    &&& edge_views(ir.edges@) == cone_edges(cone)
    &&& ir.applicability_paid == cone.applicability_paid
    &&& ir.claim_truth_paid == cone.claim_truth_paid
}

proof fn lemma_push_views(nodes: Seq<VisualNode>, n: VisualNode)
    ensures
        node_views(nodes.push(n)) =~= node_views(nodes).push(n@),
{
}

proof fn lemma_push_edge_views(edges: Seq<VisualEdge>, e: VisualEdge)
    ensures
        edge_views(edges.push(e)) =~= edge_views(edges).push(e@),
{
}

impl ProofConeVisualIR {
    /// Projects an explanation cone into its visual IR; see `cone_nodes` and
    /// `cone_edges` for the exact graph.
    pub fn from_explanation_cone(cone: &ExplanationCone) -> (ir: Self)
        ensures
            projects(*cone, ir),
    {
        let root_id = cone.proposition_ref.clone();
        let mut nodes: Vec<VisualNode> = Vec::new();
        let mut edges: Vec<VisualEdge> = Vec::new();
        let ghost root = root_id@;

        // Root proposition node
        nodes.push(
            VisualNode {
                id: root_id.clone(),
                label: root_id.clone(),
                kind: VisualNodeKind::Proposition,
                is_residual: false,
            },
        );

        // Exact source span node and edge
        let source_id = cone.span_ref.clone();
        let label = cone.source_revision_ref.clone().concat(":").concat(source_id.as_str());
        nodes.push(
            VisualNode {
                id: source_id.clone(),
                label,
                kind: VisualNodeKind::SourceSpan,
                is_residual: false,
            },
        );
        edges.push(
            VisualEdge {
                source_id: root_id.clone(),
                target_id: source_id,
                relation: "exact_source_span".to_owned(),
                is_residual: false,
            },
        );
        proof {
            assert(node_views(nodes@) =~= seq![
                node_of(root, root, VisualNodeKind::Proposition, false),
                node_of(
                    cone.span_ref@,
                    cone.source_revision_ref@ + ":"@ + cone.span_ref@,
                    VisualNodeKind::SourceSpan,
                    false,
                ),
            ]);
            assert(edge_views(edges@) =~= seq![
                edge_of(root, cone.span_ref@, "exact_source_span"@, false),
            ]);
        }
        let ghost head_nodes = node_views(nodes@);
        let ghost head_edges = edge_views(edges@);

        // Support observations
        let n_support = cone.support_refs.len();
        let mut idx: usize = 0;
        while idx < n_support
            invariant
                idx <= n_support,
                n_support == cone.support_refs@.len(),
                root_id@ == root,
                node_views(nodes@) =~= head_nodes + support_nodes(cone.support_refs@).take(
                    idx as int,
                ),
                edge_views(edges@) =~= head_edges + support_edges(root, n_support as nat).take(
                    idx as int,
                ),
            decreases n_support - idx,
        {
            let mut sup_id = "support:".to_owned();
            push_decimal(&mut sup_id, idx);
            let node = VisualNode {
                id: sup_id.clone(),
                label: cone.support_refs[idx].clone(),
                kind: VisualNodeKind::SupportObservation,
                is_residual: false,
            };
            let edge = VisualEdge {
                source_id: root_id.clone(),
                target_id: sup_id,
                relation: "supports_proposition".to_owned(),
                is_residual: false,
            };
            proof {
                lemma_push_views(nodes@, node);
                lemma_push_edge_views(edges@, edge);
                assert(support_nodes(cone.support_refs@).take(idx + 1) =~= support_nodes(
                    cone.support_refs@,
                ).take(idx as int).push(node@));
                assert(support_edges(root, n_support as nat).take(idx + 1) =~= support_edges(
                    root,
                    n_support as nat,
                ).take(idx as int).push(edge@));
            }
            nodes.push(node);
            edges.push(edge);
            idx = idx + 1;
        }
        proof {
            assert(support_nodes(cone.support_refs@).take(n_support as int) =~= support_nodes(
                cone.support_refs@,
            ));
            assert(support_edges(root, n_support as nat).take(n_support as int) =~= support_edges(
                root,
                n_support as nat,
            ));
        }

        // Qualifier, defeater, comparator
        Self::attach_coverage(root_id.as_str(), "qualifier", &cone.qualifier, &mut nodes, &mut edges);
        Self::attach_coverage(root_id.as_str(), "defeater", &cone.defeater, &mut nodes, &mut edges);
        Self::attach_coverage(
            root_id.as_str(),
            "comparator",
            &cone.comparator,
            &mut nodes,
            &mut edges,
        );
        proof {
            assert(node_views(nodes@) =~= cone_nodes(*cone));
            assert(edge_views(edges@) =~= cone_edges(*cone));
        }

        ProofConeVisualIR {
            root_id,
            nodes,
            edges,
            applicability_paid: cone.applicability_paid,
            claim_truth_paid: cone.claim_truth_paid,
        }
    }

    fn attach_coverage(
        root_id: &str,
        role: &str,
        coverage: &CoordinateCoverage,
        nodes: &mut Vec<VisualNode>,
        edges: &mut Vec<VisualEdge>,
    )
        ensures
            node_views(final(nodes)@) == node_views(old(nodes)@) + coverage_nodes(
                role@,
                *coverage,
            ),
            edge_views(final(edges)@) == edge_views(old(edges)@) + coverage_edges(
                root_id@,
                role@,
                *coverage,
            ),
    {
        match coverage {
            CoordinateCoverage::Paid { evidence_refs } => {
                let n = evidence_refs.len();
                let mut i: usize = 0;
                while i < n
                    invariant
                        i <= n,
                        n == evidence_refs@.len(),
                        *coverage == (CoordinateCoverage::Paid { evidence_refs: *evidence_refs }),
                        node_views(nodes@) =~= node_views(old(nodes)@) + coverage_nodes(
                            role@,
                            *coverage,
                        ).take(i as int),
                        edge_views(edges@) =~= edge_views(old(edges)@) + coverage_edges(
                            root_id@,
                            role@,
                            *coverage,
                        ).take(i as int),
                    decreases n - i,
                {
                    let mut node_id = role.to_owned().concat(":");
                    push_decimal(&mut node_id, i);
                    let node_id = node_id.concat(":paid");
                    let node = VisualNode {
                        id: node_id.clone(),
                        label: evidence_refs[i].clone(),
                        kind: VisualNodeKind::SupportObservation,
                        is_residual: false,
                    };
                    let edge = VisualEdge {
                        source_id: root_id.to_owned(),
                        target_id: node_id,
                        relation: "covered_".to_owned().concat(role),
                        is_residual: false,
                    };
                    proof {
                        lemma_push_views(nodes@, node);
                        lemma_push_edge_views(edges@, edge);
                        assert(coverage_nodes(role@, *coverage).take(i + 1) =~= coverage_nodes(
                            role@,
                            *coverage,
                        ).take(i as int).push(node@));
                        assert(coverage_edges(root_id@, role@, *coverage).take(i + 1)
                            =~= coverage_edges(root_id@, role@, *coverage).take(i as int).push(
                            edge@,
                        ));
                    }
                    nodes.push(node);
                    edges.push(edge);
                    i = i + 1;
                }
                proof {
                    assert(coverage_nodes(role@, *coverage).take(n as int) =~= coverage_nodes(
                        role@,
                        *coverage,
                    ));
                    assert(coverage_edges(root_id@, role@, *coverage).take(n as int)
                        =~= coverage_edges(root_id@, role@, *coverage));
                }
            },
            CoordinateCoverage::Residualised(res) => {
                let node_id = role.to_owned().concat(":residual");
                let node = VisualNode {
                    id: node_id.clone(),
                    label: res.clone(),
                    kind: VisualNodeKind::ResidualCoordinate,
                    is_residual: true,
                };
                let edge = VisualEdge {
                    source_id: root_id.to_owned(),
                    target_id: node_id,
                    relation: "residual_".to_owned().concat(role),
                    is_residual: true,
                };
                proof {
                    lemma_push_views(nodes@, node);
                    lemma_push_edge_views(edges@, edge);
                }
                nodes.push(node);
                edges.push(edge);
            },
        }
    }
}

/// The number of nodes (and of edges) that a coordinate contributes.
pub open spec fn coverage_size(coverage: CoordinateCoverage) -> nat {
    match coverage {
        CoordinateCoverage::Paid { evidence_refs } => evidence_refs@.len(),
        CoordinateCoverage::Residualised(_) => 1,
    }
}

/// Each edge leaves `root` and enters the node at the same position, and
/// carries that node's residual flag.
pub open spec fn edges_enter_nodes(
    root: Seq<char>,
    nodes: Seq<VisualNodeView>,
    edges: Seq<VisualEdgeView>,
) -> bool {
    &&& edges.len() == nodes.len()
    &&& forall|k: int|
        0 <= k < edges.len() ==> {
            &&& (#[trigger] edges[k]).source_id == root
            &&& edges[k].target_id == nodes[k].id
            &&& edges[k].is_residual == nodes[k].is_residual
        }
}

/// A node is flagged residual exactly when it is a residual coordinate.
pub open spec fn residual_flags_match_kinds(nodes: Seq<VisualNodeView>) -> bool {
    forall|k: int|
        0 <= k < nodes.len() ==> ((#[trigger] nodes[k]).is_residual <==> nodes[k].kind
            == VisualNodeKind::ResidualCoordinate)
}

proof fn lemma_edges_enter_nodes_concat(
    root: Seq<char>,
    n1: Seq<VisualNodeView>,
    e1: Seq<VisualEdgeView>,
    n2: Seq<VisualNodeView>,
    e2: Seq<VisualEdgeView>,
)
    requires
        edges_enter_nodes(root, n1, e1),
        edges_enter_nodes(root, n2, e2),
    ensures
        edges_enter_nodes(root, n1 + n2, e1 + e2),
{
    assert forall|k: int| 0 <= k < (e1 + e2).len() implies {
        &&& (#[trigger] (e1 + e2)[k]).source_id == root
        &&& (e1 + e2)[k].target_id == (n1 + n2)[k].id
        &&& (e1 + e2)[k].is_residual == (n1 + n2)[k].is_residual
    } by {
        if k < e1.len() {
            assert((e1 + e2)[k] == e1[k]);
            assert((n1 + n2)[k] == n1[k]);
        } else {
            assert((e1 + e2)[k] == e2[k - e1.len()]);
            assert((n1 + n2)[k] == n2[k - n1.len()]);
        }
    }
}

proof fn lemma_flags_concat(n1: Seq<VisualNodeView>, n2: Seq<VisualNodeView>)
    requires
        residual_flags_match_kinds(n1),
        residual_flags_match_kinds(n2),
    ensures
        residual_flags_match_kinds(n1 + n2),
{
    assert forall|k: int| 0 <= k < (n1 + n2).len() implies ((#[trigger] (n1 + n2)[k]).is_residual
        <==> (n1 + n2)[k].kind == VisualNodeKind::ResidualCoordinate) by {
        if k < n1.len() {
            assert((n1 + n2)[k] == n1[k]);
        } else {
            assert((n1 + n2)[k] == n2[k - n1.len()]);
        }
    }
}

proof fn lemma_coverage_shape(root: Seq<char>, role: Seq<char>, coverage: CoordinateCoverage)
    ensures
        coverage_nodes(role, coverage).len() == coverage_size(coverage),
        edges_enter_nodes(root, coverage_nodes(role, coverage), coverage_edges(root, role, coverage)),
        residual_flags_match_kinds(coverage_nodes(role, coverage)),
{
}

/// The graph of a cone is a star around the proposition: it has one node per
/// edge plus the root, the root node comes first, and the `k`-th edge leaves
/// the proposition and enters the `k + 1`-th node, carrying that node's
/// residual flag. The node count is two (proposition and source span) plus
/// one per support observation plus what each coordinate contributes.
pub proof fn lemma_cone_graph_is_a_star(cone: ExplanationCone)
    ensures
        cone_nodes(cone).len() == 2 + cone.support_refs@.len() + coverage_size(cone.qualifier)
            + coverage_size(cone.defeater) + coverage_size(cone.comparator),
        cone_edges(cone).len() + 1 == cone_nodes(cone).len(),
        cone_nodes(cone)[0].id == cone.proposition_ref@,
        cone_nodes(cone)[0].kind == VisualNodeKind::Proposition,
        edges_enter_nodes(cone.proposition_ref@, cone_nodes(cone).drop_first(), cone_edges(cone)),
{
    let root = cone.proposition_ref@;
    let head_n = seq![
        node_of(
            cone.span_ref@,
            cone.source_revision_ref@ + ":"@ + cone.span_ref@,
            VisualNodeKind::SourceSpan,
            false,
        ),
    ];
    let head_e = seq![edge_of(root, cone.span_ref@, "exact_source_span"@, false)];
    let sup_n = support_nodes(cone.support_refs@);
    let sup_e = support_edges(root, cone.support_refs@.len());
    assert(edges_enter_nodes(root, head_n, head_e));
    assert(edges_enter_nodes(root, sup_n, sup_e));
    lemma_coverage_shape(root, "qualifier"@, cone.qualifier);
    lemma_coverage_shape(root, "defeater"@, cone.defeater);
    lemma_coverage_shape(root, "comparator"@, cone.comparator);
    lemma_edges_enter_nodes_concat(root, head_n, head_e, sup_n, sup_e);
    lemma_edges_enter_nodes_concat(
        root,
        head_n + sup_n,
        head_e + sup_e,
        coverage_nodes("qualifier"@, cone.qualifier),
        coverage_edges(root, "qualifier"@, cone.qualifier),
    );
    lemma_edges_enter_nodes_concat(
        root,
        head_n + sup_n + coverage_nodes("qualifier"@, cone.qualifier),
        head_e + sup_e + coverage_edges(root, "qualifier"@, cone.qualifier),
        coverage_nodes("defeater"@, cone.defeater),
        coverage_edges(root, "defeater"@, cone.defeater),
    );
    lemma_edges_enter_nodes_concat(
        root,
        head_n + sup_n + coverage_nodes("qualifier"@, cone.qualifier) + coverage_nodes(
            "defeater"@,
            cone.defeater,
        ),
        head_e + sup_e + coverage_edges(root, "qualifier"@, cone.qualifier) + coverage_edges(
            root,
            "defeater"@,
            cone.defeater,
        ),
        coverage_nodes("comparator"@, cone.comparator),
        coverage_edges(root, "comparator"@, cone.comparator),
    );
    assert(cone_nodes(cone).drop_first() =~= head_n + sup_n + coverage_nodes(
        "qualifier"@,
        cone.qualifier,
    ) + coverage_nodes("defeater"@, cone.defeater) + coverage_nodes(
        "comparator"@,
        cone.comparator,
    ));
    assert(cone_edges(cone) =~= head_e + sup_e + coverage_edges(root, "qualifier"@, cone.qualifier)
        + coverage_edges(root, "defeater"@, cone.defeater) + coverage_edges(
        root,
        "comparator"@,
        cone.comparator,
    ));
}

/// Residual markers are never lost or invented: in a cone's graph a node is
/// flagged residual exactly when it is a residual coordinate, and (by the
/// star law) so is the edge that enters it.
pub proof fn lemma_residual_flag_is_kind(cone: ExplanationCone)
    ensures
        residual_flags_match_kinds(cone_nodes(cone)),
{
    let head = seq![
        node_of(
            cone.proposition_ref@,
            cone.proposition_ref@,
            VisualNodeKind::Proposition,
            false,
        ),
        node_of(
            cone.span_ref@,
            cone.source_revision_ref@ + ":"@ + cone.span_ref@,
            VisualNodeKind::SourceSpan,
            false,
        ),
    ];
    let sup = support_nodes(cone.support_refs@);
    assert(residual_flags_match_kinds(head));
    assert(residual_flags_match_kinds(sup));
    lemma_coverage_shape(cone.proposition_ref@, "qualifier"@, cone.qualifier);
    lemma_coverage_shape(cone.proposition_ref@, "defeater"@, cone.defeater);
    lemma_coverage_shape(cone.proposition_ref@, "comparator"@, cone.comparator);
    lemma_flags_concat(head, sup);
    lemma_flags_concat(head + sup, coverage_nodes("qualifier"@, cone.qualifier));
    lemma_flags_concat(
        head + sup + coverage_nodes("qualifier"@, cone.qualifier),
        coverage_nodes("defeater"@, cone.defeater),
    );
    lemma_flags_concat(
        head + sup + coverage_nodes("qualifier"@, cone.qualifier) + coverage_nodes(
            "defeater"@,
            cone.defeater,
        ),
        coverage_nodes("comparator"@, cone.comparator),
    );
}

/// The labels of the residual nodes, in node order.
pub open spec fn residual_labels(nodes: Seq<VisualNodeView>) -> Seq<Seq<char>>
    decreases nodes.len(),
{
    if nodes.len() == 0 {
        Seq::empty()
    } else {
        residual_labels(nodes.drop_last()) + if nodes.last().is_residual {
            seq![nodes.last().label]
        } else {
            Seq::empty()
        }
    }
}

proof fn lemma_residual_labels_concat(a: Seq<VisualNodeView>, b: Seq<VisualNodeView>)
    ensures
        residual_labels(a + b) == residual_labels(a) + residual_labels(b),
    decreases b.len(),
{
    if b.len() == 0 {
        assert(a + b =~= a);
        assert(residual_labels(a) + residual_labels(b) =~= residual_labels(a));
    } else {
        lemma_residual_labels_concat(a, b.drop_last());
        assert((a + b).drop_last() =~= a + b.drop_last());
        assert((a + b).last() == b.last());
        let tail: Seq<Seq<char>> = if b.last().is_residual {
            seq![b.last().label]
        } else {
            Seq::empty()
        };
        assert(residual_labels(a) + residual_labels(b.drop_last()) + tail =~= residual_labels(a)
            + (residual_labels(b.drop_last()) + tail));
    }
}

proof fn lemma_no_residual_labels(nodes: Seq<VisualNodeView>)
    requires
        forall|k: int| 0 <= k < nodes.len() ==> !(#[trigger] nodes[k]).is_residual,
    ensures
        residual_labels(nodes) == Seq::<Seq<char>>::empty(),
    decreases nodes.len(),
{
    if nodes.len() > 0 {
        assert(!nodes[nodes.len() - 1].is_residual);
        assert forall|k: int| 0 <= k < nodes.drop_last().len() implies !(
        #[trigger] nodes.drop_last()[k]).is_residual by {
            assert(nodes.drop_last()[k] == nodes[k]);
        }
        lemma_no_residual_labels(nodes.drop_last());
        assert(residual_labels(nodes) =~= Seq::<Seq<char>>::empty());
    }
}

proof fn lemma_coverage_residual_labels(role: Seq<char>, coverage: CoordinateCoverage)
    ensures
        residual_labels(coverage_nodes(role, coverage)) == residual_items(coverage).map_values(
            |r: String| r@,
        ),
{
    match coverage {
        CoordinateCoverage::Paid { evidence_refs } => {
            lemma_no_residual_labels(coverage_nodes(role, coverage));
            assert(residual_items(coverage).map_values(|r: String| r@) =~= Seq::<
                Seq<char>,
            >::empty());
        },
        CoordinateCoverage::Residualised(r) => {
            let ns = coverage_nodes(role, coverage);
            assert(ns.drop_last() =~= Seq::<VisualNodeView>::empty());
            assert(residual_labels(ns.drop_last()) =~= Seq::<Seq<char>>::empty());
            assert(residual_labels(ns) =~= seq![r@]);
            assert(residual_items(coverage).map_values(|r: String| r@) =~= seq![r@]);
        },
    }
}

/// The reader's bounded explanation and the visual IR of the same cone agree:
/// the explanation's proposition is the graph's root, its open coordinates
/// are, in order, the labels of the graph's residual nodes, and both carry
/// the same applicability and claim-truth verdicts (those of the cone).
pub proof fn lemma_explanation_agrees_with_visual_ir(
    cone: ExplanationCone,
    view: ReaderViewState,
    ir: ProofConeVisualIR,
)
    requires
        shows(ReaderDisposition::ExecuteBoundedWhy(cone), view),
        projects(cone, ir),
    ensures
        view matches ReaderViewState::Explanation {
            proposition_ref,
            residual_refs,
            applicability_paid,
            claim_truth_paid,
            ..
        } ==> {
            &&& proposition_ref@ == ir.root_id@
            &&& residual_refs@.map_values(|r: String| r@) == residual_labels(node_views(ir.nodes@))
            &&& applicability_paid == ir.applicability_paid
            &&& claim_truth_paid == ir.claim_truth_paid
        },
        view is Explanation,
{
    let head = seq![
        node_of(
            cone.proposition_ref@,
            cone.proposition_ref@,
            VisualNodeKind::Proposition,
            false,
        ),
        node_of(
            cone.span_ref@,
            cone.source_revision_ref@ + ":"@ + cone.span_ref@,
            VisualNodeKind::SourceSpan,
            false,
        ),
    ];
    let sup = support_nodes(cone.support_refs@);
    let q = coverage_nodes("qualifier"@, cone.qualifier);
    let d = coverage_nodes("defeater"@, cone.defeater);
    let c = coverage_nodes("comparator"@, cone.comparator);
    lemma_no_residual_labels(head);
    lemma_no_residual_labels(sup);
    lemma_coverage_residual_labels("qualifier"@, cone.qualifier);
    lemma_coverage_residual_labels("defeater"@, cone.defeater);
    lemma_coverage_residual_labels("comparator"@, cone.comparator);
    lemma_residual_labels_concat(head, sup);
    lemma_residual_labels_concat(head + sup, q);
    lemma_residual_labels_concat(head + sup + q, d);
    lemma_residual_labels_concat(head + sup + q + d, c);
    let f = |r: String| r@;
    assert(open_coordinates(cone).map_values(f) =~= residual_items(cone.qualifier).map_values(f)
        + residual_items(cone.defeater).map_values(f) + residual_items(cone.comparator).map_values(
        f,
    ));
    assert(residual_labels(cone_nodes(cone)) =~= residual_items(cone.qualifier).map_values(f)
        + residual_items(cone.defeater).map_values(f) + residual_items(cone.comparator).map_values(
        f,
    ));
}

/// Generated ids do not collide: the support observations of a cone get
/// pairwise distinct ids, and so do the evidence items paying one coordinate.
pub proof fn lemma_generated_ids_distinct(role: Seq<char>, i: nat, j: nat)
    requires
        i != j,
    ensures
        support_id(i) != support_id(j),
        paid_id(role, i) != paid_id(role, j),
{
    if support_id(i) == support_id(j) {
        lemma_cancel_prefix("support:"@, decimal(i), decimal(j));
        lemma_decimal_injective(i, j);
    }
    if paid_id(role, i) == paid_id(role, j) {
        lemma_cancel_suffix(role + ":"@ + decimal(i), role + ":"@ + decimal(j), ":paid"@);
        assert(role + ":"@ + decimal(i) =~= (role + ":"@) + decimal(i));
        assert(role + ":"@ + decimal(j) =~= (role + ":"@) + decimal(j));
        lemma_cancel_prefix(role + ":"@, decimal(i), decimal(j));
        lemma_decimal_injective(i, j);
    }
}

/// Entry `i` of coordinate `role`, laid out from node position `at` (its
/// edges start one position earlier, the root having no edge): for a paid
/// coordinate with at least `i + 1` evidence references, node `at + i` is a
/// support node with id `{role}:{i}:paid` labelled with the `i`-th evidence
/// reference itself, entered by a non-residual edge from the root named
/// `covered_{role}`; for a residual coordinate, node `at` is the residual
/// node `{role}:residual` labelled with the residual reference, entered by a
/// residual edge named `residual_{role}`.
pub open spec fn coordinate_entry_shown(
    nodes: Seq<VisualNode>,
    edges: Seq<VisualEdge>,
    root: Seq<char>,
    at: int,
    role: Seq<char>,
    coverage: CoordinateCoverage,
    i: int,
) -> bool {
    match coverage {
        CoordinateCoverage::Paid { evidence_refs } => 0 <= i < evidence_refs@.len() ==> {
            &&& nodes[at + i].id@ =~= role + ":"@ + decimal(i as nat) + ":paid"@
            &&& nodes[at + i].label@ =~= evidence_refs@[i]@
            &&& nodes[at + i].kind == VisualNodeKind::SupportObservation
            &&& !nodes[at + i].is_residual
            &&& edges[at - 1 + i].source_id@ =~= root
            &&& edges[at - 1 + i].target_id@ =~= nodes[at + i].id@
            &&& edges[at - 1 + i].relation@ =~= "covered_"@ + role
            &&& !edges[at - 1 + i].is_residual
        },
        CoordinateCoverage::Residualised(r) => {
            &&& nodes[at].id@ =~= role + ":residual"@
            &&& nodes[at].label@ =~= r@
            &&& nodes[at].kind == VisualNodeKind::ResidualCoordinate
            &&& nodes[at].is_residual
            &&& edges[at - 1].source_id@ =~= root
            &&& edges[at - 1].target_id@ =~= nodes[at].id@
            &&& edges[at - 1].relation@ =~= "residual_"@ + role
            &&& edges[at - 1].is_residual
        },
    }
}

proof fn lemma_entry_from_views(
    nodes: Seq<VisualNode>,
    edges: Seq<VisualEdge>,
    root: Seq<char>,
    at: int,
    role: Seq<char>,
    coverage: CoordinateCoverage,
    i: int,
)
    requires
        1 <= at,
        at + coverage_size(coverage) <= nodes.len(),
        at - 1 + coverage_size(coverage) <= edges.len(),
        forall|j: int|
            0 <= j < coverage_size(coverage) ==> nodes[at + j]@ == #[trigger] coverage_nodes(
                role,
                coverage,
            )[j] && edges[at - 1 + j]@ == coverage_edges(root, role, coverage)[j],
    ensures
        coordinate_entry_shown(nodes, edges, root, at, role, coverage, i),
{
    match coverage {
        CoordinateCoverage::Paid { evidence_refs } => {
            if 0 <= i < evidence_refs@.len() {
                assert(nodes[at + i]@ == coverage_nodes(role, coverage)[i]);
                assert(edges[at - 1 + i]@ == coverage_edges(root, role, coverage)[i]);
            }
        },
        CoordinateCoverage::Residualised(r) => {
            assert(nodes[at + 0]@ == coverage_nodes(role, coverage)[0]);
            assert(edges[at - 1 + 0]@ == coverage_edges(root, role, coverage)[0]);
        },
    }
}

/// The fixed head of a cone's graph: node 0 is the proposition, with the
/// proposition reference as both id and label; node 1 is the exact source
/// span, labelled `{revision}:{span}` and entered from the root by the
/// `exact_source_span` edge. None of these is residual.
pub proof fn lemma_head_laid_out(cone: ExplanationCone, ir: ProofConeVisualIR)
    requires
        projects(cone, ir),
    ensures
        ir.nodes@.len() >= 2 + cone.support_refs@.len(),
        ir.edges@.len() >= 1 + cone.support_refs@.len(),
        ir.root_id@ == cone.proposition_ref@,
        ir.nodes@[0].id@ == cone.proposition_ref@,
        ir.nodes@[0].label@ == cone.proposition_ref@,
        ir.nodes@[0].kind == VisualNodeKind::Proposition,
        !ir.nodes@[0].is_residual,
        ir.nodes@[1].id@ == cone.span_ref@,
        ir.nodes@[1].label@ == cone.source_revision_ref@ + ":"@ + cone.span_ref@,
        ir.nodes@[1].kind == VisualNodeKind::SourceSpan,
        !ir.nodes@[1].is_residual,
        ir.edges@[0].source_id@ == cone.proposition_ref@,
        ir.edges@[0].target_id@ == cone.span_ref@,
        ir.edges@[0].relation@ == "exact_source_span"@,
        !ir.edges@[0].is_residual,
{
    lemma_cone_graph_is_a_star(cone);
    let nv = node_views(ir.nodes@);
    let ev = edge_views(ir.edges@);
    assert(nv.len() == ir.nodes@.len());
    assert(ev.len() == ir.edges@.len());
    assert(ir.nodes@[0]@ == cone_nodes(cone)[0]);
    assert(ir.nodes@[1]@ == cone_nodes(cone)[1]);
    assert(ir.edges@[0]@ == cone_edges(cone)[0]);
}

/// Support observation `i` of a cone is node `2 + i`: id `support:{i}`,
/// labelled with that very observation, entered from the root by a
/// non-residual `supports_proposition` edge.
pub proof fn lemma_support_laid_out(cone: ExplanationCone, ir: ProofConeVisualIR, i: int)
    requires
        projects(cone, ir),
        0 <= i < cone.support_refs@.len(),
    ensures
        ir.nodes@[2 + i].id@ == "support:"@ + decimal(i as nat),
        ir.nodes@[2 + i].label@ == cone.support_refs@[i]@,
        ir.nodes@[2 + i].kind == VisualNodeKind::SupportObservation,
        !ir.nodes@[2 + i].is_residual,
        ir.edges@[1 + i].source_id@ == cone.proposition_ref@,
        ir.edges@[1 + i].target_id@ == ir.nodes@[2 + i].id@,
        ir.edges@[1 + i].relation@ == "supports_proposition"@,
        !ir.edges@[1 + i].is_residual,
{
    lemma_cone_graph_is_a_star(cone);
    let nv = node_views(ir.nodes@);
    let ev = edge_views(ir.edges@);
    assert(nv.len() == ir.nodes@.len());
    assert(ev.len() == ir.edges@.len());
    let cn = cone_nodes(cone);
    let ce = cone_edges(cone);
    let root = cone.proposition_ref@;
    let s = cone.support_refs@.len();
    let head = seq![
        node_of(root, root, VisualNodeKind::Proposition, false),
        node_of(
            cone.span_ref@,
            cone.source_revision_ref@ + ":"@ + cone.span_ref@,
            VisualNodeKind::SourceSpan,
            false,
        ),
    ];
    let sup = support_nodes(cone.support_refs@);
    let he = seq![edge_of(root, cone.span_ref@, "exact_source_span"@, false)];
    let se = support_edges(root, s);
    assert(cn == head + sup + coverage_nodes("qualifier"@, cone.qualifier) + coverage_nodes(
        "defeater"@,
        cone.defeater,
    ) + coverage_nodes("comparator"@, cone.comparator));
    assert(ce == he + se + coverage_edges(root, "qualifier"@, cone.qualifier) + coverage_edges(
        root,
        "defeater"@,
        cone.defeater,
    ) + coverage_edges(root, "comparator"@, cone.comparator));
    assert(ir.nodes@[2 + i]@ == nv[2 + i]);
    assert(ir.edges@[1 + i]@ == ev[1 + i]);
    assert((head + sup)[2 + i] == sup[i]);
    assert(cn[2 + i] == (head + sup)[2 + i]);
    assert((he + se)[1 + i] == se[i]);
    assert(ce[1 + i] == (he + se)[1 + i]);
}

/// The three coordinates follow the supports in qualifier, defeater,
/// comparator order and end the graph; entry `i` of each is laid out as
/// `coordinate_entry_shown` says.
pub proof fn lemma_coordinates_laid_out(cone: ExplanationCone, ir: ProofConeVisualIR, i: int)
    requires
        projects(cone, ir),
    ensures
        ({
            let q_at: int = 2 + cone.support_refs@.len() as int;
            let d_at: int = q_at + coverage_size(cone.qualifier);
            let c_at: int = d_at + coverage_size(cone.defeater);
            &&& ir.nodes@.len() == c_at + coverage_size(cone.comparator)
            &&& ir.edges@.len() + 1 == ir.nodes@.len()
            &&& coordinate_entry_shown(
                ir.nodes@,
                ir.edges@,
                cone.proposition_ref@,
                q_at,
                "qualifier"@,
                cone.qualifier,
                i,
            )
            &&& coordinate_entry_shown(
                ir.nodes@,
                ir.edges@,
                cone.proposition_ref@,
                d_at,
                "defeater"@,
                cone.defeater,
                i,
            )
            &&& coordinate_entry_shown(
                ir.nodes@,
                ir.edges@,
                cone.proposition_ref@,
                c_at,
                "comparator"@,
                cone.comparator,
                i,
            )
        }),
{
    lemma_cone_graph_is_a_star(cone);
    let root = cone.proposition_ref@;
    lemma_coverage_shape(root, "qualifier"@, cone.qualifier);
    lemma_coverage_shape(root, "defeater"@, cone.defeater);
    lemma_coverage_shape(root, "comparator"@, cone.comparator);
    let nv = node_views(ir.nodes@);
    let ev = edge_views(ir.edges@);
    assert(nv.len() == ir.nodes@.len());
    assert(ev.len() == ir.edges@.len());
    let cn = cone_nodes(cone);
    let ce = cone_edges(cone);
    let s = cone.support_refs@.len();
    let head = seq![
        node_of(root, root, VisualNodeKind::Proposition, false),
        node_of(
            cone.span_ref@,
            cone.source_revision_ref@ + ":"@ + cone.span_ref@,
            VisualNodeKind::SourceSpan,
            false,
        ),
    ];
    let sup = support_nodes(cone.support_refs@);
    let q = coverage_nodes("qualifier"@, cone.qualifier);
    let d = coverage_nodes("defeater"@, cone.defeater);
    let c = coverage_nodes("comparator"@, cone.comparator);
    let he = seq![edge_of(root, cone.span_ref@, "exact_source_span"@, false)];
    let se = support_edges(root, s);
    let qe = coverage_edges(root, "qualifier"@, cone.qualifier);
    let de = coverage_edges(root, "defeater"@, cone.defeater);
    let cee = coverage_edges(root, "comparator"@, cone.comparator);
    assert(cn == head + sup + q + d + c);
    assert(ce == he + se + qe + de + cee);
    let q_at: int = 2 + s as int;
    let d_at: int = q_at + q.len();
    let c_at: int = d_at + d.len();
    assert forall|j: int| 0 <= j < coverage_size(cone.qualifier) implies ir.nodes@[q_at + j]@
        == #[trigger] q[j] && ir.edges@[q_at - 1 + j]@ == qe[j] by {
        assert(ir.nodes@[q_at + j]@ == nv[q_at + j]);
        assert(ir.edges@[q_at - 1 + j]@ == ev[q_at - 1 + j]);
        assert((head + sup + q)[q_at + j] == q[j]);
        assert((head + sup + q + d)[q_at + j] == (head + sup + q)[q_at + j]);
        assert(cn[q_at + j] == (head + sup + q + d)[q_at + j]);
        assert((he + se + qe)[q_at - 1 + j] == qe[j]);
        assert((he + se + qe + de)[q_at - 1 + j] == (he + se + qe)[q_at - 1 + j]);
        assert(ce[q_at - 1 + j] == (he + se + qe + de)[q_at - 1 + j]);
    }
    lemma_entry_from_views(ir.nodes@, ir.edges@, root, q_at, "qualifier"@, cone.qualifier, i);
    assert forall|j: int| 0 <= j < coverage_size(cone.defeater) implies ir.nodes@[d_at + j]@
        == #[trigger] d[j] && ir.edges@[d_at - 1 + j]@ == de[j] by {
        assert(ir.nodes@[d_at + j]@ == nv[d_at + j]);
        assert(ir.edges@[d_at - 1 + j]@ == ev[d_at - 1 + j]);
        assert((head + sup + q + d)[d_at + j] == d[j]);
        assert(cn[d_at + j] == (head + sup + q + d)[d_at + j]);
        assert((he + se + qe + de)[d_at - 1 + j] == de[j]);
        assert(ce[d_at - 1 + j] == (he + se + qe + de)[d_at - 1 + j]);
    }
    lemma_entry_from_views(ir.nodes@, ir.edges@, root, d_at, "defeater"@, cone.defeater, i);
    assert forall|j: int| 0 <= j < coverage_size(cone.comparator) implies ir.nodes@[c_at + j]@
        == #[trigger] c[j] && ir.edges@[c_at - 1 + j]@ == cee[j] by {
        assert(ir.nodes@[c_at + j]@ == nv[c_at + j]);
        assert(ir.edges@[c_at - 1 + j]@ == ev[c_at - 1 + j]);
        assert(cn[c_at + j] == c[j]);
        assert(ce[c_at - 1 + j] == cee[j]);
    }
    lemma_entry_from_views(ir.nodes@, ir.edges@, root, c_at, "comparator"@, cone.comparator, i);
}

} // verus!
