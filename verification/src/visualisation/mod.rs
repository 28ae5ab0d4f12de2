//! Visualisation subsystem: renderer-neutral projections of reader models,
//! without binding any renderer to semantic authority or evidence evaluation.

pub mod proof_cone;
pub use proof_cone::{ProofConeVisualIR, VisualEdge, VisualNode, VisualNodeKind};
