//! Read-only research views.
pub mod legal_research;
