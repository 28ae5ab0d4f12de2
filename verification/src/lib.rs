//! Reader-side projections of evaluated legal-reading payments: the reader
//! view state, the renderer-neutral proof-cone graph, and the small
//! animation and clipboard helpers that the interface uses.
#![allow(unused_imports)]

pub mod text;
pub mod reader_model;
pub mod semantic_reader;
pub mod visualisation;
pub mod views;
pub mod stubs;
pub mod extractor;
