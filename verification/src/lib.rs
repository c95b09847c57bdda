//! The ingestion core of a statement corpus: content-addressed identity,
//! decomposition of a document into statements with exact byte and line
//! accounting, recognition of procedural-language blocks, and provenance.

pub mod identity;
pub mod text;
pub mod language;
pub mod statement;
pub mod failure;
pub mod pl;
pub mod decompose;
pub mod pipeline;
pub mod cli;
pub mod laws;

pub use cli::{validate_input_source, validate_license_file, validate_output_target};
pub use decompose::{check_coverage, decompose, text_to_statement, CoverageError, Scanned};
pub use failure::Failure;
pub use identity::hash64;
pub use language::{identify_language, Language};
pub use pipeline::{ingest, plan_run, process_doc, Batch, Findings, Processed, RunPlan};
pub use pl::{extract_pl, recognize_pl_statement, ParseTree};
pub use statement::{Statement, StatementSource};
