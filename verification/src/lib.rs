//! Classification of a compiler run from the structured report it emitted.
//!
//! The raw bytes a compiler driver hands back are parsed as JSON, reduced to a
//! [`StructuredReport`] and classified into a [`VerificationOutcome`]. The
//! JSON parser is `serde_json`; every step after it is verified against a
//! mathematical model of the document it read.

pub mod json;
pub mod report;
pub mod outcome;
pub mod interpret;
pub mod request;

pub use report::{ArtifactSet, Diagnostic, StructuredReport};
pub use outcome::{classify, VerificationOutcome};
pub use interpret::{conclude, interpret, read_report};
pub use request::{CompilationRequest, Configuration, Language};
