//! The terminal classification of a compiler run.

use vstd::prelude::*;
use crate::report::{
    any_error, diagnostic_views, has_error, ArtifactSet, ArtifactsView, Diagnostic,
    DiagnosticView, ReportView, StructuredReport,
};

verus! {

/// How a compiler run ended. Exactly one variant describes a run.
#[derive(Clone, Debug, PartialEq, Eq)]
pub enum VerificationOutcome {
    /// No diagnostics at all. `reported` is false when the report named no
    /// artifact collection and `artifacts` is the empty stand-in.
    Success { artifacts: ArtifactSet, reported: bool },
    /// Diagnostics, none of them an error.
    SuccessWithWarnings(Vec<Diagnostic>),
    /// At least one error; carries every diagnostic of the run.
    CompilationFailed(Vec<Diagnostic>),
    /// The driver produced no output; carries its cause.
    DriverFailed(String),
    /// The output was not a structured report; carries the parser's cause
    /// and the bytes as they came.
    MalformedOutput(String, Vec<u8>),
}

/// The mathematical value of a [`VerificationOutcome`].
pub ghost enum OutcomeView {
    Success { artifacts: ArtifactsView, reported: bool },
    SuccessWithWarnings(Seq<DiagnosticView>),
    CompilationFailed(Seq<DiagnosticView>),
    DriverFailed(Seq<char>),
    MalformedOutput(Seq<char>, Seq<u8>),
}

impl View for VerificationOutcome {
    type V = OutcomeView;

    open spec fn view(&self) -> OutcomeView {
        match *self {
            VerificationOutcome::Success { artifacts, reported } => OutcomeView::Success {
                artifacts: artifacts@,
                reported,
            },
            VerificationOutcome::SuccessWithWarnings(items) => OutcomeView::SuccessWithWarnings(
                diagnostic_views(items@),
            ),
            VerificationOutcome::CompilationFailed(items) => OutcomeView::CompilationFailed(
                diagnostic_views(items@),
            ),
            VerificationOutcome::DriverFailed(cause) => OutcomeView::DriverFailed(cause@),
            VerificationOutcome::MalformedOutput(cause, raw) => OutcomeView::MalformedOutput(
                cause@,
                raw@,
            ),
        }
    }
}

impl OutcomeView {
    /// The outcomes that stand for a run that compiled.
    pub open spec fn is_success(self) -> bool {
        self is Success || self is SuccessWithWarnings
    }

    /// What an outcome carries agrees with its variant: a failed run holds an
    /// error, a run with warnings holds diagnostics but no error, and a
    /// success that was not reported holds the empty artifact set.
    pub open spec fn consistent(self) -> bool {
        match self {
            OutcomeView::Success { artifacts, reported } => reported || artifacts
                == ArtifactsView::empty(),
            OutcomeView::SuccessWithWarnings(items) => items.len() > 0 && !has_error(items),
            OutcomeView::CompilationFailed(items) => has_error(items),
            OutcomeView::DriverFailed(_) => true,
            OutcomeView::MalformedOutput(_, _) => true,
        }
    }
}

/// The outcome that a report calls for: an error among the diagnostics
/// decides first, then the presence of any diagnostic, then the artifacts.
pub open spec fn classification(report: ReportView) -> OutcomeView {
    let items = report.listed();
    if has_error(items) {
        OutcomeView::CompilationFailed(items)
    } else if items.len() > 0 {
        OutcomeView::SuccessWithWarnings(items)
    } else {
        match report.artifacts {
            Some(artifacts) => OutcomeView::Success { artifacts, reported: true },
            None => OutcomeView::Success { artifacts: ArtifactsView::empty(), reported: false },
        }
    }
}

/// Classifies a parsed report.
pub fn classify(report: StructuredReport) -> (outcome: VerificationOutcome)
    ensures
        outcome@ == classification(report@),
        outcome@.consistent(),
{
    let StructuredReport { diagnostics, artifacts } = report;
    let items: Vec<Diagnostic> = match diagnostics {
        Some(items) => items,
        None => Vec::new(),
    };
    assert(diagnostic_views(items@) =~= report@.listed());
    if any_error(&items) {
        VerificationOutcome::CompilationFailed(items)
    } else if items.len() > 0 {
        VerificationOutcome::SuccessWithWarnings(items)
    } else {
        match artifacts {
            Some(artifacts) => VerificationOutcome::Success { artifacts, reported: true },
            None => VerificationOutcome::Success { artifacts: ArtifactSet::empty(), reported: false },
        }
    }
}

impl VerificationOutcome {
    /// Whether the run compiled, with or without warnings.
    pub fn is_success(&self) -> (r: bool)
        ensures
            r == self@.is_success(),
    {
        match self {
            VerificationOutcome::Success { .. } => true,
            VerificationOutcome::SuccessWithWarnings(_) => true,
            _ => false,
        }
    }
}

/// Whatever the report, its classification is consistent and is one of the
/// three outcomes of a run whose report could be read.
pub proof fn classification_is_consistent(report: ReportView)
    ensures
        classification(report).consistent(),
        classification(report) is Success || classification(report) is SuccessWithWarnings
            || classification(report) is CompilationFailed,
{
}

/// A report with an error among its diagnostics is classified as failed and
/// carries all of its diagnostics, whatever else it holds.
pub proof fn error_dominates(report: ReportView)
    requires
        has_error(report.listed()),
    ensures
        classification(report) == OutcomeView::CompilationFailed(report.listed()),
{
}

/// A report is classified as failed only if one of its diagnostics is an error.
pub proof fn failure_needs_error(report: ReportView)
    ensures
        classification(report) is CompilationFailed <==> has_error(report.listed()),
        !has_error(report.listed()) ==> classification(report).is_success(),
{
}

/// A report without diagnostics and without artifacts counts as a success,
/// with the empty artifact set and marked as not reported.
pub proof fn bare_report_succeeds(report: ReportView)
    requires
        report.listed().len() == 0,
        report.artifacts is None,
    ensures
        classification(report) == (OutcomeView::Success {
            artifacts: ArtifactsView::empty(),
            reported: false,
        }),
{
}

/// A report whose diagnostics hold no error but are not empty is classified
/// as a success with warnings, carrying the same diagnostics in the same order.
pub proof fn warnings_are_kept(report: ReportView)
    requires
        !has_error(report.listed()),
        report.listed().len() > 0,
    ensures
        classification(report) == OutcomeView::SuccessWithWarnings(report.listed()),
{
}

} // verus!
