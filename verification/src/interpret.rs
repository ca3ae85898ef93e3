//! From the bytes a compiler driver delivered to the outcome of the run.

use vstd::prelude::*;
use crate::json::{
    describe_failure, document, documents, get_elements, get_member, get_object,
    get_string, member_names, parse_value, parsed, render, rendering, texts, Json,
};
use crate::outcome::{classification, classify, OutcomeView, VerificationOutcome};
use crate::report::{
    diagnostic_views, optional_text, ArtifactSet, ArtifactsView, Diagnostic, DiagnosticView,
    ReportView, StructuredReport,
};

verus! {

/// The string stored under `key` in a JSON object, if there is one.
pub open spec fn member_text(doc: Json, key: Seq<char>) -> Option<Seq<char>> {
    match doc.member(key) {
        Some(m) => m.text(),
        None => None,
    }
}

/// The diagnostic that one entry of the `errors` array stands for.
pub open spec fn diagnostic_of(doc: Json) -> DiagnosticView {
    DiagnosticView {
        severity: member_text(doc, "severity"@),
        message: member_text(doc, "message"@),
        text: rendering(doc),
    }
}

/// The diagnostics that the entries of an array stand for, in the same order.
pub open spec fn diagnostics_of(items: Seq<Json>) -> Seq<DiagnosticView> {
    Seq::new(items.len(), |i: int| diagnostic_of(items[i]))
}

/// The artifact set that the value under `contracts` stands for. A value that
/// is no object is an artifact set without names.
pub open spec fn artifacts_of(doc: Json) -> ArtifactsView {
    ArtifactsView {
        names: match doc.names() {
            Some(names) => names,
            None => Seq::empty(),
        },
        text: rendering(doc),
    }
}

/// The report that a JSON document stands for. The diagnostics are the array
/// under `errors`; they are absent when the key is missing or holds no
/// array. The artifacts are whatever stands under `contracts`.
pub open spec fn report_of(doc: Json) -> ReportView {
    ReportView {
        diagnostics: match doc.member("errors"@) {
            Some(e) => match e.items() {
                Some(items) => Some(diagnostics_of(items)),
                None => None,
            },
            None => None,
        },
        artifacts: match doc.member("contracts"@) {
            Some(c) => Some(artifacts_of(c)),
            None => None,
        },
    }
}

/// The outcome that a delivered byte buffer calls for.
pub open spec fn interpretation(bytes: Seq<u8>) -> OutcomeView {
    match parsed(bytes) {
        Ok(doc) => classification(report_of(doc)),
        Err(cause) => OutcomeView::MalformedOutput(cause, bytes),
    }
}

/// The outcome of a whole run: what the driver's failure or its bytes call for.
pub open spec fn conclusion(delivery: Result<Seq<u8>, Seq<char>>) -> OutcomeView {
    match delivery {
        Ok(bytes) => interpretation(bytes),
        Err(cause) => OutcomeView::DriverFailed(cause),
    }
}

/// Reads the string stored under `key`, if the value is an object that holds
/// a string there.
pub fn text_member(v: &serde_json::Value, key: &str) -> (r: Option<String>)
    ensures
        optional_text(r) == member_text(document(*v), key@),
{
    match get_member(v, key) {
        Some(m) => match get_string(m) {
            Some(s) => Some(s.to_owned()),
            None => None,
        },
        None => None,
    }
}

/// Reads one diagnostic from an entry of the `errors` array.
pub fn read_diagnostic(v: &serde_json::Value) -> (r: Diagnostic)
    ensures
        r@ == diagnostic_of(document(*v)),
{
    Diagnostic {
        severity: text_member(v, "severity"),
        message: text_member(v, "message"),
        text: render(v),
    }
}

/// Reads the diagnostics from the entries of the `errors` array, in order.
pub fn read_diagnostics(items: &Vec<serde_json::Value>) -> (r: Vec<Diagnostic>)
    ensures
        diagnostic_views(r@) == diagnostics_of(documents(items@)),
{
    let mut out: Vec<Diagnostic> = Vec::new();
    let mut i: usize = 0;
    while i < items.len()
        invariant
            i <= items.len(),
            out.len() == i,
            forall|j: int| 0 <= j < i ==> (#[trigger] out[j])@ == diagnostic_of(document(items[j])),
        decreases items.len() - i,
    {
        out.push(read_diagnostic(&items[i]));
        i += 1;
    }
    assert(diagnostic_views(out@) =~= diagnostics_of(documents(items@)));
    out
}

/// Reads the artifact set from the value under `contracts`.
pub fn read_artifacts(v: &serde_json::Value) -> (r: ArtifactSet)
    ensures
        r@ == artifacts_of(document(*v)),
{
    let names: Vec<String> = match get_object(v) {
        Some(object) => member_names(object),
        None => Vec::new(),
    };
    assert(document(*v).names() is None ==> texts(names@) =~= Seq::<Seq<char>>::empty());
    ArtifactSet { names, text: render(v) }
}

/// Reduces a JSON document to the report it stands for.
pub fn read_report(v: &serde_json::Value) -> (r: StructuredReport)
    ensures
        r@ == report_of(document(*v)),
{
    let diagnostics: Option<Vec<Diagnostic>> = match get_member(v, "errors") {
        Some(e) => match get_elements(e) {
            Some(items) => Some(read_diagnostics(items)),
            None => None,
        },
        None => None,
    };
    let artifacts: Option<ArtifactSet> = match get_member(v, "contracts") {
        Some(c) => Some(read_artifacts(c)),
        None => None,
    };
    StructuredReport { diagnostics, artifacts }
}

/// Interprets the bytes a driver delivered. Bytes that are no JSON document
/// give `MalformedOutput` with the parser's message and the bytes themselves;
/// any other buffer is classified by the report it holds.
pub fn interpret(raw: Vec<u8>) -> (outcome: VerificationOutcome)
    ensures
        outcome@ == interpretation(raw@),
        parsed(raw@) is Err <==> outcome is MalformedOutput,
        outcome matches VerificationOutcome::MalformedOutput(_, kept) ==> kept@ == raw@,
        !(outcome is DriverFailed),
        outcome@.consistent(),
{
    match parse_value(raw.as_slice()) {
        Ok(v) => classify(read_report(&v)),
        Err(e) => VerificationOutcome::MalformedOutput(describe_failure(&e), raw),
    }
}

/// Concludes a run from what the driver handed back: its failure, which is
/// passed on as `DriverFailed`, or its bytes, which are interpreted.
pub fn conclude(delivery: Result<Vec<u8>, String>) -> (outcome: VerificationOutcome)
    ensures
        outcome@ == conclusion(
            match delivery {
                Ok(raw) => Ok(raw@),
                Err(cause) => Err(cause@),
            },
        ),
        outcome is DriverFailed <==> delivery is Err,
        outcome@.consistent(),
{
    match delivery {
        Ok(raw) => interpret(raw),
        Err(cause) => VerificationOutcome::DriverFailed(cause),
    }
}

/// Bytes that are no JSON document are answered with `MalformedOutput`, and
/// the outcome holds exactly the bytes that were interpreted.
pub proof fn malformed_keeps_bytes(bytes: Seq<u8>)
    requires
        parsed(bytes) is Err,
    ensures
        interpretation(bytes) matches OutcomeView::MalformedOutput(_, kept) && kept == bytes,
{
}

/// The bytes of a JSON document are never answered with `MalformedOutput`
/// nor with `DriverFailed`: a compilation that failed is a classification.
pub proof fn document_is_classified(bytes: Seq<u8>)
    requires
        parsed(bytes) is Ok,
    ensures
        interpretation(bytes) is Success || interpretation(bytes) is SuccessWithWarnings
            || interpretation(bytes) is CompilationFailed,
{
}

/// Two buffers that hold the same JSON document are classified alike,
/// however their text is laid out.
pub proof fn same_document_same_outcome(a: Seq<u8>, b: Seq<u8>)
    requires
        parsed(a) is Ok,
        parsed(a) == parsed(b),
    ensures
        interpretation(a) == interpretation(b),
{
}

} // verus!
