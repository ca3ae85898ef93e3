//! The parsed form of a compiler report, with its mathematical model.

use vstd::prelude::*;

verus! {

/// One message of the compiler. `text` is the whole entry as compact JSON, so
/// that fields this library does not interpret are kept.
#[derive(Clone, Debug, PartialEq, Eq)]
pub struct Diagnostic {
    pub severity: Option<String>,
    pub message: Option<String>,
    pub text: String,
}

/// What the compiler produced, keyed by contract name. `text` is the whole
/// collection as compact JSON; the artifacts themselves are not interpreted.
#[derive(Clone, Debug, PartialEq, Eq)]
pub struct ArtifactSet {
    pub names: Vec<String>,
    pub text: String,
}

/// A compiler report: its diagnostics and its artifacts, each of which may be
/// absent.
#[derive(Clone, Debug, PartialEq, Eq)]
pub struct StructuredReport {
    pub diagnostics: Option<Vec<Diagnostic>>,
    pub artifacts: Option<ArtifactSet>,
}

/// The mathematical value of a [`Diagnostic`].
pub ghost struct DiagnosticView {
    pub severity: Option<Seq<char>>,
    pub message: Option<Seq<char>>,
    pub text: Seq<char>,
}

/// The mathematical value of an [`ArtifactSet`].
pub ghost struct ArtifactsView {
    pub names: Seq<Seq<char>>,
    pub text: Seq<char>,
}

/// The mathematical value of a [`StructuredReport`].
pub ghost struct ReportView {
    pub diagnostics: Option<Seq<DiagnosticView>>,
    pub artifacts: Option<ArtifactsView>,
}

/// The view of an optional string.
pub open spec fn optional_text(s: Option<String>) -> Option<Seq<char>> {
    match s {
        Some(t) => Some(t@),
        None => None,
    }
}

/// The views of a sequence of diagnostics, element by element.
pub open spec fn diagnostic_views(items: Seq<Diagnostic>) -> Seq<DiagnosticView> {
    Seq::new(items.len(), |i: int| items[i]@)
}

impl View for Diagnostic {
    type V = DiagnosticView;

    open spec fn view(&self) -> DiagnosticView {
        DiagnosticView {
            severity: optional_text(self.severity),
            message: optional_text(self.message),
            text: self.text@,
        }
    }
}

impl View for ArtifactSet {
    type V = ArtifactsView;

    open spec fn view(&self) -> ArtifactsView {
        ArtifactsView { names: crate::json::texts(self.names@), text: self.text@ }
    }
}

impl View for StructuredReport {
    type V = ReportView;

    open spec fn view(&self) -> ReportView {
        ReportView {
            diagnostics: match self.diagnostics {
                Some(items) => Some(diagnostic_views(items@)),
                None => None,
            },
            artifacts: match self.artifacts {
                Some(a) => Some(a@),
                None => None,
            },
        }
    }
}

impl DiagnosticView {
    /// Only the severity `error` is fatal; any other, or none, is not.
    pub open spec fn is_error(self) -> bool {
        self.severity == Some("error"@)
    }
}

/// Whether some diagnostic of the sequence is an error.
pub open spec fn has_error(items: Seq<DiagnosticView>) -> bool {
    exists|i: int| 0 <= i < items.len() && (#[trigger] items[i]).is_error()
}

impl ReportView {
    /// The diagnostics of the report; an absent collection counts as empty.
    pub open spec fn listed(self) -> Seq<DiagnosticView> {
        match self.diagnostics {
            Some(items) => items,
            None => Seq::empty(),
        }
    }
}

impl ArtifactsView {
    /// The artifact set that stands in when a report names none.
    pub open spec fn empty() -> ArtifactsView {
        ArtifactsView { names: Seq::empty(), text: "{}"@ }
    }
}

impl Diagnostic {
    /// Whether the diagnostic's severity is `error`.
    pub fn is_error(&self) -> (r: bool)
        ensures
            r == self@.is_error(),
    {
        match &self.severity {
            Some(s) => {
                let fatal: String = "error".to_owned();
                *s == fatal
            },
            None => false,
        }
    }
}

impl ArtifactSet {
    /// An artifact set without any artifact.
    pub fn empty() -> (r: ArtifactSet)
        ensures
            r@ == ArtifactsView::empty(),
    {
        let r = ArtifactSet { names: Vec::new(), text: "{}".to_owned() };
        assert(crate::json::texts(r.names@) =~= Seq::<Seq<char>>::empty());
        r
    }

    /// Whether an artifact is recorded under `name`.
    pub fn contains(&self, name: &str) -> (r: bool)
        ensures
            r == self@.names.contains(name@),
    {
        let wanted: String = name.to_owned();
        let mut i: usize = 0;
        while i < self.names.len()
            invariant
                i <= self.names.len(),
                wanted@ == name@,
                forall|j: int| 0 <= j < i ==> self@.names[j] != name@,
            decreases self.names.len() - i,
        {
            if self.names[i] == wanted {
                assert(self@.names[i as int] == name@);
                return true;
            }
            i += 1;
        }
        false
    }
}

/// Whether some diagnostic of the vector is an error.
pub fn any_error(items: &Vec<Diagnostic>) -> (r: bool)
    ensures
        r == has_error(diagnostic_views(items@)),
{
    let mut i: usize = 0;
    while i < items.len()
        invariant
            i <= items.len(),
            forall|j: int| 0 <= j < i ==> !(#[trigger] diagnostic_views(items@)[j]).is_error(),
        decreases items.len() - i,
    {
        if items[i].is_error() {
            assert(diagnostic_views(items@)[i as int].is_error());
            return true;
        }
        i += 1;
    }
    false
}

} // verus!
