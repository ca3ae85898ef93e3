//! The request handed to a compiler driver.

use vstd::prelude::*;

verus! {

/// The language of the sources of a request.
#[derive(Clone, Copy, Debug, PartialEq, Eq)]
pub enum Language {
    Solidity,
    Yul,
}

/// The toggles of a compiler run. A toggle that is `None` is unset: the
/// driver leaves it out of what it tells the compiler.
#[derive(Clone, Debug, PartialEq, Eq)]
pub struct Configuration {
    pub evm_version: Option<String>,
    pub via_ir: Option<bool>,
    pub stop_after: Option<String>,
}

/// A compilation request: the language, the sources by virtual path in the
/// order they were added, and the configuration.
#[derive(Clone, Debug, PartialEq, Eq)]
pub struct CompilationRequest {
    pub language: Language,
    pub sources: Vec<(String, String)>,
    pub configuration: Configuration,
}

/// The mathematical value of a [`Configuration`].
pub ghost struct ConfigurationView {
    pub evm_version: Option<Seq<char>>,
    pub via_ir: Option<bool>,
    pub stop_after: Option<Seq<char>>,
}

/// The mathematical value of a [`CompilationRequest`].
pub ghost struct RequestView {
    pub language: Language,
    pub sources: Seq<(Seq<char>, Seq<char>)>,
    pub configuration: ConfigurationView,
}

/// The views of a sequence of string pairs, element by element.
pub open spec fn pair_views(pairs: Seq<(String, String)>) -> Seq<(Seq<char>, Seq<char>)> {
    Seq::new(pairs.len(), |i: int| (pairs[i].0@, pairs[i].1@))
}

/// Whether some source of the sequence stands under `path`.
pub open spec fn has_path(sources: Seq<(Seq<char>, Seq<char>)>, path: Seq<char>) -> bool {
    exists|i: int| 0 <= i < sources.len() && (#[trigger] sources[i]).0 == path
}

impl View for Configuration {
    type V = ConfigurationView;

    open spec fn view(&self) -> ConfigurationView {
        ConfigurationView {
            evm_version: crate::report::optional_text(self.evm_version),
            via_ir: self.via_ir,
            stop_after: crate::report::optional_text(self.stop_after),
        }
    }
}

impl View for CompilationRequest {
    type V = RequestView;

    open spec fn view(&self) -> RequestView {
        RequestView {
            language: self.language,
            sources: pair_views(self.sources@),
            configuration: self.configuration@,
        }
    }
}

impl ConfigurationView {
    /// The configuration with every toggle unset.
    pub open spec fn unset() -> ConfigurationView {
        ConfigurationView { evm_version: None, via_ir: None, stop_after: None }
    }
}

impl RequestView {
    /// No two sources stand under the same path.
    pub open spec fn well_formed(self) -> bool {
        forall|i: int, j: int|
            0 <= i < j < self.sources.len() ==> (#[trigger] self.sources[i]).0 != (
            #[trigger] self.sources[j]).0
    }

    /// The request with `text` under `path`: in place of the source that
    /// stood there, or after all others if none did.
    pub open spec fn with_source(self, path: Seq<char>, text: Seq<char>) -> RequestView {
        RequestView {
            language: self.language,
            sources: if has_path(self.sources, path) {
                Seq::new(
                    self.sources.len(),
                    |i: int|
                        if self.sources[i].0 == path {
                            (path, text)
                        } else {
                            self.sources[i]
                        },
                )
            } else {
                self.sources.push((path, text))
            },
            configuration: self.configuration,
        }
    }
}

impl Configuration {
    /// The configuration with every toggle unset.
    pub fn unset() -> (r: Configuration)
        ensures
            r@ == ConfigurationView::unset(),
    {
        Configuration { evm_version: None, via_ir: None, stop_after: None }
    }
}

impl CompilationRequest {
    /// A request for one source unit, with every toggle unset. The source
    /// text is taken as it is.
    pub fn single(language: Language, path: String, text: String) -> (r: CompilationRequest)
        ensures
            r@ == (RequestView {
                language,
                sources: seq![(path@, text@)],
                configuration: ConfigurationView::unset(),
            }),
            r@.well_formed(),
    {
        let mut sources: Vec<(String, String)> = Vec::new();
        sources.push((path, text));
        let r = CompilationRequest { language, sources, configuration: Configuration::unset() };
        assert(pair_views(r.sources@) =~= seq![(path@, text@)]);
        r
    }

    /// Puts `text` under `path`, replacing the source that stood there.
    pub fn with_source(self, path: String, text: String) -> (r: CompilationRequest)
        ensures
            r@ == self@.with_source(path@, text@),
            self@.well_formed() ==> r@.well_formed(),
    {
        let CompilationRequest { language, sources, configuration } = self;
        let ghost before = pair_views(sources@);
        let mut kept: Vec<(String, String)> = Vec::new();
        let mut found = false;
        let mut i: usize = 0;
        while i < sources.len()
            invariant
                i <= sources.len(),
                kept.len() == i,
                before == pair_views(sources@),
                found == has_path(before.take(i as int), path@),
                forall|j: int|
                    0 <= j < i ==> ((#[trigger] kept@[j]).0@, kept@[j].1@) == (if before[j].0
                        == path@ {
                        (path@, text@)
                    } else {
                        before[j]
                    }),
            decreases sources.len() - i,
        {
            let ghost seen = before.take(i as int);
            let ghost next = before.take(i + 1);
            let same = sources[i].0 == path;
            proof {
                assert(next[i as int] == before[i as int]);
                if has_path(next, path@) && !same {
                    let k = choose|k: int| 0 <= k < next.len() && (#[trigger] next[k]).0 == path@;
                    assert(seen[k].0 == path@);
                }
                if has_path(seen, path@) {
                    let k = choose|k: int| 0 <= k < seen.len() && (#[trigger] seen[k]).0 == path@;
                    assert(next[k].0 == path@);
                }
            }
            if same {
                found = true;
                kept.push((path.clone(), text.clone()));
            } else {
                kept.push((sources[i].0.clone(), sources[i].1.clone()));
            }
            i += 1;
        }
        assert(before.take(i as int) =~= before);
        if !found {
            assert forall|j: int| 0 <= j < before.len() implies (kept@[j].0@, kept@[j].1@)
                == before[j] by {
                assert(before[j].0 != path@);
            }
            kept.push((path, text));
            assert(pair_views(kept@) =~= before.push((path@, text@)));
        } else {
            assert(pair_views(kept@) =~= self@.with_source(path@, text@).sources);
        }
        let r = CompilationRequest { language, sources: kept, configuration };
        proof {
            if self@.well_formed() {
                let after = r@.sources;
                assert forall|a: int, b: int| 0 <= a < b < after.len() implies (#[trigger] after[a]).0
                    != (#[trigger] after[b]).0 by {
                    if found {
                        assert(after[a].0 == before[a].0);
                        assert(after[b].0 == before[b].0);
                    } else if b < before.len() {
                        assert(after[a] == before[a]);
                        assert(after[b] == before[b]);
                    } else {
                        assert(after[a] == before[a]);
                        assert(after[b].0 == path@);
                    }
                }
            }
        }
        r
    }

    /// Sets the toggles of the request, leaving language and sources alone.
    pub fn with_configuration(self, configuration: Configuration) -> (r: CompilationRequest)
        ensures
            r@ == (RequestView { configuration: configuration@, ..self@ }),
            self@.well_formed() ==> r@.well_formed(),
    {
        CompilationRequest { language: self.language, sources: self.sources, configuration }
    }
}

/// Putting a source under a path makes it the one source under that path,
/// and leaves every source under another path as it was.
pub proof fn with_source_sets_path(request: RequestView, path: Seq<char>, text: Seq<char>)
    ensures
        has_path(request.with_source(path, text).sources, path),
        forall|i: int|
            0 <= i < request.with_source(path, text).sources.len() && (
            #[trigger] request.with_source(path, text).sources[i]).0 == path
                ==> request.with_source(path, text).sources[i].1 == text,
        forall|i: int|
            0 <= i < request.sources.len() && request.sources[i].0 != path
                ==> #[trigger] request.with_source(path, text).sources[i] == request.sources[i],
{
    let after = request.with_source(path, text).sources;
    if has_path(request.sources, path) {
        let k = choose|k: int| 0 <= k < request.sources.len() && (#[trigger] request.sources[k]).0 == path;
        assert(after[k].0 == path);
    } else {
        assert(after[request.sources.len() as int].0 == path);
        assert forall|i: int| 0 <= i < after.len() && (#[trigger] after[i]).0 == path implies after[i].1
            == text by {
            if i < request.sources.len() {
                assert(request.sources[i].0 == path);
            }
        }
    }
}

} // verus!
