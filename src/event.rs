use vstd::prelude::*;

verus! {

/// The text of each string in a sequence of strings.
pub open spec fn texts(v: Seq<String>) -> Seq<Seq<char>> {
    v.map_values(|s: String| s@)
}

/// An output unit reported by the build tool for one crate: the crate's
/// name, its declared output kinds, and the output files, index-aligned
/// with the kinds.
pub struct Artifact {
    pub crate_name: String,
    pub kinds: Vec<String>,
    pub paths: Vec<String>,
}

/// The mathematical model of an [`Artifact`].
pub struct ArtifactView {
    pub crate_name: Seq<char>,
    pub kinds: Seq<Seq<char>>,
    pub paths: Seq<Seq<char>>,
}

impl ArtifactView {
    /// Kinds and paths are parallel arrays.
    pub open spec fn wf(self) -> bool {
        self.kinds.len() == self.paths.len()
    }
}

impl View for Artifact {
    type V = ArtifactView;

    open spec fn view(&self) -> ArtifactView {
        ArtifactView {
            crate_name: self.crate_name@,
            kinds: texts(self.kinds@),
            paths: texts(self.paths@),
        }
    }
}

impl Artifact {
    pub open spec fn wf(&self) -> bool {
        self@.wf()
    }

    /// Whether `i` is the smallest index at which `kind` is declared.
    pub open spec fn is_first_kind(kinds: Seq<Seq<char>>, kind: Seq<char>, i: int) -> bool {
        &&& 0 <= i < kinds.len()
        &&& kinds[i] == kind
        &&& forall|j: int| 0 <= j < i ==> kinds[j] != kind
    }

    /// The index of the first declared output kind equal to `kind`.
    pub fn position_of_kind(&self, kind: &String) -> (r: Option<usize>)
        ensures
            r matches Some(i) ==> Artifact::is_first_kind(self@.kinds, kind@, i as int),
            r is None ==> forall|j: int| 0 <= j < self@.kinds.len() ==> self@.kinds[j] != kind@,
    {
        let mut i: usize = 0;
        while i < self.kinds.len()
            invariant
                0 <= i <= self.kinds@.len(),
                forall|j: int| 0 <= j < i ==> self@.kinds[j] != kind@,
            decreases self.kinds@.len() - i,
        {
            if self.kinds[i] == *kind {
                return Some(i);
            }
            i = i + 1;
        }
        None
    }

    /// The crate name as the build tool reported it.
    pub fn crate_name(&self) -> (r: &String)
        ensures
            r@ == self@.crate_name,
    {
        &self.crate_name
    }
}

/// One classified record of the build tool's output.
pub enum Event {
    CompilationArtifact(Artifact),
    CompilerDiagnostic,
    BuildScriptExecuted,
    BuildFinished(bool),
    FreeTextLine(String),
}

/// The mathematical model of an [`Event`].
pub enum EventView {
    CompilationArtifact(ArtifactView),
    CompilerDiagnostic,
    BuildScriptExecuted,
    BuildFinished(bool),
    FreeTextLine(Seq<char>),
}

impl EventView {
    /// Every artifact event has parallel kinds and paths.
    pub open spec fn wf(self) -> bool {
        match self {
            EventView::CompilationArtifact(a) => a.wf(),
            _ => true,
        }
    }
}

impl View for Event {
    type V = EventView;

    open spec fn view(&self) -> EventView {
        match self {
            Event::CompilationArtifact(a) => EventView::CompilationArtifact(a@),
            Event::CompilerDiagnostic => EventView::CompilerDiagnostic,
            Event::BuildScriptExecuted => EventView::BuildScriptExecuted,
            Event::BuildFinished(s) => EventView::BuildFinished(*s),
            Event::FreeTextLine(t) => EventView::FreeTextLine(t@),
        }
    }
}

impl Event {
    pub open spec fn wf(&self) -> bool {
        self@.wf()
    }

    /// Whether this event is a compilation artifact.
    pub fn is_artifact(&self) -> (r: bool)
        ensures
            r == (self@ is CompilationArtifact),
    {
        match self {
            Event::CompilationArtifact(_) => true,
            _ => false,
        }
    }
}

} // verus!
