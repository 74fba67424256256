use vstd::prelude::*;
use crate::event::{Artifact, ArtifactView, Event, EventView};
use crate::classify::{classified, parse_message};
use crate::mount::{
    duplicate_mount, host_path, mount_root, mount_view, unmount_with, MountInfo, MountInfoView, Options,
    UnmountError,
};
use crate::names::{names_match, normalize, normalized};
use crate::stream::{item_view, ItemView, ReadError, ReadErrorView};

verus! {

/// The artifact that an event contributes to a search for crate `query`:
/// an artifact whose crate name matches the query under normalization.
pub open spec fn artifact_match(e: EventView, query: Seq<char>) -> Option<ArtifactView> {
    match e {
        EventView::CompilationArtifact(a) => if names_match(a.crate_name, query) {
            Some(a)
        } else {
            None
        },
        _ => None,
    }
}

/// The first artifact, in stream order, whose crate name matches `query`.
pub open spec fn search_result(events: Seq<EventView>, query: Seq<char>) -> Option<ArtifactView>
    decreases events.len(),
{
    if events.len() == 0 {
        None
    } else {
        match search_result(events.drop_last(), query) {
            Some(a) => Some(a),
            None => artifact_match(events.last(), query),
        }
    }
}

/// How many artifact events a sequence of events holds.
pub open spec fn artifact_count(events: Seq<EventView>) -> nat
    decreases events.len(),
{
    if events.len() == 0 {
        0
    } else {
        artifact_count(events.drop_last()) + if events.last() is CompilationArtifact {
            1nat
        } else {
            0nat
        }
    }
}

/// A count, capped at the largest `u64`.
pub open spec fn saturated(n: nat) -> u64 {
    if n > u64::MAX {
        u64::MAX
    } else {
        n as u64
    }
}

/// The diagnostic for one item of the stream, given the events seen
/// before it: the crate name of an artifact, the outcome of a finished
/// build, and at the end of input whether any artifact went by and how many.
pub open spec fn note_for(item: ItemView, before: Seq<EventView>, note: Note) -> bool {
    match item {
        None => if artifact_count(before) == 0 {
            note is NoArtifacts
        } else {
            note == Note::NoMoreArtifacts(saturated(artifact_count(before)))
        },
        Some(Err(ReadErrorView::WouldBlock)) => note is WouldBlock,
        Some(Err(ReadErrorView::Other(m))) => note matches Note::ReadFailed(t) && t@ == m,
        Some(Ok(EventView::CompilationArtifact(a))) => note matches Note::ArtifactSeen(n) && n@
            == a.crate_name,
        Some(Ok(EventView::BuildFinished(success))) => note == Note::BuildFinished(success),
        Some(Ok(_)) => note is Skipped,
    }
}

/// What the caller of a search should do next.
pub enum Step {
    /// Read another line.
    Continue,
    /// The source would block: wait briefly, then read again.
    Pause,
    /// The search is over: this is the first matching artifact.
    Found(Artifact),
    /// The search is over: the source ended without a match.
    Exhausted,
}

/// The diagnostic that a search step narrates, when narration is wanted.
pub enum Note {
    /// An artifact for the named crate went by.
    ArtifactSeen(String),
    /// The build finished, successfully or not.
    BuildFinished(bool),
    /// Another kind of event was skipped.
    Skipped,
    /// The source would block.
    WouldBlock,
    /// A read failed, with the failure's description.
    ReadFailed(String),
    /// The source ended, and no artifact went by at all.
    NoArtifacts,
    /// The source ended after this many artifacts, none of them matching.
    NoMoreArtifacts(u64),
}

/// An online search of an event stream for the first artifact of a crate.
/// Each item that the stream hands out is given to [`ArtifactSearch::observe`],
/// which says what to do next.
pub struct ArtifactSearch {
    target: String,
    count: u64,
    done: bool,
    query: Ghost<Seq<char>>,
    history: Ghost<Seq<EventView>>,
}

impl ArtifactSearch {
    /// The crate name searched for.
    pub closed spec fn query(&self) -> Seq<char> {
        self.query@
    }

    /// The events observed so far, in stream order.
    pub closed spec fn history(&self) -> Seq<EventView> {
        self.history@
    }

    /// Whether the search has ended.
    pub closed spec fn is_done(&self) -> bool {
        self.done
    }

    /// The search's internal consistency: the normalized query is kept,
    /// the artifact count is exact up to saturation, and no match has gone
    /// by while the search is still running.
    pub closed spec fn wf(&self) -> bool {
        &&& self.target@ == normalized(self.query@)
        &&& self.count == saturated(artifact_count(self.history@))
        &&& !self.done ==> search_result(self.history@, self.query@) is None
    }

    /// Starts a search for crate `crate_name`.
    pub fn new(crate_name: &str) -> (r: ArtifactSearch)
        ensures
            r.wf(),
            r.query() == crate_name@,
            r.history() == Seq::<EventView>::empty(),
            !r.is_done(),
    {
        ArtifactSearch {
            target: normalize(crate_name),
            count: 0,
            done: false,
            query: Ghost(crate_name@),
            history: Ghost(Seq::empty()),
        }
    }

    /// Whether the search has ended.
    pub fn done(&self) -> (r: bool)
        ensures
            r == self.is_done(),
    {
        self.done
    }

    /// Takes the next item of the event stream and says what to do next.
    /// The search ends at the first artifact whose crate name matches the
    /// query under normalization, or when the stream runs out; a read that
    /// would block asks for a pause; any other read failure is passed over.
    pub fn observe(&mut self, item: Option<Result<Event, ReadError>>) -> (r: (Step, Note))
        requires
            old(self).wf(),
            !old(self).is_done(),
        ensures
            final(self).wf(),
            final(self).query() == old(self).query(),
            final(self).history() == match item_view(item) {
                Some(Ok(e)) => old(self).history().push(e),
                _ => old(self).history(),
            },
            final(self).is_done() == (r.0 is Found || r.0 is Exhausted),
            item is None ==> r.0 is Exhausted,
            item matches Some(Err(e)) ==> (r.0 is Pause <==> e is WouldBlock) && !(r.0 is Found
                || r.0 is Exhausted),
            item matches Some(Ok(e)) ==> (r.0 is Found <==> artifact_match(e@, old(self).query())
                is Some) && !(r.0 is Pause || r.0 is Exhausted),
            r.0 matches Step::Found(a) ==> Some(a@) == search_result(
                final(self).history(),
                final(self).query(),
            ),
            r.0 is Exhausted ==> search_result(final(self).history(), final(self).query()) is None,
            !final(self).is_done() ==> search_result(final(self).history(), final(self).query())
                is None,
            r.0 matches Step::Found(a) ==> (item matches Some(Ok(e)) && e@ == EventView::CompilationArtifact(
                a@,
            )),
            r.0 matches Step::Found(a) ==> (item matches Some(Ok(e)) && (e.wf() ==> a.wf())),
            note_for(item_view(item), old(self).history(), r.1),
    {
        let ghost h0 = self.history@;
        match item {
            None => {
                self.done = true;
                if self.count == 0 {
                    (Step::Exhausted, Note::NoArtifacts)
                } else {
                    (Step::Exhausted, Note::NoMoreArtifacts(self.count))
                }
            },
            Some(Err(ReadError::WouldBlock)) => (Step::Pause, Note::WouldBlock),
            Some(Err(ReadError::Other(m))) => (Step::Continue, Note::ReadFailed(m)),
            Some(Ok(e)) => {
                let ghost ev = e@;
                self.history = Ghost(h0.push(ev));
                proof {
                    assert(self.history@.drop_last() =~= h0);
                    assert(artifact_count(self.history@) == artifact_count(h0) + if ev is CompilationArtifact {
                        1nat
                    } else {
                        0nat
                    });
                }
                match e {
                    Event::CompilationArtifact(a) => {
                        if self.count < u64::MAX {
                            self.count = self.count + 1;
                        }
                        let name = a.crate_name.clone();
                        if normalize(a.crate_name.as_str()) == self.target {
                            self.done = true;
                            (Step::Found(a), Note::ArtifactSeen(name))
                        } else {
                            (Step::Continue, Note::ArtifactSeen(name))
                        }
                    },
                    Event::BuildFinished(success) => (Step::Continue, Note::BuildFinished(success)),
                    _ => (Step::Continue, Note::Skipped),
                }
            },
        }
    }
}

/// A search ends at the earliest matching artifact of the stream: whatever
/// follows it, later matches included, does not change the result.
pub proof fn lemma_first_match_wins(events: Seq<EventView>, query: Seq<char>, i: int)
    requires
        0 <= i < events.len(),
        artifact_match(events[i], query) is Some,
        forall|k: int| 0 <= k < i ==> artifact_match(#[trigger] events[k], query) is None,
    ensures
        search_result(events, query) == artifact_match(events[i], query),
    decreases events.len(),
{
    if i == events.len() - 1 {
        lemma_no_match_before(events.drop_last(), query);
    } else {
        lemma_first_match_wins(events.drop_last(), query, i);
    }
}

/// A sequence of events with no matching artifact has no search result.
pub proof fn lemma_no_match_before(events: Seq<EventView>, query: Seq<char>)
    requires
        forall|k: int| 0 <= k < events.len() ==> artifact_match(#[trigger] events[k], query) is None,
    ensures
        search_result(events, query) is None,
    decreases events.len(),
{
    if events.len() > 0 {
        lemma_no_match_before(events.drop_last(), query);
    }
}

/// A located artifact together with the mount context that was active when
/// it was found.
pub struct CargoArtifact {
    artifact: Artifact,
    mount_info: Option<MountInfo>,
}

impl CargoArtifact {
    /// The located artifact.
    pub closed spec fn spec_artifact(&self) -> ArtifactView {
        self.artifact@
    }

    /// The mount root captured with the artifact, if any.
    pub closed spec fn spec_mount_root(&self) -> Option<Seq<char>> {
        mount_root(self.mount_info)
    }

    /// The mount context captured with the artifact.
    pub closed spec fn spec_mount_info(&self) -> Option<MountInfoView> {
        mount_view(self.mount_info)
    }

    /// Kinds and paths are parallel.
    pub closed spec fn wf(&self) -> bool {
        self.artifact.wf()
    }

    /// Pairs an artifact with its mount context.
    pub fn new(artifact: Artifact, mount_info: Option<MountInfo>) -> (r: CargoArtifact)
        requires
            artifact.wf(),
        ensures
            r.wf(),
            r.spec_artifact() == artifact@,
            r.spec_mount_root() == mount_root(mount_info),
            r.spec_mount_info() == mount_view(mount_info),
    {
        CargoArtifact { artifact, mount_info }
    }

    /// The crate name as the build tool reported it.
    pub fn crate_name(&self) -> (r: &String)
        ensures
            r@ == self.spec_artifact().crate_name,
    {
        &self.artifact.crate_name
    }

    /// The mount context captured with the artifact.
    pub fn mount_info(&self) -> (r: &Option<MountInfo>)
        ensures
            mount_view(*r) == self.spec_mount_info(),
            mount_root(*r) == self.spec_mount_root(),
    {
        &self.mount_info
    }

    /// The output file declared for the first occurrence of `crate_type`,
    /// as observed, before any translation out of the mount.
    pub fn mounted_file(&self, crate_type: &String) -> (r: Option<String>)
        requires
            self.wf(),
        ensures
            r matches Some(p) ==> exists|i: int|
                Artifact::is_first_kind(self.spec_artifact().kinds, crate_type@, i) && p@
                    == self.spec_artifact().paths[i],
            r is None <==> forall|j: int|
                0 <= j < self.spec_artifact().kinds.len() ==> self.spec_artifact().kinds[j]
                    != crate_type@,
    {
        match self.artifact.position_of_kind(crate_type) {
            Some(i) => {
                let p = self.artifact.paths[i].clone();
                assert(Artifact::is_first_kind(self.spec_artifact().kinds, crate_type@, i as int)
                    && p@ == self.spec_artifact().paths[i as int]);
                Some(p)
            },
            None => None,
        }
    }

    /// Translates a path observed under the captured mount context to the
    /// host, given the target output directory that the build tool's
    /// metadata reports: the identity without a mount context.
    pub fn unmount(&self, filename: String, target_dir: &str) -> (r: Result<String, UnmountError>)
        ensures
            r is Ok <==> host_path(self.spec_mount_root(), filename@, target_dir@) is Some,
            r matches Ok(s) ==> Some(s@) == host_path(self.spec_mount_root(), filename@, target_dir@),
            self.spec_mount_root() is None ==> r == Ok::<String, UnmountError>(filename),
    {
        unmount_with(&self.mount_info, filename, target_dir)
    }

    /// The host path of the output file declared for the first occurrence
    /// of `crate_type`, or nothing where no output of that kind was
    /// declared; an error where the file cannot be translated out of the
    /// mount.
    pub fn find_file_by_crate_type(&self, crate_type: String, target_dir: &str) -> (r: Result<
        Option<String>,
        UnmountError,
    >)
        requires
            self.wf(),
        ensures
            r == Ok::<Option<String>, UnmountError>(None) <==> forall|j: int|
                0 <= j < self.spec_artifact().kinds.len() ==> self.spec_artifact().kinds[j]
                    != crate_type@,
            forall|i: int|
                Artifact::is_first_kind(self.spec_artifact().kinds, crate_type@, i) ==> {
                    let host = host_path(
                        self.spec_mount_root(),
                        self.spec_artifact().paths[i],
                        target_dir@,
                    );
                    &&& (r is Ok <==> host is Some)
                    &&& (r matches Ok(Some(s)) ==> host == Some(s@))
                },
    {
        match self.mounted_file(&crate_type) {
            Some(p) => {
                proof {
                    assert forall|i: int|
                        #![trigger Artifact::is_first_kind(self.spec_artifact().kinds, crate_type@, i)]
                        Artifact::is_first_kind(self.spec_artifact().kinds, crate_type@, i)
                        implies p@ == self.spec_artifact().paths[i] by {
                        let k = choose|k: int|
                            Artifact::is_first_kind(self.spec_artifact().kinds, crate_type@, k)
                                && p@ == self.spec_artifact().paths[k];
                    }
                }
                match self.unmount(p, target_dir) {
                    Ok(s) => Ok(Some(s)),
                    Err(e) => Err(e),
                }
            },
            None => Ok(None),
        }
    }
}

/// Classifies lines one at a time on behalf of a caller that reads them,
/// attaching the session's mount context to each artifact found.
pub struct CargoReader {
    options: Options,
}

impl CargoReader {
    /// The mount root of the reader's options, if any.
    pub closed spec fn spec_mount_root(&self) -> Option<Seq<char>> {
        mount_root(self.options.mount_info)
    }

    /// The reader's mount context.
    pub closed spec fn spec_mount_info(&self) -> Option<MountInfoView> {
        mount_view(self.options.mount_info)
    }

    /// The reader's verbosity flag.
    pub closed spec fn spec_verbose(&self) -> bool {
        self.options.verbose
    }

    /// A reader with the given options.
    pub fn new(options: Options) -> (r: CargoReader)
        ensures
            r.spec_mount_root() == mount_root(options.mount_info),
            r.spec_mount_info() == mount_view(options.mount_info),
            r.spec_verbose() == options.verbose,
    {
        CargoReader { options }
    }

    /// Whether diagnostic narration is wanted.
    pub fn verbose(&self) -> (r: bool)
        ensures
            r == self.spec_verbose(),
    {
        self.options.verbose()
    }

    /// Classifies one line. Never fails.
    pub fn readline(&self, line: &str) -> (r: Event)
        ensures
            r@ == classified(line@),
            r.wf(),
    {
        parse_message(line)
    }

    /// Pairs an artifact with this reader's mount context.
    pub fn artifact(&self, artifact: Artifact) -> (r: CargoArtifact)
        requires
            artifact.wf(),
        ensures
            r.wf(),
            r.spec_artifact() == artifact@,
            r.spec_mount_root() == self.spec_mount_root(),
            r.spec_mount_info() == self.spec_mount_info(),
    {
        CargoArtifact::new(artifact, duplicate_mount(&self.options.mount_info))
    }
}

} // verus!
