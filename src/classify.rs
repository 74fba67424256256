use vstd::prelude::*;
use cargo_metadata::Message;
use serde::Deserialize;
use crate::event::{Artifact, Event, EventView};

verus! {

/// What the build tool's message decoder makes of one line: the decoded
/// event, or nothing when the line is not a message of a known kind.
pub uninterp spec fn decoded_line(line: Seq<char>) -> Option<EventView>;

/// Relies on `cargo_metadata::Message`'s `Deserialize` impl, driven by a
/// `serde_json::Deserializer` with its recursion limit disabled, and on
/// `Deserializer::end`, which fails where anything but whitespace follows
/// the message: the result is a function of the line's text alone.
#[verifier::external_body]
fn decode_line(line: &str) -> (r: Option<Event>)
    ensures
        r matches Some(e) ==> decoded_line(line@) == Some(e@),
        r is None ==> decoded_line(line@) is None,
{
    let mut de = serde_json::Deserializer::from_str(line);
    de.disable_recursion_limit();
    match (Message::deserialize(&mut de), de.end()) {
        (Ok(Message::CompilerArtifact(a)), Ok(())) => Some(Event::CompilationArtifact(Artifact {
            crate_name: a.target.name,
            kinds: a.target.crate_types,
            paths: a.filenames.into_iter().map(|p| p.into_string()).collect(),
        })),
        (Ok(Message::CompilerMessage(_)), Ok(())) => Some(Event::CompilerDiagnostic),
        (Ok(Message::BuildScriptExecuted(_)), Ok(())) => Some(Event::BuildScriptExecuted),
        (Ok(Message::BuildFinished(f)), Ok(())) => Some(Event::BuildFinished(f.success)),
        _ => None,
    }
}

/// The event that a line classifies as, given what the decoder made of it:
/// a decoded, well-formed event is kept; anything else is the line's raw text.
pub open spec fn classification(line: Seq<char>, decoded: Option<EventView>) -> EventView {
    match decoded {
        Some(e) => if e.wf() {
            e
        } else {
            EventView::FreeTextLine(line)
        },
        None => EventView::FreeTextLine(line),
    }
}

/// The event that a line of build output classifies as.
pub open spec fn classified(line: Seq<char>) -> EventView {
    classification(line, decoded_line(line))
}

/// Classifies a line given the decoder's result for it. Never fails: an
/// undecodable line, or an artifact whose kinds and paths are not parallel,
/// becomes free text holding the line unmodified.
pub fn classify_decoded(line: &str, decoded: Option<Event>) -> (r: Event)
    ensures
        r@ == classification(line@, match decoded {
            Some(e) => Some(e@),
            None => None,
        }),
        r.wf(),
{
    match decoded {
        Some(Event::CompilationArtifact(a)) => {
            if a.kinds.len() == a.paths.len() {
                Event::CompilationArtifact(a)
            } else {
                Event::FreeTextLine(line.to_owned())
            }
        },
        Some(e) => e,
        None => Event::FreeTextLine(line.to_owned()),
    }
}

/// Classifies one line of the build tool's output. Never fails.
pub fn parse_message(line: &str) -> (r: Event)
    ensures
        r@ == classified(line@),
        r.wf(),
{
    let decoded = decode_line(line);
    classify_decoded(line, decoded)
}

/// A line that the decoder does not recognize, or whose artifact payload
/// lacks the expected shape, classifies as free text holding the line
/// unmodified.
pub proof fn lemma_unrecognized_is_free_text(line: Seq<char>)
    requires
        decoded_line(line) matches Some(e) ==> !e.wf(),
    ensures
        classified(line) == EventView::FreeTextLine(line),
{
}

/// Every artifact that classification yields has as many output paths as
/// output kinds.
pub proof fn lemma_classified_artifacts_parallel(line: Seq<char>)
    ensures
        classified(line) matches EventView::CompilationArtifact(a) ==> a.kinds.len()
            == a.paths.len(),
{
}

} // verus!
