use vstd::prelude::*;
use crate::classify::{classified, parse_message};
use crate::event::{Event, EventView};
use crate::mount::{duplicate_mount, mount_root, mount_view, MountInfo, Options};

verus! {

/// What one read of a line-oriented source produced.
pub enum RawRead {
    /// A complete line, without its terminator.
    Line(String),
    /// The source has no data yet and would block.
    WouldBlock,
    /// The read failed, with the failure's description.
    Failed(String),
    /// The source reported end of input.
    End,
}

/// The mathematical model of a [`RawRead`].
pub enum RawReadView {
    Line(Seq<char>),
    WouldBlock,
    Failed(Seq<char>),
    End,
}

impl View for RawRead {
    type V = RawReadView;

    open spec fn view(&self) -> RawReadView {
        match self {
            RawRead::Line(l) => RawReadView::Line(l@),
            RawRead::WouldBlock => RawReadView::WouldBlock,
            RawRead::Failed(m) => RawReadView::Failed(m@),
            RawRead::End => RawReadView::End,
        }
    }
}

/// A read failure reported by the event stream.
pub enum ReadError {
    /// Try again shortly: the source has no data yet.
    WouldBlock,
    /// Any other failure, with its description.
    Other(String),
}

/// The mathematical model of a [`ReadError`].
pub enum ReadErrorView {
    WouldBlock,
    Other(Seq<char>),
}

impl View for ReadError {
    type V = ReadErrorView;

    open spec fn view(&self) -> ReadErrorView {
        match self {
            ReadError::WouldBlock => ReadErrorView::WouldBlock,
            ReadError::Other(m) => ReadErrorView::Other(m@),
        }
    }
}

/// The model of what the event stream hands out for one call.
pub type ItemView = Option<Result<EventView, ReadErrorView>>;

/// The model of an item handed out by the event stream.
pub open spec fn item_view(item: Option<Result<Event, ReadError>>) -> ItemView {
    match item {
        Some(Ok(e)) => Some(Ok(e@)),
        Some(Err(err)) => Some(Err(err@)),
        None => None,
    }
}

/// One step of the event stream: whether it is exhausted afterwards, and
/// the item handed out, given whether it was exhausted before and what the
/// source produced.
pub open spec fn stream_step(exhausted: bool, read: RawReadView) -> (bool, ItemView) {
    if exhausted {
        (true, None)
    } else {
        match read {
            RawReadView::Line(l) => (false, Some(Ok(classified(l)))),
            RawReadView::WouldBlock => (false, Some(Err(ReadErrorView::WouldBlock))),
            RawReadView::Failed(m) => (false, Some(Err(ReadErrorView::Other(m)))),
            RawReadView::End => (true, None),
        }
    }
}

/// The items handed out for a sequence of reads, from a given state.
pub open spec fn stream_items(exhausted: bool, reads: Seq<RawReadView>) -> Seq<ItemView>
    decreases reads.len(),
{
    if reads.len() == 0 {
        Seq::empty()
    } else {
        let (ex, item) = stream_step(exhausted, reads[0]);
        seq![item] + stream_items(ex, reads.drop_first())
    }
}

/// A lazy, forward-only stream of classified events over one input source.
/// The source itself is read by the caller, who hands each read's outcome
/// to [`CargoMessages::next`].
pub struct CargoMessages {
    options: Options,
    exhausted: bool,
}

impl CargoMessages {
    /// Whether the source has reported end of input.
    pub closed spec fn is_exhausted(&self) -> bool {
        self.exhausted
    }

    /// The mount root of the session, if any.
    pub closed spec fn spec_mount_root(&self) -> Option<Seq<char>> {
        mount_root(self.options.mount_info)
    }

    /// The session's mount context.
    pub closed spec fn spec_mount_info(&self) -> Option<crate::mount::MountInfoView> {
        mount_view(self.options.mount_info)
    }

    /// The session's verbosity flag.
    pub closed spec fn spec_verbose(&self) -> bool {
        self.options.verbose
    }

    /// A fresh session over a source that has not been read yet.
    pub fn new(mount_info: Option<MountInfo>, verbose: bool) -> (r: CargoMessages)
        ensures
            !r.is_exhausted(),
            r.spec_mount_info() == mount_view(mount_info),
            r.spec_mount_root() == mount_root(mount_info),
            r.spec_verbose() == verbose,
    {
        CargoMessages { options: Options { mount_info, verbose }, exhausted: false }
    }

    /// Whether diagnostic narration is wanted.
    pub fn verbose(&self) -> (r: bool)
        ensures
            r == self.spec_verbose(),
    {
        self.options.verbose
    }

    /// A copy of the session's mount context.
    pub fn mount_info(&self) -> (r: Option<MountInfo>)
        ensures
            mount_view(r) == self.spec_mount_info(),
            mount_root(r) == self.spec_mount_root(),
    {
        duplicate_mount(&self.options.mount_info)
    }

    /// Whether the source has reported end of input.
    pub fn exhausted(&self) -> (r: bool)
        ensures
            r == self.is_exhausted(),
    {
        self.exhausted
    }

    /// Hands out the next item, given what one read of the source produced:
    /// the classified line, a read error, or nothing once the source has
    /// reported end of input, on this call or any earlier one.
    pub fn next(&mut self, read: RawRead) -> (r: Option<Result<Event, ReadError>>)
        ensures
            (final(self).is_exhausted(), item_view(r)) == stream_step(old(self).is_exhausted(), read@),
            final(self).spec_mount_info() == old(self).spec_mount_info(),
            final(self).spec_mount_root() == old(self).spec_mount_root(),
            final(self).spec_verbose() == old(self).spec_verbose(),
            r matches Some(Ok(e)) ==> e.wf(),
    {
        if self.exhausted {
            return None;
        }
        match read {
            RawRead::Line(l) => Some(Ok(parse_message(l.as_str()))),
            RawRead::WouldBlock => Some(Err(ReadError::WouldBlock)),
            RawRead::Failed(m) => Some(Err(ReadError::Other(m))),
            RawRead::End => {
                self.exhausted = true;
                None
            },
        }
    }
}

/// The stream hands out one item per read.
pub proof fn lemma_stream_items_len(exhausted: bool, reads: Seq<RawReadView>)
    ensures
        stream_items(exhausted, reads).len() == reads.len(),
    decreases reads.len(),
{
    if reads.len() > 0 {
        let (ex, item) = stream_step(exhausted, reads[0]);
        lemma_stream_items_len(ex, reads.drop_first());
    }
}

/// Once the source is exhausted, every further call reports that there are
/// no further events, whatever the source produces.
pub proof fn lemma_exhausted_stays_empty(reads: Seq<RawReadView>)
    ensures
        forall|i: int| 0 <= i < reads.len() ==> #[trigger] stream_items(true, reads)[i] is None,
    decreases reads.len(),
{
    lemma_stream_items_len(true, reads);
    if reads.len() > 0 {
        lemma_exhausted_stays_empty(reads.drop_first());
        lemma_stream_items_len(true, reads.drop_first());
        assert forall|i: int| 0 <= i < reads.len() implies #[trigger] stream_items(true, reads)[i] is None by {
            if i > 0 {
                assert(stream_items(true, reads)[i] == stream_items(true, reads.drop_first())[i - 1]);
            }
        }
    }
}

/// The end of input, followed by any reads, yields no events.
pub proof fn lemma_end_then_nothing(exhausted: bool, reads: Seq<RawReadView>)
    ensures
        forall|i: int|
            0 <= i < reads.len() + 1 ==> #[trigger] stream_items(
                exhausted,
                seq![RawReadView::End] + reads,
            )[i] is None,
{
    let all = seq![RawReadView::End] + reads;
    assert(all.drop_first() =~= reads);
    lemma_exhausted_stays_empty(reads);
    lemma_stream_items_len(true, reads);
    lemma_stream_items_len(exhausted, all);
    assert forall|i: int| 0 <= i < reads.len() + 1 implies #[trigger] stream_items(exhausted, all)[i] is None by {
        if i > 0 {
            assert(stream_items(exhausted, all)[i] == stream_items(true, reads)[i - 1]);
        }
    }
}

/// A read that would block is no terminal failure: the stream stays open,
/// and a line read afterwards is handed out classified.
pub proof fn lemma_would_block_then_line(line: Seq<char>)
    ensures
        stream_items(false, seq![RawReadView::WouldBlock, RawReadView::Line(line)]) == seq![
            Some(Err::<EventView, ReadErrorView>(ReadErrorView::WouldBlock)),
            Some(Ok::<EventView, ReadErrorView>(classified(line))),
        ],
{
    let reads = seq![RawReadView::WouldBlock, RawReadView::Line(line)];
    let rest = seq![RawReadView::Line(line)];
    assert(reads.drop_first() =~= rest);
    assert(rest.drop_first() =~= Seq::<RawReadView>::empty());
    assert(stream_items(false, Seq::<RawReadView>::empty()) =~= Seq::<ItemView>::empty());
    assert(stream_items(false, rest) =~= seq![Some(Ok::<EventView, ReadErrorView>(classified(line)))]);
    assert(stream_items(false, reads) =~= seq![
        Some(Err::<EventView, ReadErrorView>(ReadErrorView::WouldBlock)),
        Some(Ok::<EventView, ReadErrorView>(classified(line))),
    ]);
}

} // verus!
