//! The course of unpacking a zip archive, entry by entry.
//!
//! The caller reads the list of entries from the archive, unpacks each entry
//! that it is told to and reports how that went. The user can stop the
//! extraction between two entries, never within one.

use vstd::prelude::*;
use crate::error::{ErrorKind, ErrorView, UpdateError, out_of_turn};
use crate::extract::ExtractResult;
use crate::extract::path::{confined, is_confined};
use crate::progress::{Progress, ProgressView, after_add_current, saturating_sum};
use crate::text::chars_of;

verus! {

/// What the archive says of one entry.
#[derive(Clone, Debug)]
pub struct ZipEntry {
    /// The path of the entry, as the archive holds it.
    pub name: String,
    /// The size of the entry once unpacked, in bytes.
    pub size: u64,
    /// Whether the entry is a directory.
    pub is_dir: bool,
    /// The permission bits of the entry, where the archive records them.
    pub unix_mode: Option<u32>,
}

/// The mathematical value of a [`ZipEntry`].
pub struct ZipEntryView {
    pub name: Seq<char>,
    pub size: u64,
    pub is_dir: bool,
    pub unix_mode: Option<u32>,
}

impl View for ZipEntry {
    type V = ZipEntryView;

    open spec fn view(&self) -> ZipEntryView {
        ZipEntryView {
            name: self.name@,
            size: self.size,
            is_dir: self.is_dir,
            unix_mode: self.unix_mode,
        }
    }
}

/// The values of a list of entries.
pub open spec fn entries_view(entries: Seq<ZipEntry>) -> Seq<ZipEntryView> {
    entries.map_values(|e: ZipEntry| e@)
}

/// The sizes of the entries added up; the sum stops at the largest `u64`.
pub open spec fn total_size(entries: Seq<ZipEntryView>) -> u64
    decreases entries.len(),
{
    if entries.len() == 0 {
        0
    } else {
        saturating_sum(total_size(entries.drop_last()), entries.last().size)
    }
}

/// The outcome of what was asked for last.
#[derive(Debug)]
pub enum ExtractEvent {
    /// The caller is ready to begin.
    Started,
    /// The entry was unpacked, or unpacking it failed with a message.
    Unpacked { error: Option<String> },
}

/// The mathematical value of an [`ExtractEvent`].
pub enum ExtractEventView {
    Started,
    Unpacked { error: Option<Seq<char>> },
}

impl View for ExtractEvent {
    type V = ExtractEventView;

    open spec fn view(&self) -> ExtractEventView {
        match self {
            ExtractEvent::Started => ExtractEventView::Started,
            ExtractEvent::Unpacked { error: Some(message) } => ExtractEventView::Unpacked {
                error: Some(message@),
            },
            ExtractEvent::Unpacked { error: None } => ExtractEventView::Unpacked { error: None },
        }
    }
}

/// What the caller has to do next.
#[derive(Debug)]
pub enum ExtractAction {
    /// Unpack the entry at `index` to its path below the target directory:
    /// create the directory with its parents, or create the parents and
    /// write the file; then set the permission bits, where there are any.
    Unpack { index: usize, directory: bool, mode: Option<u32> },
    /// The extraction has ended in this way.
    Finish(Result<ExtractResult, UpdateError>),
}

/// The mathematical value of an [`ExtractAction`].
pub enum ExtractActionView {
    Unpack { index: usize, directory: bool, mode: Option<u32> },
    Finish(Result<ExtractResult, ErrorView>),
}

impl View for ExtractAction {
    type V = ExtractActionView;

    open spec fn view(&self) -> ExtractActionView {
        match self {
            ExtractAction::Unpack { index, directory, mode } => ExtractActionView::Unpack {
                index: *index,
                directory: *directory,
                mode: *mode,
            },
            ExtractAction::Finish(Ok(result)) => ExtractActionView::Finish(Ok(*result)),
            ExtractAction::Finish(Err(e)) => ExtractActionView::Finish(Err(e@)),
        }
    }
}

/// Where an extraction stands.
#[derive(Clone, Copy, Debug, PartialEq, Eq, Structural)]
pub enum ExtractPhase {
    /// Nothing was asked for yet.
    Idle,
    /// The entry at this index is being unpacked.
    Unpacking(usize),
    /// The extraction has ended.
    Done,
}

/// What one step of an extraction leads to.
pub struct ExtractStep {
    pub phase: ExtractPhase,
    pub progress: ProgressView,
    pub action: ExtractActionView,
}

/// The end of an extraction.
pub open spec fn finished(progress: ProgressView, result: Result<ExtractResult, ErrorView>) -> ExtractStep {
    ExtractStep { phase: ExtractPhase::Done, progress, action: ExtractActionView::Finish(result) }
}

/// What is done about the entry at `index`: behind the last entry the
/// extraction is complete; before an entry the user's wish is looked up;
/// an entry whose path leaves the target directory ends the extraction with
/// an error; any other entry is unpacked.
pub open spec fn turn_to(entries: Seq<ZipEntryView>, index: int, progress: ProgressView) -> ExtractStep {
    if index >= entries.len() {
        finished(progress, Ok(ExtractResult::Complete))
    } else if progress.cancelled {
        finished(progress, Ok(ExtractResult::Cancelled))
    } else if !is_confined(entries[index].name) {
        finished(
            progress,
            Err(ErrorView { kind: ErrorKind::DisallowedPath, message: "Disallowed path"@ }),
        )
    } else {
        ExtractStep {
            phase: ExtractPhase::Unpacking(index as usize),
            progress,
            action: ExtractActionView::Unpack {
                index: index as usize,
                directory: entries[index].is_dir,
                mode: entries[index].unix_mode,
            },
        }
    }
}

/// Whether `event` reports the outcome of what `phase` waits for, with
/// `count` entries in the archive.
pub open spec fn expects(phase: ExtractPhase, event: ExtractEventView, count: nat) -> bool {
    match phase {
        ExtractPhase::Idle => event is Started,
        ExtractPhase::Unpacking(index) => event is Unpacked && index < count,
        ExtractPhase::Done => false,
    }
}

/// The transition of an extraction. At the start the sizes of all entries
/// are added to the maximum of the progress, which is known from then on;
/// after each entry its size is added to what is done. An event that the
/// phase does not expect ends the extraction with an error.
pub open spec fn next_step(
    entries: Seq<ZipEntryView>,
    phase: ExtractPhase,
    progress: ProgressView,
    event: ExtractEventView,
) -> ExtractStep {
    if expects(phase, event, entries.len()) {
        expected_step(entries, phase, progress, event)
    } else {
        finished(progress, Err(out_of_turn()))
    }
}

/// The transition of an extraction by an event that its phase expects.
pub open spec fn expected_step(
    entries: Seq<ZipEntryView>,
    phase: ExtractPhase,
    progress: ProgressView,
    event: ExtractEventView,
) -> ExtractStep {
    match event {
        ExtractEventView::Started => turn_to(
            entries,
            0,
            ProgressView {
                maximum: saturating_sum(progress.maximum, total_size(entries)),
                indeterminate: false,
                ..progress
            },
        ),
        ExtractEventView::Unpacked { error } => match error {
            Some(message) => finished(progress, Err(ErrorView { kind: ErrorKind::Io, message })),
            None => match phase {
                ExtractPhase::Unpacking(index) => turn_to(
                    entries,
                    index + 1,
                    after_add_current(progress, entries[index as int].size),
                ),
                _ => finished(progress, Ok(ExtractResult::Complete)),
            },
        },
    }
}

/// The sizes of `entries` added up.
pub fn sum_sizes(entries: &Vec<ZipEntry>) -> (total: u64)
    ensures
        total == total_size(entries_view(entries@)),
{
    let ghost all = entries_view(entries@);
    let mut total: u64 = 0;
    let mut i: usize = 0;
    proof {
        assert(all.take(0) =~= Seq::<ZipEntryView>::empty());
    }
    while i < entries.len()
        invariant
            i <= entries@.len(),
            all == entries_view(entries@),
            total == total_size(all.take(i as int)),
        decreases entries.len() - i,
    {
        proof {
            assert(all.take(i + 1).drop_last() =~= all.take(i as int));
            assert(all.take(i + 1).last() == entries@[i as int]@);
        }
        total = total.saturating_add(entries[i].size);
        i = i + 1;
    }
    proof {
        assert(all.take(entries@.len() as int) =~= all);
    }
    total
}

/// A zip extraction in progress.
#[derive(Debug)]
pub struct ZipExtraction {
    entries: Vec<ZipEntry>,
    phase: ExtractPhase,
}

impl ZipExtraction {
    /// The entries of the archive, in its order.
    pub closed spec fn spec_entries(&self) -> Seq<ZipEntryView> {
        entries_view(self.entries@)
    }

    /// Where the extraction stands.
    pub closed spec fn spec_phase(&self) -> ExtractPhase {
        self.phase
    }

    /// The extraction of an archive with the given entries, not yet begun.
    pub fn new(entries: Vec<ZipEntry>) -> (z: ZipExtraction)
        ensures
            z.spec_entries() == entries_view(entries@),
            z.spec_phase() == ExtractPhase::Idle,
    {
        ZipExtraction { entries, phase: ExtractPhase::Idle }
    }

    /// Where the extraction stands.
    pub fn phase(&self) -> (r: ExtractPhase)
        ensures
            r == self.spec_phase(),
    {
        self.phase
    }

    /// The entries of the archive.
    pub fn entries(&self) -> (r: &Vec<ZipEntry>)
        ensures
            entries_view(r@) == self.spec_entries(),
    {
        &self.entries
    }

    /// Whether `event` is the outcome that the extraction waits for.
    pub fn accepts(&self, event: &ExtractEvent) -> (r: bool)
        ensures
            r == expects(self.spec_phase(), event@, self.spec_entries().len()),
    {
        match self.phase {
            ExtractPhase::Idle => matches!(event, ExtractEvent::Started),
            ExtractPhase::Unpacking(index) => matches!(event, ExtractEvent::Unpacked { .. })
                && index < self.entries.len(),
            ExtractPhase::Done => false,
        }
    }

    /// Takes the outcome of what was asked for last and says what to do
    /// next.
    pub fn step(&mut self, progress: &mut Progress, event: ExtractEvent) -> (action: ExtractAction)
        ensures
            final(self).spec_entries() == old(self).spec_entries(),
            (ExtractStep {
                phase: final(self).spec_phase(),
                progress: final(progress)@,
                action: action@,
            }) == next_step(old(self).spec_entries(), old(self).spec_phase(), old(progress)@, event@),
    {
        if !self.accepts(&event) {
            self.phase = ExtractPhase::Done;
            return ExtractAction::Finish(Err(UpdateError::unexpected()));
        }
        match event {
            ExtractEvent::Started => {
                progress.add_maximum(sum_sizes(&self.entries));
                progress.set_indeterminate(false);
                self.turn_to(0, progress)
            },
            ExtractEvent::Unpacked { error } => match error {
                Some(message) => {
                    self.phase = ExtractPhase::Done;
                    ExtractAction::Finish(Err(UpdateError::with_message(ErrorKind::Io, message)))
                },
                None => match self.phase {
                    ExtractPhase::Unpacking(index) => {
                        let count = self.entries.len();
                        assert(index < count);
                        progress.add_current(self.entries[index].size);
                        self.turn_to(index + 1, progress)
                    },
                    _ => {
                        self.phase = ExtractPhase::Done;
                        ExtractAction::Finish(Ok(ExtractResult::Complete))
                    },
                },
            },
        }
    }

    fn turn_to(&mut self, index: usize, progress: &Progress) -> (action: ExtractAction)
        requires
            index <= old(self).entries@.len(),
        ensures
            final(self).spec_entries() == old(self).spec_entries(),
            (ExtractStep { phase: final(self).spec_phase(), progress: progress@, action: action@ })
                == turn_to(old(self).spec_entries(), index as int, progress@),
    {
        if index >= self.entries.len() {
            self.phase = ExtractPhase::Done;
            return ExtractAction::Finish(Ok(ExtractResult::Complete));
        }
        if progress.cancelled() {
            self.phase = ExtractPhase::Done;
            return ExtractAction::Finish(Ok(ExtractResult::Cancelled));
        }
        let entry = &self.entries[index];
        let name = chars_of(entry.name.as_str());
        if !confined(name.as_slice()) {
            self.phase = ExtractPhase::Done;
            return ExtractAction::Finish(
                Err(UpdateError::new(ErrorKind::DisallowedPath, "Disallowed path")),
            );
        }
        let action = ExtractAction::Unpack {
            index,
            directory: entry.is_dir,
            mode: entry.unix_mode,
        };
        self.phase = ExtractPhase::Unpacking(index);
        action
    }
}

/// An entry whose path leaves the target directory is never unpacked: what
/// an extraction asks to unpack is confined to the directory.
pub proof fn lemma_unpacks_confined_only(
    entries: Seq<ZipEntryView>,
    phase: ExtractPhase,
    progress: ProgressView,
    event: ExtractEventView,
)
    requires
        entries.len() <= usize::MAX,
    ensures
        next_step(entries, phase, progress, event).action matches ExtractActionView::Unpack {
            index,
            ..
        } ==> index < entries.len() && is_confined(entries[index as int].name),
{
}

/// Once the user has cancelled, no further entry is unpacked.
pub proof fn lemma_no_unpack_after_cancel(
    entries: Seq<ZipEntryView>,
    phase: ExtractPhase,
    progress: ProgressView,
    event: ExtractEventView,
)
    requires
        progress.cancelled,
    ensures
        !(next_step(entries, phase, progress, event).action is Unpack),
{
}

/// The entries are unpacked in the order of the archive, each once: the
/// first entry asked for is the first of the archive, and after an entry
/// the next one asked for is the one behind it.
pub proof fn lemma_unpacks_in_order(
    entries: Seq<ZipEntryView>,
    phase: ExtractPhase,
    progress: ProgressView,
    event: ExtractEventView,
)
    requires
        entries.len() <= usize::MAX,
    ensures
        match next_step(entries, phase, progress, event).action {
            ExtractActionView::Unpack { index, .. } => match phase {
                ExtractPhase::Idle => index == 0,
                ExtractPhase::Unpacking(before) => index == before + 1,
                ExtractPhase::Done => false,
            },
            ExtractActionView::Finish(_) => next_step(entries, phase, progress, event).phase
                == ExtractPhase::Done,
        },
{
}

} // verus!
