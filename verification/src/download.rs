//! The course of one download: which action follows which outcome.
//!
//! The caller performs each [`DownloadAction`] and reports its outcome as a
//! [`DownloadEvent`]; [`Download::step`] then says what to do next. The user
//! can stop a download between two chunks, never within one.

use vstd::prelude::*;
use crate::error::{ErrorKind, ErrorView, UpdateError, out_of_turn};
use crate::progress::{Progress, ProgressView, after_add_current};

verus! {

/// The largest number of bytes that one read may ask for.
pub const CHUNK_SIZE: usize = 16384;

/// How a download ended.
#[derive(Debug)]
pub enum DownloadResult {
    /// The whole body is in the temporary file, which is at its start.
    Complete,
    /// The user stopped the download.
    Cancelled,
    /// The download failed.
    Error(UpdateError),
}

/// The mathematical value of a [`DownloadResult`].
pub enum DownloadResultView {
    Complete,
    Cancelled,
    Error(ErrorView),
}

impl View for DownloadResult {
    type V = DownloadResultView;

    open spec fn view(&self) -> DownloadResultView {
        match self {
            DownloadResult::Complete => DownloadResultView::Complete,
            DownloadResult::Cancelled => DownloadResultView::Cancelled,
            DownloadResult::Error(e) => DownloadResultView::Error(e@),
        }
    }
}

/// Where a download stands.
#[derive(Clone, Copy, Debug, PartialEq, Eq, Structural)]
pub enum DownloadPhase {
    /// Nothing was asked for yet.
    Idle,
    /// The request is under way.
    Requesting,
    /// The temporary file is being created.
    Opening,
    /// A chunk is being read.
    Reading,
    /// A chunk is being written.
    Writing,
    /// The temporary file is being flushed.
    Flushing,
    /// The temporary file is being set back to its start.
    Rewinding,
    /// The download has ended.
    Done,
}

/// What a read brought.
#[derive(Debug)]
pub enum ReadOutcome {
    /// The body has ended.
    Eof,
    /// This many bytes were read; there is at least one.
    Chunk(usize),
    /// The read was interrupted before it brought anything.
    Interrupted,
    /// The read failed, with this message.
    Failed(String),
}

/// The outcome of the action that was asked for last.
#[derive(Debug)]
pub enum DownloadEvent {
    /// The caller is ready to begin.
    Started,
    /// The request was answered: successfully or not.
    Responded { ok: bool },
    /// The temporary file was created, or creating it failed with a message.
    Opened { error: Option<String> },
    /// A read has returned.
    Read(ReadOutcome),
    /// The chunk was written, or writing it failed with a message.
    Written { error: Option<String> },
    /// The file was flushed, or flushing it failed with a message.
    Flushed { error: Option<String> },
    /// The file is at its start, or seeking failed with a message.
    Rewound { error: Option<String> },
}

/// The mathematical value of a [`ReadOutcome`].
pub enum ReadOutcomeView {
    Eof,
    Chunk(usize),
    Interrupted,
    Failed(Seq<char>),
}

impl View for ReadOutcome {
    type V = ReadOutcomeView;

    open spec fn view(&self) -> ReadOutcomeView {
        match self {
            ReadOutcome::Eof => ReadOutcomeView::Eof,
            ReadOutcome::Chunk(n) => ReadOutcomeView::Chunk(*n),
            ReadOutcome::Interrupted => ReadOutcomeView::Interrupted,
            ReadOutcome::Failed(message) => ReadOutcomeView::Failed(message@),
        }
    }
}

/// The message of a failure, if there is one, as a sequence of characters.
pub open spec fn message_view(error: Option<String>) -> Option<Seq<char>> {
    match error {
        Some(message) => Some(message@),
        None => None,
    }
}

/// The mathematical value of a [`DownloadEvent`].
pub enum DownloadEventView {
    Started,
    Responded { ok: bool },
    Opened { error: Option<Seq<char>> },
    Read(ReadOutcomeView),
    Written { error: Option<Seq<char>> },
    Flushed { error: Option<Seq<char>> },
    Rewound { error: Option<Seq<char>> },
}

impl View for DownloadEvent {
    type V = DownloadEventView;

    open spec fn view(&self) -> DownloadEventView {
        match self {
            DownloadEvent::Started => DownloadEventView::Started,
            DownloadEvent::Responded { ok } => DownloadEventView::Responded { ok: *ok },
            DownloadEvent::Opened { error } => DownloadEventView::Opened {
                error: message_view(*error),
            },
            DownloadEvent::Read(outcome) => DownloadEventView::Read(outcome@),
            DownloadEvent::Written { error } => DownloadEventView::Written {
                error: message_view(*error),
            },
            DownloadEvent::Flushed { error } => DownloadEventView::Flushed {
                error: message_view(*error),
            },
            DownloadEvent::Rewound { error } => DownloadEventView::Rewound {
                error: message_view(*error),
            },
        }
    }
}

/// What the caller has to do next.
#[derive(Debug)]
pub enum DownloadAction {
    /// Send a GET request to the asset's address.
    Request,
    /// Create a new temporary file.
    OpenTempFile,
    /// Read at most this many bytes of the body.
    ReadChunk(usize),
    /// Write the first bytes of the buffer, this many of them, to the file.
    WriteChunk(usize),
    /// Flush the file.
    Flush,
    /// Set the file back to its start.
    Rewind,
    /// The download has ended in this way.
    Finish(DownloadResult),
}

/// The mathematical value of a [`DownloadAction`].
pub enum DownloadActionView {
    Request,
    OpenTempFile,
    ReadChunk(usize),
    WriteChunk(usize),
    Flush,
    Rewind,
    Finish(DownloadResultView),
}

impl View for DownloadAction {
    type V = DownloadActionView;

    open spec fn view(&self) -> DownloadActionView {
        match self {
            DownloadAction::Request => DownloadActionView::Request,
            DownloadAction::OpenTempFile => DownloadActionView::OpenTempFile,
            DownloadAction::ReadChunk(n) => DownloadActionView::ReadChunk(*n),
            DownloadAction::WriteChunk(n) => DownloadActionView::WriteChunk(*n),
            DownloadAction::Flush => DownloadActionView::Flush,
            DownloadAction::Rewind => DownloadActionView::Rewind,
            DownloadAction::Finish(r) => DownloadActionView::Finish(r@),
        }
    }
}

/// A download in progress.
#[derive(Debug)]
pub struct Download {
    size: u64,
    phase: DownloadPhase,
    pending: usize,
}

/// What one step of a download leads to.
pub struct DownloadStep {
    pub phase: DownloadPhase,
    pub pending: usize,
    pub progress: ProgressView,
    pub action: DownloadActionView,
}

/// Whether `event` reports the outcome of the action that `phase` waits for.
pub open spec fn expects(phase: DownloadPhase, event: DownloadEventView) -> bool {
    match phase {
        DownloadPhase::Idle => event is Started,
        DownloadPhase::Requesting => event is Responded,
        DownloadPhase::Opening => event is Opened,
        DownloadPhase::Reading => event matches DownloadEventView::Read(outcome) && (outcome
            matches ReadOutcomeView::Chunk(n) ==> n > 0),
        DownloadPhase::Writing => event is Written,
        DownloadPhase::Flushing => event is Flushed,
        DownloadPhase::Rewinding => event is Rewound,
        DownloadPhase::Done => false,
    }
}

/// The end of a download by an error of kind `kind` with message `message`.
pub open spec fn failed(progress: ProgressView, kind: ErrorKind, message: Seq<char>) -> DownloadStep {
    DownloadStep {
        phase: DownloadPhase::Done,
        pending: 0,
        progress,
        action: DownloadActionView::Finish(
            DownloadResultView::Error(ErrorView { kind, message }),
        ),
    }
}

/// Before each read the user's wish is looked up: a cancelled download
/// ends, any other reads its next chunk.
pub open spec fn read_or_cancel(progress: ProgressView) -> DownloadStep {
    if progress.cancelled {
        DownloadStep {
            phase: DownloadPhase::Done,
            pending: 0,
            progress,
            action: DownloadActionView::Finish(DownloadResultView::Cancelled),
        }
    } else {
        DownloadStep {
            phase: DownloadPhase::Reading,
            pending: 0,
            progress,
            action: DownloadActionView::ReadChunk(CHUNK_SIZE),
        }
    }
}

/// What follows when one action went well (`error` is `None`) or failed.
pub open spec fn on_file_outcome(
    progress: ProgressView,
    error: Option<Seq<char>>,
    then: DownloadStep,
) -> DownloadStep {
    match error {
        Some(message) => failed(progress, ErrorKind::Io, message),
        None => then,
    }
}

/// The transition of a download of `size` bytes: from a phase, the number of
/// bytes that wait to be written and the progress, by an event. An event
/// that the phase does not expect ends the download with an error.
pub open spec fn next_step(
    size: u64,
    phase: DownloadPhase,
    pending: usize,
    progress: ProgressView,
    event: DownloadEventView,
) -> DownloadStep {
    if expects(phase, event) {
        expected_step(size, pending, progress, event)
    } else {
        failed(progress, out_of_turn().kind, out_of_turn().message)
    }
}

/// The transition of a download by an event that its phase expects.
pub open spec fn expected_step(
    size: u64,
    pending: usize,
    progress: ProgressView,
    event: DownloadEventView,
) -> DownloadStep {
    match event {
        DownloadEventView::Started => DownloadStep {
            phase: DownloadPhase::Requesting,
            pending: 0,
            progress,
            action: DownloadActionView::Request,
        },
        DownloadEventView::Responded { ok } => if ok {
            DownloadStep {
                phase: DownloadPhase::Opening,
                pending: 0,
                progress: ProgressView { maximum: size, indeterminate: false, ..progress },
                action: DownloadActionView::OpenTempFile,
            }
        } else {
            failed(progress, ErrorKind::Network, "Response not OK"@)
        },
        DownloadEventView::Opened { error } => on_file_outcome(progress, error, read_or_cancel(progress)),
        DownloadEventView::Read(outcome) => match outcome {
            ReadOutcomeView::Eof => DownloadStep {
                phase: DownloadPhase::Flushing,
                pending: 0,
                progress,
                action: DownloadActionView::Flush,
            },
            ReadOutcomeView::Chunk(n) => DownloadStep {
                phase: DownloadPhase::Writing,
                pending: n,
                progress,
                action: DownloadActionView::WriteChunk(n),
            },
            ReadOutcomeView::Interrupted => read_or_cancel(progress),
            ReadOutcomeView::Failed(message) => failed(progress, ErrorKind::Io, message),
        },
        DownloadEventView::Written { error } => on_file_outcome(
            progress,
            error,
            read_or_cancel(after_add_current(progress, pending as u64)),
        ),
        DownloadEventView::Flushed { error } => on_file_outcome(
            progress,
            error,
            DownloadStep {
                phase: DownloadPhase::Rewinding,
                pending: 0,
                progress,
                action: DownloadActionView::Rewind,
            },
        ),
        DownloadEventView::Rewound { error } => on_file_outcome(
            progress,
            error,
            DownloadStep {
                phase: DownloadPhase::Done,
                pending: 0,
                progress,
                action: DownloadActionView::Finish(DownloadResultView::Complete),
            },
        ),
    }
}

impl Download {
    /// The size that the asset announced.
    pub closed spec fn spec_size(&self) -> u64 {
        self.size
    }

    /// Where the download stands.
    pub closed spec fn spec_phase(&self) -> DownloadPhase {
        self.phase
    }

    /// The number of bytes that were read and not yet written.
    pub closed spec fn spec_pending(&self) -> usize {
        self.pending
    }

    /// A download of an asset of `size` bytes, not yet begun.
    pub fn new(size: u64) -> (d: Download)
        ensures
            d.spec_size() == size,
            d.spec_phase() == DownloadPhase::Idle,
            d.spec_pending() == 0,
    {
        Download { size, phase: DownloadPhase::Idle, pending: 0 }
    }

    /// The size that the asset announced.
    #[verifier::when_used_as_spec(spec_size)]
    pub fn size(&self) -> (r: u64)
        ensures
            r == self.spec_size(),
    {
        self.size
    }

    /// Where the download stands.
    #[verifier::when_used_as_spec(spec_phase)]
    pub fn phase(&self) -> (r: DownloadPhase)
        ensures
            r == self.spec_phase(),
    {
        self.phase
    }

    /// Whether `event` is the outcome that the download waits for.
    pub fn accepts(&self, event: &DownloadEvent) -> (r: bool)
        ensures
            r == expects(self.spec_phase(), event@),
    {
        match self.phase {
            DownloadPhase::Idle => matches!(event, DownloadEvent::Started),
            DownloadPhase::Requesting => matches!(event, DownloadEvent::Responded { .. }),
            DownloadPhase::Opening => matches!(event, DownloadEvent::Opened { .. }),
            DownloadPhase::Reading => match event {
                DownloadEvent::Read(ReadOutcome::Chunk(n)) => *n > 0,
                DownloadEvent::Read(_) => true,
                _ => false,
            },
            DownloadPhase::Writing => matches!(event, DownloadEvent::Written { .. }),
            DownloadPhase::Flushing => matches!(event, DownloadEvent::Flushed { .. }),
            DownloadPhase::Rewinding => matches!(event, DownloadEvent::Rewound { .. }),
            DownloadPhase::Done => false,
        }
    }

    /// Takes the outcome of the last action and says what to do next.
    pub fn step(&mut self, progress: &mut Progress, event: DownloadEvent) -> (action: DownloadAction)
        ensures
            final(self).spec_size() == old(self).spec_size(),
            (DownloadStep {
                phase: final(self).spec_phase(),
                pending: final(self).spec_pending(),
                progress: final(progress)@,
                action: action@,
            }) == next_step(
                old(self).spec_size(),
                old(self).spec_phase(),
                old(self).spec_pending(),
                old(progress)@,
                event@,
            ),
    {
        if !self.accepts(&event) {
            return self.fail(UpdateError::unexpected());
        }
        let pending = self.pending;
        self.pending = 0;
        match event {
            DownloadEvent::Started => {
                self.phase = DownloadPhase::Requesting;
                DownloadAction::Request
            },
            DownloadEvent::Responded { ok } => {
                if ok {
                    progress.set_maximum(self.size);
                    progress.set_indeterminate(false);
                    self.phase = DownloadPhase::Opening;
                    DownloadAction::OpenTempFile
                } else {
                    self.fail(UpdateError::new(ErrorKind::Network, "Response not OK"))
                }
            },
            DownloadEvent::Opened { error } => match error {
                Some(message) => self.fail(UpdateError::with_message(ErrorKind::Io, message)),
                None => self.read_or_cancel(progress),
            },
            DownloadEvent::Read(outcome) => match outcome {
                ReadOutcome::Eof => {
                    self.phase = DownloadPhase::Flushing;
                    DownloadAction::Flush
                },
                ReadOutcome::Chunk(n) => {
                    self.phase = DownloadPhase::Writing;
                    self.pending = n;
                    DownloadAction::WriteChunk(n)
                },
                ReadOutcome::Interrupted => self.read_or_cancel(progress),
                ReadOutcome::Failed(message) => self.fail(
                    UpdateError::with_message(ErrorKind::Io, message),
                ),
            },
            DownloadEvent::Written { error } => match error {
                Some(message) => self.fail(UpdateError::with_message(ErrorKind::Io, message)),
                None => {
                    progress.add_current(pending as u64);
                    self.read_or_cancel(progress)
                },
            },
            DownloadEvent::Flushed { error } => match error {
                Some(message) => self.fail(UpdateError::with_message(ErrorKind::Io, message)),
                None => {
                    self.phase = DownloadPhase::Rewinding;
                    DownloadAction::Rewind
                },
            },
            DownloadEvent::Rewound { error } => match error {
                Some(message) => self.fail(UpdateError::with_message(ErrorKind::Io, message)),
                None => {
                    self.phase = DownloadPhase::Done;
                    DownloadAction::Finish(DownloadResult::Complete)
                },
            },
        }
    }

    fn fail(&mut self, error: UpdateError) -> (action: DownloadAction)
        ensures
            final(self).spec_size() == old(self).spec_size(),
            final(self).spec_phase() == DownloadPhase::Done,
            final(self).spec_pending() == 0,
            action@ == DownloadActionView::Finish(DownloadResultView::Error(error@)),
    {
        self.phase = DownloadPhase::Done;
        self.pending = 0;
        DownloadAction::Finish(DownloadResult::Error(error))
    }

    fn read_or_cancel(&mut self, progress: &Progress) -> (action: DownloadAction)
        ensures
            final(self).spec_size() == old(self).spec_size(),
            (DownloadStep {
                phase: final(self).spec_phase(),
                pending: final(self).spec_pending(),
                progress: progress@,
                action: action@,
            }) == read_or_cancel(progress@),
    {
        self.pending = 0;
        if progress.cancelled() {
            self.phase = DownloadPhase::Done;
            DownloadAction::Finish(DownloadResult::Cancelled)
        } else {
            self.phase = DownloadPhase::Reading;
            DownloadAction::ReadChunk(CHUNK_SIZE)
        }
    }
}

/// Once the user has cancelled, no further chunk is read: whatever would
/// lead to a read ends the download as cancelled instead, so too after a
/// chunk was written.
pub proof fn lemma_no_read_after_cancel(
    size: u64,
    phase: DownloadPhase,
    pending: usize,
    progress: ProgressView,
    event: DownloadEventView,
)
    requires
        progress.cancelled,
    ensures
        !(next_step(size, phase, pending, progress, event).action is ReadChunk),
        phase == DownloadPhase::Writing && event == (DownloadEventView::Written { error: None })
            ==> next_step(
            size,
            phase,
            pending,
            progress,
            event,
        ).action == DownloadActionView::Finish(DownloadResultView::Cancelled),
{
}

/// A step of a download never touches the user's wish nor the mark of
/// completion, and adds to what is done exactly the bytes of a chunk that
/// was written.
pub proof fn lemma_step_accounts(
    size: u64,
    phase: DownloadPhase,
    pending: usize,
    progress: ProgressView,
    event: DownloadEventView,
)
    ensures
        ({
            let after = next_step(size, phase, pending, progress, event).progress;
            let written = phase == DownloadPhase::Writing && event == (DownloadEventView::Written {
                error: None,
            });
            let answered = phase == DownloadPhase::Requesting && event
                == (DownloadEventView::Responded { ok: true });
            &&& after.cancelled == progress.cancelled
            &&& after.complete == progress.complete
            &&& after.current == (if written {
                after_add_current(progress, pending as u64).current
            } else {
                progress.current
            })
            &&& answered ==> after.maximum == size && !after.indeterminate
            &&& !answered ==> after.maximum == progress.maximum && after.indeterminate
                == progress.indeterminate
        }),
{
}

/// Where a download stands between two steps.
pub struct DownloadState {
    pub phase: DownloadPhase,
    pub pending: usize,
    pub progress: ProgressView,
}

/// Where a download of `size` bytes stands after the events `events`, one
/// after the other, from `start`.
pub open spec fn run(size: u64, start: DownloadState, events: Seq<DownloadEventView>) -> DownloadState
    decreases events.len(),
{
    if events.len() == 0 {
        start
    } else {
        let before = run(size, start, events.drop_last());
        let step = next_step(size, before.phase, before.pending, before.progress, events.last());
        DownloadState { phase: step.phase, pending: step.pending, progress: step.progress }
    }
}

/// The number of bytes that were written to the file in the course of the
/// events `events` from `start`: the bytes of each chunk whose write went
/// well.
pub open spec fn written(size: u64, start: DownloadState, events: Seq<DownloadEventView>) -> nat
    decreases events.len(),
{
    if events.len() == 0 {
        0
    } else {
        let before = run(size, start, events.drop_last());
        let chunk = if before.phase == DownloadPhase::Writing && events.last()
            == (DownloadEventView::Written { error: None }) {
            before.pending as nat
        } else {
            0
        };
        written(size, start, events.drop_last()) + chunk
    }
}

/// Whatever happens in a download, what the progress counts as done grows by
/// exactly the bytes written, up to the largest number that it can hold; and
/// the download itself neither cancels nor completes the work.
pub proof fn lemma_progress_counts_written(
    size: u64,
    start: DownloadState,
    events: Seq<DownloadEventView>,
)
    ensures
        ({
            let end = run(size, start, events).progress;
            let sum = start.progress.current + written(size, start, events);
            &&& end.current == (if sum > u64::MAX {
                u64::MAX as int
            } else {
                sum
            })
            &&& end.cancelled == start.progress.cancelled
            &&& end.complete == start.progress.complete
        }),
    decreases events.len(),
{
    if events.len() > 0 {
        let before = run(size, start, events.drop_last());
        lemma_progress_counts_written(size, start, events.drop_last());
        lemma_step_accounts(size, before.phase, before.pending, before.progress, events.last());
    }
}

} // verus!
