//! The course of unpacking a gzip-compressed tar archive, entry by entry.
//!
//! The entries of such an archive come one after the other as the archive is
//! read, so their sizes are not known beforehand and the progress stays
//! indeterminate.

use vstd::prelude::*;
use crate::error::{ErrorKind, ErrorView, UpdateError, out_of_turn};
use crate::extract::ExtractResult;

verus! {

/// What the caller found when it did what was asked for last.
#[derive(Debug)]
pub enum TarEvent {
    /// The caller is ready to begin.
    Started,
    /// The archive holds a further entry.
    EntryFound,
    /// The archive holds no further entry.
    EndOfArchive,
    /// The entry was unpacked into the target directory.
    Unpacked,
    /// Reading the archive or unpacking the entry failed, with this message.
    Failed(String),
}

/// The mathematical value of a [`TarEvent`].
pub enum TarEventView {
    Started,
    EntryFound,
    EndOfArchive,
    Unpacked,
    Failed(Seq<char>),
}

impl View for TarEvent {
    type V = TarEventView;

    open spec fn view(&self) -> TarEventView {
        match self {
            TarEvent::Started => TarEventView::Started,
            TarEvent::EntryFound => TarEventView::EntryFound,
            TarEvent::EndOfArchive => TarEventView::EndOfArchive,
            TarEvent::Unpacked => TarEventView::Unpacked,
            TarEvent::Failed(message) => TarEventView::Failed(message@),
        }
    }
}

/// What the caller has to do next.
#[derive(Debug)]
pub enum TarAction {
    /// Read on to the next entry of the archive.
    Advance,
    /// Unpack the entry that was found into the target directory.
    Unpack,
    /// The extraction has ended in this way.
    Finish(Result<ExtractResult, UpdateError>),
}

/// The mathematical value of a [`TarAction`].
pub enum TarActionView {
    Advance,
    Unpack,
    Finish(Result<ExtractResult, ErrorView>),
}

impl View for TarAction {
    type V = TarActionView;

    open spec fn view(&self) -> TarActionView {
        match self {
            TarAction::Advance => TarActionView::Advance,
            TarAction::Unpack => TarActionView::Unpack,
            TarAction::Finish(Ok(result)) => TarActionView::Finish(Ok(*result)),
            TarAction::Finish(Err(e)) => TarActionView::Finish(Err(e@)),
        }
    }
}

/// Where an extraction stands.
#[derive(Clone, Copy, Debug, PartialEq, Eq, Structural)]
pub enum TarPhase {
    /// Nothing was asked for yet.
    Idle,
    /// The next entry is being looked for.
    Advancing,
    /// An entry is being unpacked.
    Unpacking,
    /// The extraction has ended.
    Done,
}

/// Whether `event` reports the outcome of what `phase` waits for.
pub open spec fn expects(phase: TarPhase, event: TarEventView) -> bool {
    match phase {
        TarPhase::Idle => event is Started,
        TarPhase::Advancing => event is EntryFound || event is EndOfArchive || event is Failed,
        TarPhase::Unpacking => event is Unpacked || event is Failed,
        TarPhase::Done => false,
    }
}

/// The transition of an extraction: the phase and the action that follow an
/// event, given whether the user has cancelled. The user's wish is looked up
/// before each entry is unpacked. An event that the phase does not expect
/// ends the extraction with an error.
pub open spec fn next_step(phase: TarPhase, event: TarEventView, cancelled: bool) -> (
    TarPhase,
    TarActionView,
) {
    if expects(phase, event) {
        expected_step(event, cancelled)
    } else {
        (TarPhase::Done, TarActionView::Finish(Err(out_of_turn())))
    }
}

/// The transition of an extraction by an event that its phase expects.
pub open spec fn expected_step(event: TarEventView, cancelled: bool) -> (TarPhase, TarActionView) {
    match event {
        TarEventView::Started => (TarPhase::Advancing, TarActionView::Advance),
        TarEventView::EntryFound => if cancelled {
            (TarPhase::Done, TarActionView::Finish(Ok(ExtractResult::Cancelled)))
        } else {
            (TarPhase::Unpacking, TarActionView::Unpack)
        },
        TarEventView::EndOfArchive => (
            TarPhase::Done,
            TarActionView::Finish(Ok(ExtractResult::Complete)),
        ),
        TarEventView::Unpacked => (TarPhase::Advancing, TarActionView::Advance),
        TarEventView::Failed(message) => (
            TarPhase::Done,
            TarActionView::Finish(Err(ErrorView { kind: ErrorKind::Io, message })),
        ),
    }
}

/// A tar extraction in progress.
#[derive(Debug)]
pub struct TarExtraction {
    phase: TarPhase,
}

impl TarExtraction {
    /// Where the extraction stands.
    pub closed spec fn spec_phase(&self) -> TarPhase {
        self.phase
    }

    /// An extraction that has not begun.
    pub fn new() -> (t: TarExtraction)
        ensures
            t.spec_phase() == TarPhase::Idle,
    {
        TarExtraction { phase: TarPhase::Idle }
    }

    /// Where the extraction stands.
    pub fn phase(&self) -> (r: TarPhase)
        ensures
            r == self.spec_phase(),
    {
        self.phase
    }

    /// Whether `event` is the outcome that the extraction waits for.
    pub fn accepts(&self, event: &TarEvent) -> (r: bool)
        ensures
            r == expects(self.spec_phase(), event@),
    {
        match self.phase {
            TarPhase::Idle => matches!(event, TarEvent::Started),
            TarPhase::Advancing => matches!(
                event,
                TarEvent::EntryFound | TarEvent::EndOfArchive | TarEvent::Failed(_)
            ),
            TarPhase::Unpacking => matches!(event, TarEvent::Unpacked | TarEvent::Failed(_)),
            TarPhase::Done => false,
        }
    }

    /// Takes the outcome of what was asked for last and says what to do
    /// next. `cancelled` is the user's wish at this moment.
    pub fn step(&mut self, cancelled: bool, event: TarEvent) -> (action: TarAction)
        ensures
            (final(self).spec_phase(), action@) == next_step(
                old(self).spec_phase(),
                event@,
                cancelled,
            ),
    {
        if !self.accepts(&event) {
            self.phase = TarPhase::Done;
            return TarAction::Finish(Err(UpdateError::unexpected()));
        }
        match event {
            TarEvent::Started => {
                self.phase = TarPhase::Advancing;
                TarAction::Advance
            },
            TarEvent::EntryFound => {
                if cancelled {
                    self.phase = TarPhase::Done;
                    TarAction::Finish(Ok(ExtractResult::Cancelled))
                } else {
                    self.phase = TarPhase::Unpacking;
                    TarAction::Unpack
                }
            },
            TarEvent::EndOfArchive => {
                self.phase = TarPhase::Done;
                TarAction::Finish(Ok(ExtractResult::Complete))
            },
            TarEvent::Unpacked => {
                self.phase = TarPhase::Advancing;
                TarAction::Advance
            },
            TarEvent::Failed(message) => {
                self.phase = TarPhase::Done;
                TarAction::Finish(Err(UpdateError::with_message(ErrorKind::Io, message)))
            },
        }
    }
}

/// Once the user has cancelled, no further entry is unpacked.
pub proof fn lemma_no_unpack_after_cancel(phase: TarPhase, event: TarEventView)
    ensures
        !(next_step(phase, event, true).1 is Unpack),
{
}

} // verus!
