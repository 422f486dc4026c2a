//! Swapping an executable for a new one by three renames, so that a failure
//! on the way leaves the file in use in place wherever that can be done.
//!
//! The caller performs each [`ReplaceAction`] and reports how it went;
//! [`Replacement::step`] then says what to do next. The backup that a
//! successful swap leaves behind is not deleted here: the next start of the
//! program removes it before it swaps again.

use vstd::prelude::*;
use crate::error::{ErrorKind, ErrorView, UpdateError, out_of_turn};

verus! {

/// The three places that a swap moves a file between.
#[derive(Clone, Copy, Debug, PartialEq, Eq, Structural)]
pub enum Place {
    /// The new file.
    Replacement,
    /// The file in use, which is to be replaced.
    Target,
    /// Where the file in use is kept while the new one moves in.
    Backup,
}

/// What the caller has to do next.
#[derive(Debug)]
pub enum ReplaceAction {
    /// Find out whether a file stands at the place of the replacement.
    CheckReplacement,
    /// Rename the file at `from` to `to`.
    Rename { from: Place, to: Place },
    /// The swap has ended in this way.
    Finish(Result<(), UpdateError>),
}

/// The mathematical value of a [`ReplaceAction`].
pub enum ReplaceActionView {
    CheckReplacement,
    Rename { from: Place, to: Place },
    Finish(Result<(), ErrorView>),
}

impl View for ReplaceAction {
    type V = ReplaceActionView;

    open spec fn view(&self) -> ReplaceActionView {
        match self {
            ReplaceAction::CheckReplacement => ReplaceActionView::CheckReplacement,
            ReplaceAction::Rename { from, to } => ReplaceActionView::Rename { from: *from, to: *to },
            ReplaceAction::Finish(Ok(())) => ReplaceActionView::Finish(Ok(())),
            ReplaceAction::Finish(Err(e)) => ReplaceActionView::Finish(Err(e@)),
        }
    }
}

/// The outcome of what was asked for last.
#[derive(Debug)]
pub enum ReplaceEvent {
    /// The caller is ready to begin.
    Started,
    /// Whether a file stands at the place of the replacement.
    Checked { exists: bool },
    /// The rename was done, or it failed with a message.
    Renamed { error: Option<String> },
}

/// The mathematical value of a [`ReplaceEvent`].
pub enum ReplaceEventView {
    Started,
    Checked { exists: bool },
    Renamed { error: Option<Seq<char>> },
}

impl View for ReplaceEvent {
    type V = ReplaceEventView;

    open spec fn view(&self) -> ReplaceEventView {
        match self {
            ReplaceEvent::Started => ReplaceEventView::Started,
            ReplaceEvent::Checked { exists } => ReplaceEventView::Checked { exists: *exists },
            ReplaceEvent::Renamed { error: Some(message) } => ReplaceEventView::Renamed {
                error: Some(message@),
            },
            ReplaceEvent::Renamed { error: None } => ReplaceEventView::Renamed { error: None },
        }
    }
}

/// Where a swap stands.
#[derive(Debug)]
pub enum ReplacePhase {
    /// Nothing was asked for yet.
    Idle,
    /// The replacement is being looked for.
    Checking,
    /// The target is being moved to the backup.
    SavingTarget,
    /// The replacement is being moved to the target.
    MovingReplacement,
    /// The backup is being moved back to the target, after the replacement
    /// could not be moved there for the reason kept here.
    Restoring(String),
    /// The swap has ended.
    Done,
}

/// The mathematical value of a [`ReplacePhase`].
pub enum ReplacePhaseView {
    Idle,
    Checking,
    SavingTarget,
    MovingReplacement,
    Restoring(Seq<char>),
    Done,
}

impl View for ReplacePhase {
    type V = ReplacePhaseView;

    open spec fn view(&self) -> ReplacePhaseView {
        match self {
            ReplacePhase::Idle => ReplacePhaseView::Idle,
            ReplacePhase::Checking => ReplacePhaseView::Checking,
            ReplacePhase::SavingTarget => ReplacePhaseView::SavingTarget,
            ReplacePhase::MovingReplacement => ReplacePhaseView::MovingReplacement,
            ReplacePhase::Restoring(reason) => ReplacePhaseView::Restoring(reason@),
            ReplacePhase::Done => ReplacePhaseView::Done,
        }
    }
}

/// Whether `event` reports the outcome of what `phase` waits for.
pub open spec fn expects(phase: ReplacePhaseView, event: ReplaceEventView) -> bool {
    match phase {
        ReplacePhaseView::Idle => event is Started,
        ReplacePhaseView::Checking => event is Checked,
        ReplacePhaseView::SavingTarget => event is Renamed,
        ReplacePhaseView::MovingReplacement => event is Renamed,
        ReplacePhaseView::Restoring(_) => event is Renamed,
        ReplacePhaseView::Done => false,
    }
}

/// The end of a swap.
pub open spec fn finished(result: Result<(), ErrorView>) -> (ReplacePhaseView, ReplaceActionView) {
    (ReplacePhaseView::Done, ReplaceActionView::Finish(result))
}

/// The transition of a swap: the phase and the action that follow an event.
/// An event that the phase does not expect ends the swap with an error.
pub open spec fn next_step(phase: ReplacePhaseView, event: ReplaceEventView) -> (
    ReplacePhaseView,
    ReplaceActionView,
) {
    if expects(phase, event) {
        expected_step(phase, event)
    } else {
        finished(Err(out_of_turn()))
    }
}

/// The transition of a swap by an event that its phase expects.
///
/// A missing replacement ends the swap before anything was touched. A
/// target that cannot be moved away ends it with that failure. A
/// replacement that cannot be moved in has the target restored; then the
/// swap ends with the failure of the move, unless restoring failed too, which
/// is reported as a state that cannot be recovered from.
pub open spec fn expected_step(phase: ReplacePhaseView, event: ReplaceEventView) -> (
    ReplacePhaseView,
    ReplaceActionView,
) {
    match event {
        ReplaceEventView::Started => (
            ReplacePhaseView::Checking,
            ReplaceActionView::CheckReplacement,
        ),
        ReplaceEventView::Checked { exists } => if exists {
            (
                ReplacePhaseView::SavingTarget,
                ReplaceActionView::Rename { from: Place::Target, to: Place::Backup },
            )
        } else {
            finished(
                Err(
                    ErrorView {
                        kind: ErrorKind::NotFound,
                        message: "Replacement file does not exist!"@,
                    },
                ),
            )
        },
        ReplaceEventView::Renamed { error } => match phase {
            ReplacePhaseView::SavingTarget => match error {
                None => (
                    ReplacePhaseView::MovingReplacement,
                    ReplaceActionView::Rename { from: Place::Replacement, to: Place::Target },
                ),
                Some(message) => finished(Err(ErrorView { kind: ErrorKind::Io, message })),
            },
            ReplacePhaseView::MovingReplacement => match error {
                None => finished(Ok(())),
                Some(message) => (
                    ReplacePhaseView::Restoring(message),
                    ReplaceActionView::Rename { from: Place::Backup, to: Place::Target },
                ),
            },
            ReplacePhaseView::Restoring(reason) => match error {
                None => finished(Err(ErrorView { kind: ErrorKind::Io, message: reason })),
                Some(_) => finished(
                    Err(ErrorView { kind: ErrorKind::UnrecoverableState, message: reason }),
                ),
            },
            _ => finished(Ok(())),
        },
    }
}

/// A swap in progress.
#[derive(Debug)]
pub struct Replacement {
    phase: ReplacePhase,
}

impl Replacement {
    /// Where the swap stands.
    pub closed spec fn spec_phase(&self) -> ReplacePhaseView {
        self.phase@
    }

    /// A swap that has not begun.
    pub fn new() -> (r: Replacement)
        ensures
            r.spec_phase() == ReplacePhaseView::Idle,
    {
        Replacement { phase: ReplacePhase::Idle }
    }

    /// Where the swap stands.
    pub fn phase(&self) -> (r: &ReplacePhase)
        ensures
            r@ == self.spec_phase(),
    {
        &self.phase
    }

    /// Whether `event` is the outcome that the swap waits for.
    pub fn accepts(&self, event: &ReplaceEvent) -> (r: bool)
        ensures
            r == expects(self.spec_phase(), event@),
    {
        match self.phase {
            ReplacePhase::Idle => matches!(event, ReplaceEvent::Started),
            ReplacePhase::Checking => matches!(event, ReplaceEvent::Checked { .. }),
            ReplacePhase::SavingTarget => matches!(event, ReplaceEvent::Renamed { .. }),
            ReplacePhase::MovingReplacement => matches!(event, ReplaceEvent::Renamed { .. }),
            ReplacePhase::Restoring(_) => matches!(event, ReplaceEvent::Renamed { .. }),
            ReplacePhase::Done => false,
        }
    }

    /// Takes the outcome of what was asked for last and says what to do
    /// next.
    pub fn step(&mut self, event: ReplaceEvent) -> (action: ReplaceAction)
        ensures
            (final(self).spec_phase(), action@) == next_step(old(self).spec_phase(), event@),
    {
        if !self.accepts(&event) {
            self.phase = ReplacePhase::Done;
            return ReplaceAction::Finish(Err(UpdateError::unexpected()));
        }
        let mut phase = ReplacePhase::Done;
        core::mem::swap(&mut self.phase, &mut phase);
        match event {
            ReplaceEvent::Started => {
                self.phase = ReplacePhase::Checking;
                ReplaceAction::CheckReplacement
            },
            ReplaceEvent::Checked { exists } => {
                if exists {
                    self.phase = ReplacePhase::SavingTarget;
                    ReplaceAction::Rename { from: Place::Target, to: Place::Backup }
                } else {
                    ReplaceAction::Finish(
                        Err(
                            UpdateError::new(
                                ErrorKind::NotFound,
                                "Replacement file does not exist!",
                            ),
                        ),
                    )
                }
            },
            ReplaceEvent::Renamed { error } => match phase {
                ReplacePhase::SavingTarget => match error {
                    None => {
                        self.phase = ReplacePhase::MovingReplacement;
                        ReplaceAction::Rename { from: Place::Replacement, to: Place::Target }
                    },
                    Some(message) => ReplaceAction::Finish(
                        Err(UpdateError::with_message(ErrorKind::Io, message)),
                    ),
                },
                ReplacePhase::MovingReplacement => match error {
                    None => ReplaceAction::Finish(Ok(())),
                    Some(message) => {
                        self.phase = ReplacePhase::Restoring(message);
                        ReplaceAction::Rename { from: Place::Backup, to: Place::Target }
                    },
                },
                ReplacePhase::Restoring(reason) => match error {
                    None => ReplaceAction::Finish(
                        Err(UpdateError::with_message(ErrorKind::Io, reason)),
                    ),
                    Some(_) => ReplaceAction::Finish(
                        Err(UpdateError::with_message(ErrorKind::UnrecoverableState, reason)),
                    ),
                },
                _ => ReplaceAction::Finish(Ok(())),
            },
        }
    }
}

/// What stands at the three places of a swap: the content of the file at
/// each, where a file stands there.
pub struct Files {
    pub replacement: Option<Seq<u8>>,
    pub target: Option<Seq<u8>>,
    pub backup: Option<Seq<u8>>,
}

impl Files {
    /// What stands at `place`.
    pub open spec fn at(self, place: Place) -> Option<Seq<u8>> {
        match place {
            Place::Replacement => self.replacement,
            Place::Target => self.target,
            Place::Backup => self.backup,
        }
    }

    /// The files with `content` at `place`.
    pub open spec fn with(self, place: Place, content: Option<Seq<u8>>) -> Files {
        match place {
            Place::Replacement => Files { replacement: content, ..self },
            Place::Target => Files { target: content, ..self },
            Place::Backup => Files { backup: content, ..self },
        }
    }

    /// The files after the file at `from` was renamed to `to`: it stands at
    /// `to`, in place of what stood there, and nothing stands at `from`.
    pub open spec fn renamed(self, from: Place, to: Place) -> Files {
        self.with(to, self.at(from)).with(from, None)
    }
}

/// What doing `action` makes of the files, and the event that reports it.
/// `failure` is the message with which a rename fails, if it does; a rename
/// of a file that is not there fails in any case, and a failed rename
/// changes nothing.
pub open spec fn perform(files: Files, action: ReplaceActionView, failure: Option<Seq<char>>) -> (
    Files,
    ReplaceEventView,
) {
    match action {
        ReplaceActionView::CheckReplacement => (
            files,
            ReplaceEventView::Checked { exists: files.replacement is Some },
        ),
        ReplaceActionView::Rename { from, to } => match failure {
            Some(message) => (files, ReplaceEventView::Renamed { error: Some(message) }),
            None => if files.at(from) is Some {
                (files.renamed(from, to), ReplaceEventView::Renamed { error: None })
            } else {
                (files, ReplaceEventView::Renamed { error: Some("No such file"@) })
            },
        },
        ReplaceActionView::Finish(_) => (files, ReplaceEventView::Started),
    }
}

/// A swap run to its end from `phase` and `event`, with at most `turns`
/// actions: the files that it leaves and its result. `failures` holds, for
/// each rename in the order in which they are asked for, the message with
/// which it fails, if it does; a rename behind the end of the list
/// does not fail.
pub open spec fn run(
    phase: ReplacePhaseView,
    event: ReplaceEventView,
    files: Files,
    failures: Seq<Option<Seq<char>>>,
    turns: nat,
) -> (Files, Option<Result<(), ErrorView>>)
    decreases turns,
{
    let (after, action) = next_step(phase, event);
    match action {
        ReplaceActionView::Finish(result) => (files, Some(result)),
        _ => if turns == 0 {
            (files, None)
        } else {
            let renames = action is Rename;
            let failure = if renames && failures.len() > 0 {
                failures[0]
            } else {
                None
            };
            let (changed, report) = perform(files, action, failure);
            run(
                after,
                report,
                changed,
                if renames && failures.len() > 0 {
                    failures.drop_first()
                } else {
                    failures
                },
                (turns - 1) as nat,
            )
        },
    }
}

/// A whole swap on `files`: the files that it leaves and its result.
pub open spec fn swap(files: Files, failures: Seq<Option<Seq<char>>>) -> (
    Files,
    Option<Result<(), ErrorView>>,
) {
    run(ReplacePhaseView::Idle, ReplaceEventView::Started, files, failures, 4)
}

/// A swap in which no rename fails puts the replacement in the place of the
/// target and leaves the former target as the backup.
pub proof fn lemma_swap_succeeds(old_content: Seq<u8>, new_content: Seq<u8>, stale: Option<Seq<u8>>)
    ensures
        swap(
            Files { replacement: Some(new_content), target: Some(old_content), backup: stale },
            Seq::empty(),
        ) == (
            Files { replacement: None, target: Some(new_content), backup: Some(old_content) },
            Some(Ok::<(), ErrorView>(())),
        ),
{
    reveal_with_fuel(run, 5);
}

/// Where the replacement cannot be moved in after the target was moved
/// away, the target is put back: the files are as they were, but for a
/// backup that was there before, and the failure of the move is the result.
pub proof fn lemma_swap_rolls_back(
    old_content: Seq<u8>,
    new_content: Seq<u8>,
    stale: Option<Seq<u8>>,
    reason: Seq<char>,
)
    ensures
        swap(
            Files { replacement: Some(new_content), target: Some(old_content), backup: stale },
            seq![None, Some(reason), None],
        ) == (
            Files { replacement: Some(new_content), target: Some(old_content), backup: None },
            Some(Err::<(), ErrorView>(ErrorView { kind: ErrorKind::Io, message: reason })),
        ),
{
    reveal_with_fuel(run, 5);
    let failures = seq![None, Some(reason), None];
    assert(failures.drop_first() =~= seq![Some(reason), None]);
    assert(failures.drop_first().drop_first() =~= seq![None::<Seq<char>>]);
    assert(failures.drop_first().drop_first().drop_first() =~= Seq::<Option<Seq<char>>>::empty());
}

/// Where putting the target back fails too, the result says that the state
/// cannot be recovered from; the former target still stands as the backup.
pub proof fn lemma_swap_unrecoverable(
    old_content: Seq<u8>,
    new_content: Seq<u8>,
    stale: Option<Seq<u8>>,
    reason: Seq<char>,
    again: Seq<char>,
)
    ensures
        swap(
            Files { replacement: Some(new_content), target: Some(old_content), backup: stale },
            seq![None, Some(reason), Some(again)],
        ) == (
            Files { replacement: Some(new_content), target: None, backup: Some(old_content) },
            Some(
                Err::<(), ErrorView>(
                    ErrorView { kind: ErrorKind::UnrecoverableState, message: reason },
                ),
            ),
        ),
{
    reveal_with_fuel(run, 5);
    let failures = seq![None, Some(reason), Some(again)];
    assert(failures.drop_first() =~= seq![Some(reason), Some(again)]);
    assert(failures.drop_first().drop_first() =~= seq![Some(again)]);
}

/// A swap without a replacement touches nothing and says that the
/// replacement was not found.
pub proof fn lemma_swap_needs_replacement(files: Files, failures: Seq<Option<Seq<char>>>)
    requires
        files.replacement is None,
    ensures
        swap(files, failures) == (
            files,
            Some(
                Err::<(), ErrorView>(
                    ErrorView {
                        kind: ErrorKind::NotFound,
                        message: "Replacement file does not exist!"@,
                    },
                ),
            ),
        ),
{
    reveal_with_fuel(run, 5);
}

/// Whatever fails, a swap comes to an end, and the content of the former
/// target is not lost: it stands at the target or as the backup. The swap
/// succeeds only where the replacement has taken the target's place.
pub proof fn lemma_swap_keeps_target(files: Files, failures: Seq<Option<Seq<char>>>)
    requires
        files.target is Some,
    ensures
        ({
            let (left, result) = swap(files, failures);
            &&& result is Some
            &&& left.target == files.target || left.backup == files.target
            &&& result == Some(Ok::<(), ErrorView>(())) ==> files.replacement is Some && left.target
                == files.replacement && left.backup == files.target
            &&& match result {
                Some(Err(e)) => e.kind != ErrorKind::UnrecoverableState ==> left.target
                    == files.target && left.replacement == files.replacement,
                _ => true,
            }
        }),
{
    reveal_with_fuel(run, 5);
}

} // verus!
