//! An update whose steps name themselves and check their own work.

use vstd::prelude::*;
use crate::error::{ErrorKind, ErrorView, UpdateError};
use crate::progress::{Progress, ProgressView, initial_view};
use crate::updater::{StepAction, StepOutcome, StepResult, Terminal, is_run, terminal_of};
use crate::window::ProgressWindow;

verus! {

/// One step of an update procedure.
pub trait UpdateStep<T> {
    /// Runs the step on the data of the update and reports through
    /// `progress`, which the engine has set back to its initial state.
    fn exec(&self, data: &mut T, progress: &mut Progress) -> (r: StepResult)
        requires
            old(progress)@ == initial_view(),
    ;

    /// Whether the data is as the step should have left it. A step that
    /// has nothing to check says yes.
    fn verify(&self, data: &T) -> (r: bool)
        default_ensures
            r,
    {
        true
    }

    /// What the step says of itself to the user.
    fn label(&self, data: &T) -> (r: String);
}

/// How a step ended that returned `action`, whose check of its own work gave
/// `verified`, and that left `cancelled` as the user's wish. The check counts
/// only for a step that asks to go on.
pub open spec fn checked_outcome_of(action: StepAction, verified: bool, cancelled: bool) -> StepOutcome {
    match action {
        StepAction::Cancel => StepOutcome::Cancelled,
        StepAction::Complete => StepOutcome::Completed,
        StepAction::Continue => if !verified {
            StepOutcome::Rejected
        } else if cancelled {
            StepOutcome::Cancelled
        } else {
            StepOutcome::Continued
        },
    }
}

/// How a step ended that returned `action`, whose check of its own work gave
/// `verified`, and that left `cancelled` as the user's wish.
pub fn classify_checked(action: StepAction, verified: bool, cancelled: bool) -> (r: StepOutcome)
    ensures
        r == checked_outcome_of(action, verified, cancelled),
{
    match action {
        StepAction::Cancel => StepOutcome::Cancelled,
        StepAction::Complete => StepOutcome::Completed,
        StepAction::Continue => if !verified {
            StepOutcome::Rejected
        } else if cancelled {
            StepOutcome::Cancelled
        } else {
            StepOutcome::Continued
        },
    }
}

/// An update procedure: a title, the progress of the running step, the steps
/// in the order in which they run, and the data that they work on.
#[verifier::reject_recursive_types(T)]
pub struct UpdateProcedure<T> {
    title: String,
    progress: Progress,
    steps: Vec<Box<dyn UpdateStep<T>>>,
    data: T,
    window: Option<Box<dyn ProgressWindow>>,
    history: Vec<StepOutcome>,
}

impl<T> UpdateProcedure<T> {
    /// The title of the procedure.
    pub closed spec fn spec_title(&self) -> Seq<char> {
        self.title@
    }

    /// The progress of the step that runs, or that ran last.
    pub closed spec fn spec_progress(&self) -> ProgressView {
        self.progress@
    }

    /// The steps of the procedure, in the order in which they run.
    pub closed spec fn spec_steps(&self) -> Seq<Box<dyn UpdateStep<T>>> {
        self.steps@
    }

    /// The data that the steps work on.
    pub closed spec fn spec_data(&self) -> T {
        self.data
    }

    /// Whether a window is attached.
    pub closed spec fn has_window(&self) -> bool {
        self.window is Some
    }

    /// How each step of the last run ended, in the order in which they ran.
    pub closed spec fn spec_history(&self) -> Seq<StepOutcome> {
        self.history@
    }

    /// A procedure without steps, with the given title and data.
    pub fn new(title: String, data: T) -> (p: UpdateProcedure<T>)
        ensures
            p.spec_title() == title@,
            p.spec_progress() == initial_view(),
            p.spec_steps() == Seq::<Box<dyn UpdateStep<T>>>::empty(),
            p.spec_data() == data,
            !p.has_window(),
            p.spec_history() == Seq::<StepOutcome>::empty(),
    {
        UpdateProcedure {
            title,
            progress: Progress::default(),
            steps: Vec::new(),
            data,
            window: None,
            history: Vec::new(),
        }
    }

    /// Adds a step behind the steps that are there.
    pub fn add_step(&mut self, step: Box<dyn UpdateStep<T>>)
        ensures
            final(self).spec_steps() == old(self).spec_steps().push(step),
            final(self).spec_title() == old(self).spec_title(),
            final(self).spec_progress() == old(self).spec_progress(),
            final(self).spec_data() == old(self).spec_data(),
            final(self).has_window() == old(self).has_window(),
            final(self).spec_history() == old(self).spec_history(),
    {
        self.steps.push(step)
    }

    /// Attaches the window that shows the procedure, and tells it the title.
    pub fn attach(&mut self, window: Box<dyn ProgressWindow>)
        ensures
            final(self).has_window(),
            final(self).spec_steps() == old(self).spec_steps(),
            final(self).spec_title() == old(self).spec_title(),
            final(self).spec_progress() == old(self).spec_progress(),
            final(self).spec_data() == old(self).spec_data(),
            final(self).spec_history() == old(self).spec_history(),
    {
        window.set_title(self.title.clone());
        self.window = Some(window);
    }

    /// The title of the procedure.
    pub fn title(&self) -> (r: &String)
        ensures
            r@ == self.spec_title(),
    {
        &self.title
    }

    /// The progress of the step that runs, or that ran last.
    pub fn progress(&self) -> (r: &Progress)
        ensures
            r@ == self.spec_progress(),
    {
        &self.progress
    }

    /// The progress, to be changed: this is how the user's wish to cancel
    /// comes in.
    pub fn progress_mut(&mut self) -> (r: &mut Progress)
        ensures
            r@ == old(self).spec_progress(),
            final(self).spec_progress() == final(r)@,
            final(self).spec_steps() == old(self).spec_steps(),
            final(self).spec_title() == old(self).spec_title(),
            final(self).spec_data() == old(self).spec_data(),
            final(self).has_window() == old(self).has_window(),
            final(self).spec_history() == old(self).spec_history(),
    {
        &mut self.progress
    }

    /// The steps of the procedure.
    pub fn steps(&self) -> (r: &Vec<Box<dyn UpdateStep<T>>>)
        ensures
            r@ == self.spec_steps(),
    {
        &self.steps
    }

    /// The data that the steps work on.
    pub fn data(&self) -> (r: &T)
        ensures
            *r == self.spec_data(),
    {
        &self.data
    }

    /// How each step of the last run ended.
    pub fn history(&self) -> (r: &Vec<StepOutcome>)
        ensures
            r@ == self.spec_history(),
    {
        &self.history
    }

    /// Runs the steps in order. Before each step the progress is set back to
    /// its initial state and the window is told the step's label. A step
    /// that asks to go on has its work checked: a failed check ends the run
    /// with a verification error. The run also ends with the first step that
    /// fails, or that does not ask to go on, or after which the user has
    /// cancelled; else with the last step. Unless the run failed, the
    /// progress is marked complete at the end, and the result says whether
    /// the update was cancelled.
    pub fn execute(&mut self) -> (r: Result<Terminal, UpdateError>)
        ensures
            final(self).spec_steps() == old(self).spec_steps(),
            final(self).spec_title() == old(self).spec_title(),
            final(self).has_window() == old(self).has_window(),
            is_run(final(self).spec_history(), old(self).spec_steps().len()),
            match r {
                Ok(terminal) => {
                    &&& terminal_of(final(self).spec_history()) == Some(terminal)
                    &&& final(self).spec_progress().complete
                },
                Err(error) => {
                    let history = final(self).spec_history();
                    &&& history.len() > 0
                    &&& history.last() == StepOutcome::Failed || (history.last()
                        == StepOutcome::Rejected && error@ == (ErrorView {
                        kind: ErrorKind::Verification,
                        message: "Verification failed"@,
                    }))
                },
            },
    {
        self.history = Vec::new();
        let count = self.steps.len();
        let mut stopped = false;
        let mut i: usize = 0;
        while i < count && !stopped
            invariant
                self.steps@ == old(self).steps@,
                self.title@ == old(self).title@,
                self.window is Some == old(self).window is Some,
                count == self.steps@.len(),
                i <= count,
                stopped ==> self.history@.len() > 0 && (self.history@.last()
                    == StepOutcome::Completed || self.history@.last() == StepOutcome::Cancelled),
                !stopped ==> self.history@.len() == i,
                self.history@.len() <= i,
                forall|k: int|
                    0 <= k < self.history@.len() - (if stopped {
                        1int
                    } else {
                        0int
                    }) ==> self.history@[k] == StepOutcome::Continued,
            decreases count - i,
        {
            self.progress.reset();
            match &self.window {
                Some(window) => {
                    window.set_label(self.steps[i].label(&self.data));
                },
                None => {},
            }
            let result = self.steps[i].exec(&mut self.data, &mut self.progress);
            match result {
                Err(error) => {
                    self.history.push(StepOutcome::Failed);
                    return Err(error);
                },
                Ok(action) => {
                    let verified = match action {
                        StepAction::Continue => self.steps[i].verify(&self.data),
                        _ => true,
                    };
                    let outcome = classify_checked(action, verified, self.progress.cancelled());
                    self.history.push(outcome);
                    if outcome == StepOutcome::Rejected {
                        return Err(UpdateError::new(ErrorKind::Verification, "Verification failed"));
                    }
                    if outcome != StepOutcome::Continued {
                        stopped = true;
                    }
                },
            }
            i = i + 1;
        }
        self.progress.set_complete(true);
        if self.history.len() > 0 && self.history[self.history.len() - 1] == StepOutcome::Cancelled {
            Ok(Terminal::Cancelled)
        } else {
            Ok(Terminal::Success)
        }
    }
}

} // verus!
