//! The engine that runs the steps of an update, one after the other.

use vstd::prelude::*;
use crate::error::{ErrorView, UpdateError};
use crate::progress::{Progress, ProgressView, initial_view};
use crate::window::ProgressWindow;

verus! {

/// What a step asks the engine to do next.
#[derive(Clone, Copy, Debug, PartialEq, Eq, Structural)]
pub enum StepAction {
    /// Stop: the user has cancelled the update.
    Cancel,
    /// Stop: there is nothing more to do.
    Complete,
    /// Go on with the next step.
    Continue,
}

/// What a step returns: what to do next, or the error that ends the update.
pub type StepResult = Result<StepAction, UpdateError>;

/// How one step ended, as far as the engine is concerned.
#[derive(Clone, Copy, Debug, PartialEq, Eq, Structural)]
pub enum StepOutcome {
    /// The step asked to go on, and the user had not cancelled.
    Continued,
    /// The step said that there is nothing more to do.
    Completed,
    /// The step said that the user has cancelled, or asked to go on although
    /// the user had cancelled meanwhile.
    Cancelled,
    /// The step failed.
    Failed,
    /// The step asked to go on, but the check of its work failed.
    Rejected,
}

/// How a run that did not fail ended.
#[derive(Clone, Copy, Debug, PartialEq, Eq, Structural)]
pub enum Terminal {
    /// Every step was run, or a step said that nothing more is to do.
    Success,
    /// The update was cancelled.
    Cancelled,
}

/// How a step ended that returned `action` and left `cancelled` as the
/// user's wish.
pub open spec fn outcome_of(action: StepAction, cancelled: bool) -> StepOutcome {
    match action {
        StepAction::Cancel => StepOutcome::Cancelled,
        StepAction::Complete => StepOutcome::Completed,
        StepAction::Continue => if cancelled {
            StepOutcome::Cancelled
        } else {
            StepOutcome::Continued
        },
    }
}

/// What it is for `history` to be the outcomes of a run over `steps` steps:
/// the steps are run in order from the first, each step but the last one run
/// asked to go on, and the run goes on as long as a step asks for it and
/// there is another one.
pub open spec fn is_run(history: Seq<StepOutcome>, steps: nat) -> bool {
    &&& history.len() <= steps
    &&& forall|i: int| 0 <= i < history.len() - 1 ==> history[i] == StepOutcome::Continued
    &&& (history.len() == 0 || history.last() == StepOutcome::Continued) ==> history.len()
        == steps
}

/// How a run with the outcomes `history` ended; `None` says that it failed.
pub open spec fn terminal_of(history: Seq<StepOutcome>) -> Option<Terminal> {
    if history.len() == 0 {
        Some(Terminal::Success)
    } else {
        match history.last() {
            StepOutcome::Continued => Some(Terminal::Success),
            StepOutcome::Completed => Some(Terminal::Success),
            StepOutcome::Cancelled => Some(Terminal::Cancelled),
            StepOutcome::Failed => None,
            StepOutcome::Rejected => None,
        }
    }
}

/// How a step ended that returned `action` and left `cancelled` as the user's
/// wish.
pub fn classify(action: StepAction, cancelled: bool) -> (r: StepOutcome)
    ensures
        r == outcome_of(action, cancelled),
{
    match action {
        StepAction::Cancel => StepOutcome::Cancelled,
        StepAction::Complete => StepOutcome::Completed,
        StepAction::Continue => if cancelled {
            StepOutcome::Cancelled
        } else {
            StepOutcome::Continued
        },
    }
}

/// In a run, the first step that does not ask to go on is the last one run:
/// no step runs after a step that completed, cancelled or failed.
pub proof fn lemma_run_halts(history: Seq<StepOutcome>, steps: nat, i: int)
    requires
        is_run(history, steps),
        0 <= i < history.len(),
        history[i] != StepOutcome::Continued,
    ensures
        i == history.len() - 1,
{
}

/// A run in which a step cancelled ends as cancelled, not as failed.
pub proof fn lemma_cancel_is_no_error(history: Seq<StepOutcome>, steps: nat, i: int)
    requires
        is_run(history, steps),
        0 <= i < history.len(),
        history[i] == StepOutcome::Cancelled,
    ensures
        terminal_of(history) == Some(Terminal::Cancelled),
        history.len() == i + 1,
{
}

/// A run that ended well without a step to stop it has run every step.
pub proof fn lemma_run_is_whole(history: Seq<StepOutcome>, steps: nat)
    requires
        is_run(history, steps),
        forall|i: int| 0 <= i < history.len() ==> history[i] == StepOutcome::Continued,
    ensures
        history.len() == steps,
        terminal_of(history) == Some(Terminal::Success),
{
}

/// What the steps of an update share: what is shown to the user, and the
/// progress of the step that runs.
pub struct State {
    title: String,
    label: String,
    progress: Progress,
    window: Option<Box<dyn ProgressWindow>>,
}

impl State {
    /// The title of the update.
    pub closed spec fn spec_title(&self) -> Seq<char> {
        self.title@
    }

    /// What the running step says of itself.
    pub closed spec fn spec_label(&self) -> Seq<char> {
        self.label@
    }

    /// The progress of the running step.
    pub closed spec fn spec_progress(&self) -> ProgressView {
        self.progress@
    }

    /// Whether a window is attached.
    pub closed spec fn has_window(&self) -> bool {
        self.window is Some
    }

    /// A state with empty texts, the initial progress and no window.
    pub fn new() -> (s: State)
        ensures
            s.spec_title() == Seq::<char>::empty(),
            s.spec_label() == Seq::<char>::empty(),
            s.spec_progress() == initial_view(),
            !s.has_window(),
    {
        State { title: String::new(), label: String::new(), progress: Progress::default(), window: None }
    }

    /// The title of the update.
    pub fn title(&self) -> (r: &String)
        ensures
            r@ == self.spec_title(),
    {
        &self.title
    }

    /// Sets the title of the update.
    pub fn set_title(&mut self, title: String)
        ensures
            final(self).spec_title() == title@,
            final(self).spec_label() == old(self).spec_label(),
            final(self).spec_progress() == old(self).spec_progress(),
            final(self).has_window() == old(self).has_window(),
    {
        self.title = title;
    }

    /// What the running step says of itself.
    pub fn label(&self) -> (r: &String)
        ensures
            r@ == self.spec_label(),
    {
        &self.label
    }

    /// Sets what the running step says of itself, and tells the window.
    pub fn set_label(&mut self, label: String)
        ensures
            final(self).spec_label() == label@,
            final(self).spec_title() == old(self).spec_title(),
            final(self).spec_progress() == old(self).spec_progress(),
            final(self).has_window() == old(self).has_window(),
    {
        self.label = label;
        match &self.window {
            Some(window) => {
                window.set_label(self.label.clone());
            },
            None => {},
        }
    }

    /// The progress of the running step.
    pub fn progress(&self) -> (r: &Progress)
        ensures
            r@ == self.spec_progress(),
    {
        &self.progress
    }

    /// The progress of the running step, to be changed.
    pub fn progress_mut(&mut self) -> (r: &mut Progress)
        ensures
            r@ == old(self).spec_progress(),
            final(self).spec_progress() == final(r)@,
            final(self).spec_title() == old(self).spec_title(),
            final(self).spec_label() == old(self).spec_label(),
            final(self).has_window() == old(self).has_window(),
    {
        &mut self.progress
    }

    /// The window that shows the update, if there is one.
    pub fn window(&self) -> (r: Option<&Box<dyn ProgressWindow>>)
        ensures
            r is Some == self.has_window(),
    {
        self.window.as_ref()
    }

    /// Attaches the window that shows the update from now on, and tells it
    /// the title.
    pub fn attach(&mut self, window: Box<dyn ProgressWindow>)
        ensures
            final(self).has_window(),
            final(self).spec_title() == old(self).spec_title(),
            final(self).spec_label() == old(self).spec_label(),
            final(self).spec_progress() == old(self).spec_progress(),
    {
        window.set_title(self.title.clone());
        self.window = Some(window);
    }
}

/// One step of an update.
pub trait Step<T> {
    /// Runs the step on the shared state and the data of the update. The
    /// engine has set the progress back to its initial state before.
    fn run(&self, state: &mut State, data: &mut T) -> (r: StepResult)
        requires
            old(state).spec_progress() == initial_view(),
    ;
}

/// An update: its steps in the order in which they run, the state that they
/// share, and the data that they work on.
#[verifier::reject_recursive_types(T)]
pub struct Updater<T> {
    state: State,
    steps: Vec<Box<dyn Step<T>>>,
    data: T,
    history: Vec<StepOutcome>,
}

impl<T> Updater<T> {
    /// The steps of the update, in the order in which they run.
    pub closed spec fn spec_steps(&self) -> Seq<Box<dyn Step<T>>> {
        self.steps@
    }

    /// The state that the steps share.
    pub closed spec fn spec_state(&self) -> State {
        self.state
    }

    /// The data that the steps work on.
    pub closed spec fn spec_data(&self) -> T {
        self.data
    }

    /// How each step of the last run ended, in the order in which they ran.
    pub closed spec fn spec_history(&self) -> Seq<StepOutcome> {
        self.history@
    }

    /// An update without steps that works on `data`.
    pub fn new(data: T) -> (u: Updater<T>)
        ensures
            u.spec_steps() == Seq::<Box<dyn Step<T>>>::empty(),
            u.spec_data() == data,
            u.spec_history() == Seq::<StepOutcome>::empty(),
            u.spec_state().spec_title() == Seq::<char>::empty(),
            u.spec_state().spec_label() == Seq::<char>::empty(),
            u.spec_state().spec_progress() == initial_view(),
            !u.spec_state().has_window(),
    {
        Updater { state: State::default(), steps: Vec::new(), data, history: Vec::new() }
    }

    /// The data that the steps work on.
    pub fn data(&self) -> (r: &T)
        ensures
            *r == self.spec_data(),
    {
        &self.data
    }

    /// The state that the steps share.
    pub fn state(&self) -> (r: &State)
        ensures
            *r == self.spec_state(),
    {
        &self.state
    }

    /// The progress of the step that runs, or that ran last.
    pub fn progress(&self) -> (r: &Progress)
        ensures
            r@ == self.spec_state().spec_progress(),
    {
        self.state.progress()
    }

    /// The title of the update.
    pub fn title(&self) -> (r: &String)
        ensures
            r@ == self.spec_state().spec_title(),
    {
        self.state.title()
    }

    /// How each step of the last run ended.
    pub fn history(&self) -> (r: &Vec<StepOutcome>)
        ensures
            r@ == self.spec_history(),
    {
        &self.history
    }

    /// The number of steps.
    pub fn step_count(&self) -> (n: usize)
        ensures
            n == self.spec_steps().len(),
    {
        self.steps.len()
    }

    /// Sets the title of the update.
    pub fn set_title(&mut self, title: String)
        ensures
            final(self).spec_state().spec_title() == title@,
            final(self).spec_state().spec_label() == old(self).spec_state().spec_label(),
            final(self).spec_state().spec_progress() == old(self).spec_state().spec_progress(),
            final(self).spec_state().has_window() == old(self).spec_state().has_window(),
            final(self).spec_steps() == old(self).spec_steps(),
            final(self).spec_data() == old(self).spec_data(),
            final(self).spec_history() == old(self).spec_history(),
    {
        self.state.set_title(title);
    }

    /// Attaches the window that shows the update.
    pub fn attach(&mut self, window: Box<dyn ProgressWindow>)
        ensures
            final(self).spec_state().has_window(),
            final(self).spec_state().spec_title() == old(self).spec_state().spec_title(),
            final(self).spec_state().spec_label() == old(self).spec_state().spec_label(),
            final(self).spec_state().spec_progress() == old(self).spec_state().spec_progress(),
            final(self).spec_steps() == old(self).spec_steps(),
            final(self).spec_data() == old(self).spec_data(),
            final(self).spec_history() == old(self).spec_history(),
    {
        self.state.attach(window);
    }

    /// Adds a step behind the steps that are there.
    pub fn add_step(&mut self, step: Box<dyn Step<T>>)
        ensures
            final(self).spec_steps() == old(self).spec_steps().push(step),
            final(self).spec_state() == old(self).spec_state(),
            final(self).spec_data() == old(self).spec_data(),
            final(self).spec_history() == old(self).spec_history(),
    {
        self.steps.push(step);
    }

    /// Runs the steps in order. Before each step the progress is set back to
    /// its initial state. The run ends with the first step that fails, or
    /// that does not ask to go on, or after which the user has cancelled;
    /// else with the last step. A step's error is handed on as it is, and
    /// nothing more is done. In every other case the progress is marked
    /// complete, and the result says whether the update was cancelled.
    pub fn execute(&mut self) -> (r: Result<Terminal, UpdateError>)
        ensures
            final(self).spec_steps() == old(self).spec_steps(),
            is_run(final(self).spec_history(), old(self).spec_steps().len()),
            match r {
                Ok(terminal) => {
                    &&& terminal_of(final(self).spec_history()) == Some(terminal)
                    &&& final(self).spec_state().spec_progress().complete
                },
                Err(_) => {
                    let history = final(self).spec_history();
                    history.len() > 0 && history.last() == StepOutcome::Failed
                },
            },
    {
        self.history = Vec::new();
        let count = self.steps.len();
        let mut stopped = false;
        let mut i: usize = 0;
        while i < count && !stopped
            invariant
                self.steps@ == old(self).steps@,
                count == self.steps@.len(),
                i <= count,
                stopped ==> self.history@.len() > 0 && (self.history@.last()
                    == StepOutcome::Completed || self.history@.last() == StepOutcome::Cancelled),
                !stopped ==> self.history@.len() == i,
                self.history@.len() <= i,
                forall|k: int|
                    0 <= k < self.history@.len() - (if stopped {
                        1int
                    } else {
                        0int
                    }) ==> self.history@[k] == StepOutcome::Continued,
            decreases count - i,
        {
            self.state.progress.reset();
            let result = self.steps[i].run(&mut self.state, &mut self.data);
            match result {
                Err(error) => {
                    self.history.push(StepOutcome::Failed);
                    return Err(error);
                },
                Ok(action) => {
                    let outcome = classify(action, self.state.progress.cancelled());
                    self.history.push(outcome);
                    if outcome != StepOutcome::Continued {
                        stopped = true;
                    }
                },
            }
            i = i + 1;
        }
        self.state.progress.set_complete(true);
        if self.history.len() > 0 && self.history[self.history.len() - 1] == StepOutcome::Cancelled {
            Ok(Terminal::Cancelled)
        } else {
            Ok(Terminal::Success)
        }
    }
}

impl Default for State {
    fn default() -> (s: State)
        ensures
            s.spec_title() == Seq::<char>::empty(),
            s.spec_label() == Seq::<char>::empty(),
            s.spec_progress() == initial_view(),
            !s.has_window(),
    {
        State::new()
    }
}

} // verus!
