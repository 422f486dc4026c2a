use updater::error::{ErrorKind, UpdateError};
use updater::procedure::{UpdateProcedure, UpdateStep};
use updater::progress::Progress;
use updater::updater::{
    classify, State, Step, StepAction, StepOutcome, StepResult, Terminal, Updater,
};

struct TestData;

struct FnStep(fn(&mut State, &mut TestData) -> StepResult);

impl Step<TestData> for FnStep {
    fn run(&self, state: &mut State, data: &mut TestData) -> StepResult {
        (self.0)(state, data)
    }
}

fn step_continue(state: &mut State, _: &mut TestData) -> StepResult {
    state.set_label("Test Continue Step".into());
    Ok(StepAction::Continue)
}

fn step_complete(state: &mut State, _: &mut TestData) -> StepResult {
    state.set_label("Test Complete Step".into());
    Ok(StepAction::Complete)
}

fn step_cancel(state: &mut State, _: &mut TestData) -> StepResult {
    state.set_label("Test Cancel Step".into());
    Ok(StepAction::Cancel)
}

fn step_error(state: &mut State, _: &mut TestData) -> StepResult {
    state.set_label("Test Error Step".into());
    Err(UpdateError::other("Test Error"))
}

fn step_user_cancels(state: &mut State, _: &mut TestData) -> StepResult {
    state.progress_mut().set_cancelled(true);
    Ok(StepAction::Continue)
}

#[test]
fn test_procedure_ok() {
    let mut updater = Updater::new(TestData);
    updater.set_title("Procedure Ok".into());
    updater.add_step(Box::new(FnStep(step_continue)));
    updater.add_step(Box::new(FnStep(step_continue)));
    updater.add_step(Box::new(FnStep(step_continue)));
    assert!(updater.execute().is_ok());
}

#[test]
fn test_procedure_cancelled() {
    let mut updater = Updater::new(TestData);
    updater.set_title("Procedure Cancelled".into());
    updater.add_step(Box::new(FnStep(step_continue)));
    updater.add_step(Box::new(FnStep(step_cancel)));
    updater.add_step(Box::new(FnStep(step_continue)));
    assert!(updater.execute().is_ok());
}

#[test]
fn test_procedure_err() {
    let mut updater = Updater::new(TestData);
    updater.set_title("Procedure Error".into());
    updater.add_step(Box::new(FnStep(step_continue)));
    updater.add_step(Box::new(FnStep(step_error)));
    updater.add_step(Box::new(FnStep(step_continue)));
    assert!(updater.execute().is_err());
}

#[test]
fn test_procedure_early_complete() {
    let mut updater = Updater::new(TestData);
    updater.set_title("Procedure Early Complete".into());
    updater.add_step(Box::new(FnStep(step_continue)));
    updater.add_step(Box::new(FnStep(step_complete)));
    updater.add_step(Box::new(FnStep(step_error)));
    assert!(updater.execute().is_ok());
}

#[test]
fn run_of_continuing_steps_runs_them_all() {
    let mut updater = Updater::new(TestData);
    updater.set_title("All".into());
    updater.add_step(Box::new(FnStep(step_continue)));
    updater.add_step(Box::new(FnStep(step_continue)));
    assert_eq!(updater.step_count(), 2);
    assert_eq!(updater.execute().unwrap(), Terminal::Success);
    assert_eq!(
        updater.history(),
        &vec![StepOutcome::Continued, StepOutcome::Continued]
    );
    assert!(updater.progress().complete());
    assert_eq!(updater.title(), "All");
    assert_eq!(updater.state().label(), "Test Continue Step");
}

#[test]
fn run_halts_at_the_first_cancel() {
    let mut updater = Updater::new(TestData);
    updater.add_step(Box::new(FnStep(step_continue)));
    updater.add_step(Box::new(FnStep(step_cancel)));
    updater.add_step(Box::new(FnStep(step_error)));
    assert_eq!(updater.execute().unwrap(), Terminal::Cancelled);
    assert_eq!(
        updater.history(),
        &vec![StepOutcome::Continued, StepOutcome::Cancelled]
    );
    assert!(updater.progress().complete());
}

#[test]
fn run_halts_when_the_user_cancels_during_a_step() {
    let mut updater = Updater::new(TestData);
    updater.add_step(Box::new(FnStep(step_user_cancels)));
    updater.add_step(Box::new(FnStep(step_error)));
    assert_eq!(updater.execute().unwrap(), Terminal::Cancelled);
    assert_eq!(updater.history(), &vec![StepOutcome::Cancelled]);
    assert!(updater.progress().cancelled());
    assert!(updater.progress().complete());
}

#[test]
fn run_halts_at_the_first_error_and_hands_it_on() {
    let mut updater = Updater::new(TestData);
    updater.add_step(Box::new(FnStep(step_continue)));
    updater.add_step(Box::new(FnStep(step_error)));
    updater.add_step(Box::new(FnStep(step_continue)));
    let error = updater.execute().unwrap_err();
    assert_eq!(error.kind(), ErrorKind::Other);
    assert_eq!(error.to_string(), "Test Error");
    assert_eq!(
        updater.history(),
        &vec![StepOutcome::Continued, StepOutcome::Failed]
    );
    assert!(!updater.progress().complete());
}

#[test]
fn run_without_steps_succeeds() {
    let mut updater = Updater::new(TestData);
    assert_eq!(updater.execute().unwrap(), Terminal::Success);
    assert!(updater.history().is_empty());
    assert!(updater.progress().complete());
}

#[test]
fn progress_is_reset_before_each_step() {
    struct Seen;
    impl Step<Vec<(bool, u64, u64)>> for Seen {
        fn run(&self, state: &mut State, data: &mut Vec<(bool, u64, u64)>) -> StepResult {
            let p = state.progress();
            data.push((p.indeterminate(), p.current(), p.maximum()));
            state.progress_mut().set_indeterminate(false);
            state.progress_mut().set_maximum(10);
            state.progress_mut().add_current(7);
            Ok(StepAction::Continue)
        }
    }
    let mut updater = Updater::new(Vec::new());
    updater.add_step(Box::new(Seen));
    updater.add_step(Box::new(Seen));
    assert!(updater.execute().is_ok());
    assert_eq!(updater.data(), &vec![(true, 0, 0), (true, 0, 0)]);
    assert_eq!(updater.progress().current(), 7);
}

#[test]
fn classify_follows_the_action_and_the_flag() {
    assert_eq!(classify(StepAction::Continue, false), StepOutcome::Continued);
    assert_eq!(classify(StepAction::Continue, true), StepOutcome::Cancelled);
    assert_eq!(classify(StepAction::Cancel, false), StepOutcome::Cancelled);
    assert_eq!(classify(StepAction::Complete, true), StepOutcome::Completed);
}

struct Counting {
    action: fn() -> StepResult,
    good: bool,
}

impl UpdateStep<u32> for Counting {
    fn exec(&self, data: &mut u32, progress: &mut Progress) -> StepResult {
        assert!(progress.indeterminate());
        assert_eq!(progress.current(), 0);
        *data += 1;
        progress.add_current(1);
        (self.action)()
    }

    fn verify(&self, _: &u32) -> bool {
        self.good
    }

    fn label(&self, data: &u32) -> String {
        format!("step {}", data)
    }
}

struct Plain;

impl UpdateStep<u32> for Plain {
    fn exec(&self, data: &mut u32, _: &mut Progress) -> StepResult {
        *data += 10;
        Ok(StepAction::Continue)
    }

    fn label(&self, _: &u32) -> String {
        "plain".to_string()
    }
}

fn go_on() -> StepResult {
    Ok(StepAction::Continue)
}

fn complete() -> StepResult {
    Ok(StepAction::Complete)
}

#[test]
fn procedure_runs_steps_in_order() {
    let mut procedure = UpdateProcedure::new("Title".to_string(), 0u32);
    procedure.add_step(Box::new(Counting { action: go_on, good: true }));
    procedure.add_step(Box::new(Plain));
    procedure.add_step(Box::new(Counting { action: go_on, good: true }));
    assert_eq!(procedure.steps().len(), 3);
    assert_eq!(procedure.execute().unwrap(), Terminal::Success);
    assert_eq!(*procedure.data(), 12);
    assert_eq!(procedure.title(), "Title");
    assert!(procedure.progress().complete());
    assert_eq!(procedure.history().len(), 3);
}

#[test]
fn procedure_fails_on_a_failed_verification() {
    let mut procedure = UpdateProcedure::new("Title".to_string(), 0u32);
    procedure.add_step(Box::new(Counting { action: go_on, good: false }));
    procedure.add_step(Box::new(Plain));
    let error = procedure.execute().unwrap_err();
    assert_eq!(error.kind(), ErrorKind::Verification);
    assert_eq!(error.to_string(), "Verification failed");
    assert_eq!(*procedure.data(), 1);
    assert_eq!(procedure.history(), &vec![StepOutcome::Rejected]);
    assert!(!procedure.progress().complete());
}

#[test]
fn procedure_does_not_verify_a_completing_step() {
    let mut procedure = UpdateProcedure::new("Title".to_string(), 0u32);
    procedure.add_step(Box::new(Counting { action: complete, good: false }));
    procedure.add_step(Box::new(Plain));
    assert_eq!(procedure.execute().unwrap(), Terminal::Success);
    assert_eq!(*procedure.data(), 1);
    assert_eq!(procedure.history(), &vec![StepOutcome::Completed]);
}

#[test]
fn procedure_stops_when_cancelled() {
    struct Cancelling;
    impl UpdateStep<u32> for Cancelling {
        fn exec(&self, data: &mut u32, progress: &mut Progress) -> StepResult {
            *data += 1;
            progress.set_cancelled(true);
            Ok(StepAction::Continue)
        }
        fn label(&self, _: &u32) -> String {
            "cancelling".to_string()
        }
    }
    let mut procedure = UpdateProcedure::new("Title".to_string(), 0u32);
    procedure.add_step(Box::new(Cancelling));
    procedure.add_step(Box::new(Plain));
    assert_eq!(procedure.execute().unwrap(), Terminal::Cancelled);
    assert_eq!(*procedure.data(), 1);
    assert!(procedure.progress().cancelled());
}
