//! The error value shared by every part of the update engine.

use vstd::prelude::*;

verus! {

/// What went wrong.
#[derive(Clone, Copy, Debug, PartialEq, Eq, Structural)]
pub enum ErrorKind {
    /// The transport or the HTTP exchange failed.
    Network,
    /// Release metadata or a version string could not be understood.
    Parse,
    /// No asset, version or replacement file matched.
    NotFound,
    /// Creating, renaming or copying a file failed.
    Io,
    /// The archive's suffix names no known format.
    ArchiveFormat,
    /// An entry of the archive would be unpacked outside the target
    /// directory.
    DisallowedPath,
    /// The check that follows a step failed.
    Verification,
    /// Another instance already runs.
    LockHeld,
    /// Putting the executable back after a failed swap failed as well.
    UnrecoverableState,
    /// The configuration names something that cannot be used.
    InvalidConfig,
    /// The caller reported an outcome that was not asked for.
    OutOfTurn,
    /// The remote source answered with an error message of its own.
    Remote,
    /// A step supplied by the caller failed for a reason of its own.
    Other,
}

/// An error: its kind and a message for the user.
#[derive(Clone, Debug)]
pub struct UpdateError {
    pub kind: ErrorKind,
    pub message: String,
}

/// The mathematical value of an [`UpdateError`].
pub struct ErrorView {
    pub kind: ErrorKind,
    pub message: Seq<char>,
}

impl View for UpdateError {
    type V = ErrorView;

    open spec fn view(&self) -> ErrorView {
        ErrorView { kind: self.kind, message: self.message@ }
    }
}

/// The error that answers an outcome that was not asked for.
pub open spec fn out_of_turn() -> ErrorView {
    ErrorView { kind: ErrorKind::OutOfTurn, message: "Unexpected event"@ }
}

/// A result with its error taken by its mathematical value.
pub open spec fn result_view<T>(r: Result<T, UpdateError>) -> Result<T, ErrorView> {
    match r {
        Ok(value) => Ok(value),
        Err(e) => Err(e@),
    }
}

impl UpdateError {
    /// An error of the given kind with the given message.
    pub fn new(kind: ErrorKind, message: &str) -> (e: UpdateError)
        ensures
            e.kind == kind,
            e.message@ == message@,
    {
        UpdateError { kind, message: message.to_owned() }
    }

    /// The error that answers an outcome that was not asked for.
    pub fn unexpected() -> (e: UpdateError)
        ensures
            e@ == out_of_turn(),
    {
        UpdateError { kind: ErrorKind::OutOfTurn, message: "Unexpected event".to_owned() }
    }

    /// An error that a step of the caller's own raises.
    pub fn other(message: &str) -> (e: UpdateError)
        ensures
            e.kind == ErrorKind::Other,
            e.message@ == message@,
    {
        UpdateError { kind: ErrorKind::Other, message: message.to_owned() }
    }

    /// An error of the given kind that takes over a message.
    pub fn with_message(kind: ErrorKind, message: String) -> (e: UpdateError)
        ensures
            e@ == (ErrorView { kind, message: message@ }),
    {
        UpdateError { kind, message }
    }

    /// The error's kind.
    pub fn kind(&self) -> (k: ErrorKind)
        ensures
            k == self.kind,
    {
        self.kind
    }

    /// The error's message.
    pub fn message(&self) -> (m: &String)
        ensures
            m@ == self.message@,
    {
        &self.message
    }

    /// The message as an owned string.
    pub fn to_string(&self) -> (s: String)
        ensures
            s@ == self.message@,
    {
        self.message.clone()
    }
}

} // verus!
