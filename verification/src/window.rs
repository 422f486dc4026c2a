//! What a progress window is told, and what it shows at first.

use vstd::prelude::*;
use crate::progress::{Progress, ProgressView, Ratio, initial_view, percent_of};

verus! {

/// A window that shows the progress of an update. The engine tells it what
/// to show; how it shows it, and on which thread, is its own matter.
pub trait ProgressWindow {
    /// Sets the window's title.
    fn set_title(&self, text: String);

    /// Sets the text of the window's label.
    fn set_label(&self, text: String);

    /// Closes the window.
    fn close(&self);
}

/// The time between two looks of a window at the progress, in milliseconds.
pub const UPDATE_INTERVAL: u32 = 100;

/// What a window does when it looks at the progress.
#[derive(Clone, Copy, Debug, PartialEq, Eq, Structural)]
pub enum Tick {
    /// The work is done: the window closes.
    Close,
    /// The size of the work is unknown: the window shows no number.
    Unknown,
    /// The window shows this fraction of the work as done.
    Show(Ratio),
}

/// What a window does when it sees `progress`.
pub open spec fn tick_of(progress: ProgressView) -> Tick {
    if progress.complete {
        Tick::Close
    } else if progress.indeterminate {
        Tick::Unknown
    } else {
        Tick::Show(
            Ratio { num: percent_of(progress).0 as u64, den: percent_of(progress).1 as u64 },
        )
    }
}

/// What a window does when it looks at the progress: it closes once the work
/// is complete, and else shows how much of it is done, if that is known.
pub fn tick(progress: &Progress) -> (r: Tick)
    ensures
        r == tick_of(progress@),
{
    if progress.complete() {
        Tick::Close
    } else if progress.indeterminate() {
        Tick::Unknown
    } else {
        Tick::Show(progress.percent())
    }
}

/// The user closes the window: this cancels work that is not complete, and
/// changes nothing else.
pub fn user_closed(progress: &mut Progress)
    ensures
        final(progress)@ == (ProgressView {
            cancelled: old(progress)@.cancelled || !old(progress)@.complete,
            ..old(progress)@
        }),
{
    if !progress.complete() {
        progress.set_cancelled(true);
    }
}

/// What a progress window shows when it opens.
#[derive(Clone, Debug)]
pub struct WindowConfig {
    pub title: String,
    pub label: String,
    pub progress: Progress,
    cancelled: bool,
}

/// The mathematical value of a [`WindowConfig`].
pub struct WindowConfigView {
    pub title: Seq<char>,
    pub label: Seq<char>,
    pub progress: ProgressView,
    pub cancelled: bool,
}

impl View for WindowConfig {
    type V = WindowConfigView;

    closed spec fn view(&self) -> WindowConfigView {
        WindowConfigView {
            title: self.title@,
            label: self.label@,
            progress: self.progress@,
            cancelled: self.cancelled,
        }
    }
}

impl WindowConfig {
    /// A window with the given title, label and progress, which the user has
    /// not closed.
    pub fn new(title: String, label: String, progress: Progress) -> (c: WindowConfig)
        ensures
            c@ == (WindowConfigView {
                title: title@,
                label: label@,
                progress: progress@,
                cancelled: false,
            }),
    {
        WindowConfig { title, label, progress, cancelled: false }
    }

    /// The window's title.
    pub fn title(&self) -> (r: &String)
        ensures
            r@ == self@.title,
    {
        &self.title
    }

    /// The text of the window's label.
    pub fn label(&self) -> (r: &String)
        ensures
            r@ == self@.label,
    {
        &self.label
    }

    /// The progress that the window shows.
    pub fn progress(&self) -> (r: &Progress)
        ensures
            r@ == self@.progress,
    {
        &self.progress
    }

    /// Whether the user has closed the window.
    pub fn cancelled(&self) -> (r: bool)
        ensures
            r == self@.cancelled,
    {
        self.cancelled
    }

    /// Notes whether the user has closed the window.
    pub fn set_cancelled(&mut self, val: bool)
        ensures
            final(self)@ == (WindowConfigView { cancelled: val, ..old(self)@ }),
    {
        self.cancelled = val;
    }
}

impl Default for WindowConfig {
    fn default() -> (c: WindowConfig)
        ensures
            c@ == (WindowConfigView {
                title: "Updater"@,
                label: "Starting..."@,
                progress: initial_view(),
                cancelled: false,
            }),
    {
        WindowConfig {
            title: "Updater".to_owned(),
            label: "Starting...".to_owned(),
            progress: Progress::default(),
            cancelled: false,
        }
    }
}

} // verus!
