//! When the managed application is launched, and which installed versions
//! are left over.

use vstd::prelude::*;
use crate::error::{ErrorKind, ErrorView, UpdateError, result_view};
use crate::updater::Terminal;
use crate::version::Version;
use crate::version::parse::parse_spec;

verus! {

/// What a start of the launcher does, in this order.
#[derive(Clone, Copy, Debug, PartialEq, Eq, Structural)]
pub struct StartPlan {
    /// Whether the application is launched before anything else.
    pub launch_first: bool,
    /// Whether the application is updated, or installed.
    pub update: bool,
}

/// The plan of a start. An installed application is launched at once unless
/// it is to be updated before its launch. It is updated if it is installed,
/// and installed if that is wanted.
pub open spec fn plan_of(before_launch: bool, installed: bool, should_install: bool) -> StartPlan {
    StartPlan { launch_first: !before_launch && installed, update: installed || should_install }
}

/// The plan of a start.
pub fn plan_start(before_launch: bool, installed: bool, should_install: bool) -> (plan: StartPlan)
    ensures
        plan == plan_of(before_launch, installed, should_install),
{
    StartPlan { launch_first: !before_launch && installed, update: installed || should_install }
}

/// Whether the application is launched after the update: only once, and only
/// after an update that was made and went well.
pub fn launch_after(plan: StartPlan, update_ok: bool) -> (r: bool)
    ensures
        r == (!plan.launch_first && plan.update && update_ok),
{
    !plan.launch_first && plan.update && update_ok
}

/// The version that is installed after an update, from how the update
/// ended and the latest version that it looked up.
pub open spec fn installed_spec(terminal: Terminal, latest: Option<Version>) -> Result<
    Version,
    ErrorView,
> {
    match terminal {
        Terminal::Cancelled => Err(
            ErrorView { kind: ErrorKind::Other, message: "Update cancelled!"@ },
        ),
        Terminal::Success => match latest {
            Some(version) => Ok(version),
            None => Err(ErrorView { kind: ErrorKind::NotFound, message: "Version not found"@ }),
        },
    }
}

/// The version that is installed after an update that ended in `terminal`
/// with `latest` looked up. A cancelled update installs nothing, and is
/// reported as an error; so is an update that never looked a version up.
pub fn installed_version(terminal: Terminal, latest: Option<Version>) -> (r: Result<
    Version,
    UpdateError,
>)
    ensures
        result_view(r) == installed_spec(terminal, latest),
{
    match terminal {
        Terminal::Cancelled => Err(UpdateError::new(ErrorKind::Other, "Update cancelled!")),
        Terminal::Success => match latest {
            Some(version) => Ok(version),
            None => Err(UpdateError::new(ErrorKind::NotFound, "Version not found")),
        },
    }
}

/// Whether a directory called `name` holds an older version than `current`,
/// and so can be removed: its name spells a version, and that version is
/// older.
pub fn is_left_over(name: &str, current: &Version) -> (r: bool)
    ensures
        r == match parse_spec(name@) {
            Ok(version) => version.precedes(*current),
            Err(_) => false,
        },
{
    match Version::parse(name) {
        Ok(version) => current.is_newer_than(&version),
        Err(_) => false,
    }
}

/// The version that the text of a version file spells, if it spells one.
pub fn read_version(text: &str) -> (r: Option<Version>)
    ensures
        r == match parse_spec(text@) {
            Ok(version) => Some(version),
            Err(_) => None,
        },
{
    match Version::parse(text) {
        Ok(version) => Some(version),
        Err(_) => None,
    }
}

} // verus!
