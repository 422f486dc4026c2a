//! The update of the managed application: what each of its steps decides.
//!
//! A step does its work outside (asking the provider's source, downloading,
//! unpacking) and comes here with what that brought.

use vstd::prelude::*;
use vstd::string::StringExecFns;
use crate::download::{DownloadResult, DownloadResultView};
use crate::error::{ErrorKind, ErrorView, UpdateError};
use crate::extract::ExtractResult;
use crate::provider::{Asset, AssetView, Provider, ReleaseView};
use crate::provider::release::{find_asset_spec, latest_spec};
use crate::updater::{StepAction, StepResult};
use crate::version::Version;
use crate::version::format::version_text;

verus! {

/// What the update of an application works on. `F` is the handle of the
/// downloaded file, which only the caller looks into.
pub struct UpdateData<P: Provider, F> {
    /// Where the releases come from.
    pub provider: P,
    /// The name of the application, for the user.
    pub app_name: String,
    /// The name of the asset to install, or the beginning of its name.
    pub asset_name: String,
    /// The directory below which each version is installed.
    pub directory: String,
    /// The version that is installed.
    pub version: Version,
    /// The latest version, once it was looked up.
    pub latest: Option<Version>,
    /// The asset to install, once it was found.
    pub asset: Option<Asset>,
    /// The downloaded file, once there is one.
    pub file: Option<F>,
}

/// What the check for a new version comes to.
pub enum CheckView {
    /// The installed version is the latest, or newer: nothing is to do.
    UpToDate { latest: Version },
    /// `latest` is newer than the installed version, and `asset` is to be
    /// installed.
    Update { latest: Version, asset: AssetView },
    /// The latest version is not known.
    Unknown(ErrorView),
    /// `latest` is newer than the installed version, but has no asset of the
    /// wanted name.
    Missing { latest: Version, error: ErrorView },
}

/// What the check for a new version comes to, for the releases known, the
/// installed version and the name of the asset: an update is due if and only
/// if the latest version is newer than the installed one.
pub open spec fn check_spec(releases: Seq<ReleaseView>, installed: Version, asset_name: Seq<char>) -> CheckView {
    match latest_spec(releases) {
        Err(e) => CheckView::Unknown(e),
        Ok(latest) => if !installed.precedes(latest) {
            CheckView::UpToDate { latest }
        } else {
            match find_asset_spec(releases, latest, asset_name) {
                Ok(asset) => CheckView::Update { latest, asset },
                Err(error) => CheckView::Missing { latest, error },
            }
        },
    }
}

/// The title of the update of the application called `app_name`.
pub open spec fn title_text(app_name: Seq<char>) -> Seq<char> {
    app_name + " Updater"@
}

/// The error of a step whose download failed with `error`.
pub open spec fn download_failure(error: ErrorView) -> ErrorView {
    ErrorView { kind: error.kind, message: "Asset download failed: "@ + error.message }
}

/// What a step does once its download has ended in `result`.
pub open spec fn after_download(result: DownloadResultView) -> Result<StepAction, ErrorView> {
    match result {
        DownloadResultView::Complete => Ok(StepAction::Continue),
        DownloadResultView::Cancelled => Ok(StepAction::Cancel),
        DownloadResultView::Error(e) => Err(download_failure(e)),
    }
}

/// The title of the update of the application called `app_name`.
pub fn title_for(app_name: &str) -> (title: String)
    ensures
        title@ == title_text(app_name@),
{
    String::from_str(app_name).concat(" Updater")
}

/// What follows the end of a download: a complete one lets the update go
/// on, a cancelled one cancels it, a failed one fails it.
pub fn download_outcome(result: DownloadResult) -> (r: StepResult)
    ensures
        match after_download(result@) {
            Ok(action) => r == Ok::<StepAction, UpdateError>(action),
            Err(e) => r matches Err(error) && error@ == e,
        },
{
    match result {
        DownloadResult::Complete => Ok(StepAction::Continue),
        DownloadResult::Cancelled => Ok(StepAction::Cancel),
        DownloadResult::Error(e) => {
            let message = String::from_str("Asset download failed: ").concat(e.message.as_str());
            Err(UpdateError::with_message(e.kind, message))
        },
    }
}

/// What follows the end of an extraction: a complete one lets the update go
/// on, a cancelled one cancels it, a failed one fails it with its own error.
pub fn extract_outcome(result: Result<ExtractResult, UpdateError>) -> (r: StepResult)
    ensures
        match result {
            Ok(ExtractResult::Complete) => r == Ok::<StepAction, UpdateError>(StepAction::Continue),
            Ok(ExtractResult::Cancelled) => r == Ok::<StepAction, UpdateError>(StepAction::Cancel),
            Err(e) => r == Err::<StepAction, UpdateError>(e),
        },
{
    match result {
        Ok(ExtractResult::Complete) => Ok(StepAction::Continue),
        Ok(ExtractResult::Cancelled) => Ok(StepAction::Cancel),
        Err(e) => Err(e),
    }
}

impl<P: Provider, F> UpdateData<P, F> {
    /// The data of an update that has not begun: nothing is looked up,
    /// found or downloaded yet.
    pub fn new(provider: P, app_name: String, asset_name: String, directory: String, version: Version) -> (d:
        Self)
        ensures
            d.provider == provider,
            d.app_name == app_name,
            d.asset_name == asset_name,
            d.directory == directory,
            d.version == version,
            d.latest is None,
            d.asset is None,
            d.file is None,
    {
        UpdateData {
            provider,
            app_name,
            asset_name,
            directory,
            version,
            latest: None,
            asset: None,
            file: None,
        }
    }

    /// The title of the update.
    pub fn title(&self) -> (title: String)
        ensures
            title@ == title_text(self.app_name@),
    {
        title_for(self.app_name.as_str())
    }

    /// Looks up the latest version among the releases that the provider
    /// knows and decides whether an update is due: it is if and only if the
    /// latest version is newer than the installed one. Then the asset to
    /// install is looked for, and the update goes on; else it is complete.
    pub fn check_version(&mut self) -> (r: StepResult)
        ensures
            final(self).provider == old(self).provider,
            final(self).app_name == old(self).app_name,
            final(self).asset_name == old(self).asset_name,
            final(self).directory == old(self).directory,
            final(self).version == old(self).version,
            final(self).file == old(self).file,
            match check_spec(
                old(self).provider.releases(),
                old(self).version,
                old(self).asset_name@,
            ) {
                CheckView::UpToDate { latest } => {
                    &&& r == Ok::<StepAction, UpdateError>(StepAction::Complete)
                    &&& final(self).latest == Some(latest)
                    &&& final(self).asset == old(self).asset
                },
                CheckView::Update { latest, asset } => {
                    &&& r == Ok::<StepAction, UpdateError>(StepAction::Continue)
                    &&& final(self).latest == Some(latest)
                    &&& final(self).asset matches Some(found) && found@ == asset
                },
                CheckView::Unknown(e) => {
                    &&& r matches Err(error) && error@ == e
                    &&& final(self).latest == old(self).latest
                    &&& final(self).asset == old(self).asset
                },
                CheckView::Missing { latest, error: e } => {
                    &&& r matches Err(error) && error@ == e
                    &&& final(self).latest == Some(latest)
                    &&& final(self).asset == old(self).asset
                },
            },
    {
        let latest = match self.provider.latest() {
            Ok(latest) => latest,
            Err(e) => {
                return Err(e);
            },
        };
        self.latest = Some(latest);
        if !latest.is_newer_than(&self.version) {
            return Ok(StepAction::Complete);
        }
        match self.provider.find_asset(&latest, self.asset_name.as_str()) {
            Ok(asset) => {
                self.asset = Some(asset);
                Ok(StepAction::Continue)
            },
            Err(e) => Err(e),
        }
    }

    /// Takes in how the download ended, and the file that it brought if it
    /// is complete.
    pub fn finish_download(&mut self, result: DownloadResult, file: Option<F>) -> (r: StepResult)
        ensures
            final(self).provider == old(self).provider,
            final(self).app_name == old(self).app_name,
            final(self).asset_name == old(self).asset_name,
            final(self).directory == old(self).directory,
            final(self).version == old(self).version,
            final(self).latest == old(self).latest,
            final(self).asset == old(self).asset,
            final(self).file == (if result is Complete {
                file
            } else {
                old(self).file
            }),
            match after_download(result@) {
                Ok(action) => r == Ok::<StepAction, UpdateError>(action),
                Err(e) => r matches Err(error) && error@ == e,
            },
    {
        if let DownloadResult::Complete = result {
            self.file = file;
        }
        download_outcome(result)
    }

    /// The name of the directory that the latest version is installed into,
    /// below the directory of the update: the text of the version. `None`
    /// before the latest version was looked up.
    pub fn install_dir_name(&self) -> (r: Option<String>)
        ensures
            match self.latest {
                Some(latest) => r matches Some(name) && name@ == version_text(latest),
                None => r is None,
            },
    {
        match self.latest {
            Some(latest) => Some(latest.to_string()),
            None => None,
        }
    }
}

/// An update is due exactly where the latest version is newer than the
/// installed one: an equal or an older one completes the update at once, and
/// nothing is downloaded.
pub proof fn lemma_update_iff_newer(releases: Seq<ReleaseView>, installed: Version, asset_name: Seq<char>)
    ensures
        match latest_spec(releases) {
            Ok(latest) => {
                &&& installed.precedes(latest) <==> !(check_spec(releases, installed, asset_name)
                    is UpToDate)
                &&& latest == installed || latest.precedes(installed) ==> check_spec(
                    releases,
                    installed,
                    asset_name,
                ) == (CheckView::UpToDate { latest })
            },
            Err(e) => check_spec(releases, installed, asset_name) == CheckView::Unknown(e),
        },
{
}

} // verus!
