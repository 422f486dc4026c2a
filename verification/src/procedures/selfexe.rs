//! The update of the updater's own executable: what each of its steps
//! decides.

use vstd::prelude::*;
use crate::download::DownloadResult;
use crate::error::UpdateError;
use crate::procedures::application::{CheckView, after_download, check_spec, download_outcome};
use crate::provider::{Asset, Provider};
use crate::updater::{StepAction, StepResult};
use crate::version::Version;

verus! {

/// What the update of the updater's own executable works on. `F` is the
/// handle of the downloaded file, which only the caller looks into.
pub struct UpdateData<P: Provider, F> {
    /// Where the releases come from.
    pub provider: P,
    /// The version of the running executable; after the check, the version
    /// that it is updated to.
    pub version: Version,
    /// The name of the asset to install, or the beginning of its name.
    pub asset_name: String,
    /// The asset to install, once it was found.
    pub asset: Option<Asset>,
    /// The downloaded file, once there is one.
    pub file: Option<F>,
}

impl<P: Provider, F> UpdateData<P, F> {
    /// The data of an update that has not begun.
    pub fn new(provider: P, version: Version, asset_name: String) -> (d: Self)
        ensures
            d.provider == provider,
            d.version == version,
            d.asset_name == asset_name,
            d.asset is None,
            d.file is None,
    {
        UpdateData { provider, version, asset_name, asset: None, file: None }
    }

    /// The title of the update.
    pub fn title(&self) -> (title: &'static str)
        ensures
            title@ == "Self-Updater"@,
    {
        "Self-Updater"
    }

    /// Looks up the latest version among the releases that the provider
    /// knows and decides whether an update is due: it is if and only if the
    /// latest version is newer than that of the running executable. Then the
    /// asset to install is looked for, the latest version is noted as the
    /// one to become, and the update goes on; else it is complete.
    pub fn check_version(&mut self) -> (r: StepResult)
        ensures
            final(self).provider == old(self).provider,
            final(self).asset_name == old(self).asset_name,
            final(self).file == old(self).file,
            match check_spec(
                old(self).provider.releases(),
                old(self).version,
                old(self).asset_name@,
            ) {
                CheckView::UpToDate { latest } => {
                    &&& r == Ok::<StepAction, UpdateError>(StepAction::Complete)
                    &&& final(self).version == old(self).version
                    &&& final(self).asset == old(self).asset
                },
                CheckView::Update { latest, asset } => {
                    &&& r == Ok::<StepAction, UpdateError>(StepAction::Continue)
                    &&& final(self).version == latest
                    &&& final(self).asset matches Some(found) && found@ == asset
                },
                CheckView::Unknown(e) => {
                    &&& r matches Err(error) && error@ == e
                    &&& final(self).version == old(self).version
                    &&& final(self).asset == old(self).asset
                },
                CheckView::Missing { latest, error: e } => {
                    &&& r matches Err(error) && error@ == e
                    &&& final(self).version == old(self).version
                    &&& final(self).asset == old(self).asset
                },
            },
    {
        let latest = match self.provider.latest() {
            Ok(latest) => latest,
            Err(e) => {
                return Err(e);
            },
        };
        if !latest.is_newer_than(&self.version) {
            return Ok(StepAction::Complete);
        }
        match self.provider.find_asset(&latest, self.asset_name.as_str()) {
            Ok(asset) => {
                self.asset = Some(asset);
                self.version = latest;
                Ok(StepAction::Continue)
            },
            Err(e) => Err(e),
        }
    }

    /// Takes in how the download ended, and the file that it brought if it
    /// is complete.
    pub fn finish_download(&mut self, result: DownloadResult, file: Option<F>) -> (r: StepResult)
        ensures
            final(self).provider == old(self).provider,
            final(self).asset_name == old(self).asset_name,
            final(self).version == old(self).version,
            final(self).asset == old(self).asset,
            final(self).file == (if result is Complete {
                file
            } else {
                old(self).file
            }),
            match after_download(result@) {
                Ok(action) => r == Ok::<StepAction, UpdateError>(action),
                Err(e) => r matches Err(error) && error@ == e,
            },
    {
        if let DownloadResult::Complete = result {
            self.file = file;
        }
        download_outcome(result)
    }

    /// What follows the end of the swap of the executable: the update goes
    /// on where it went well, and fails with the swap's error where not.
    pub fn finish_install(&self, result: Result<(), UpdateError>) -> (r: StepResult)
        ensures
            match result {
                Ok(_) => r == Ok::<StepAction, UpdateError>(StepAction::Continue),
                Err(e) => r == Err::<StepAction, UpdateError>(e),
            },
    {
        match result {
            Ok(_) => Ok(StepAction::Continue),
            Err(e) => Err(e),
        }
    }
}

} // verus!
