//! The settings of the launcher, and what makes them usable.

use vstd::prelude::*;
use crate::error::{ErrorKind, ErrorView, UpdateError};
use crate::extract::path::{is_rooted, rooted};
use crate::provider::GitHubProvider;
use crate::provider::Provider;
use crate::provider::ReleaseView;
use crate::provider::github::releases_url;
use crate::text::chars_of;

verus! {

/// The error that says that a setting cannot be used.
pub open spec fn invalid(message: Seq<char>) -> ErrorView {
    ErrorView { kind: ErrorKind::InvalidConfig, message }
}

/// Settings that can be checked before they are used.
pub trait Verifiable {
    /// What is wrong with the settings, if anything is: the first fault in
    /// the order in which they are checked.
    spec fn fault(&self) -> Option<ErrorView>;

    /// Checks the settings. Fails with the first fault found.
    fn verify(&self) -> (r: Result<(), UpdateError>)
        ensures
            match self.fault() {
                None => r is Ok,
                Some(e) => r matches Err(error) && error@ == e,
            },
    ;
}

/// Settings of an updater. Nothing is asked of them as such.
pub trait UpdaterConfig {

}

/// Where on GitHub the releases are.
#[derive(Clone, Debug)]
pub struct GitHubProviderSettings {
    /// The repository, written as `user/repository`.
    pub repository: String,
}

/// Where the releases come from.
#[derive(Clone, Debug)]
pub struct ProviderConfig {
    /// The settings for GitHub, if GitHub is the provider.
    pub github: Option<GitHubProviderSettings>,
}

/// The application that the launcher manages.
#[derive(Clone, Debug)]
pub struct ApplicationConfig {
    /// The name of the application.
    pub name: String,
    /// The path of its executable, from the directory of a version.
    pub executable: String,
}

/// How the launcher updates.
#[derive(Clone, Debug)]
pub struct UpdateConfig {
    /// Whether to update the application before it is launched.
    pub before_launch: bool,
    /// Whether the updater updates itself.
    pub update_self: bool,
    /// Whether to install the application where no version is found.
    pub should_install: bool,
    /// Whether to show the progress in a window.
    pub show_progress: bool,
    /// The name of the asset to install; it may hold `<os>` and `<arch>`.
    pub asset_name: String,
    /// Where the releases come from.
    pub provider: ProviderConfig,
}

/// All settings of the launcher.
#[derive(Clone, Debug)]
pub struct Config {
    /// The application that the launcher manages.
    pub application: ApplicationConfig,
    /// How the launcher updates.
    pub update: UpdateConfig,
}

/// Unless told otherwise, the application is launched before it is updated.
pub fn default_before_launch() -> (r: bool)
    ensures
        !r,
{
    false
}

/// Unless told otherwise, the updater updates itself.
pub fn default_update_self() -> (r: bool)
    ensures
        r,
{
    true
}

/// Unless told otherwise, a missing application is installed.
pub fn default_should_install() -> (r: bool)
    ensures
        r,
{
    true
}

/// Unless told otherwise, no window shows the progress.
pub fn default_show_progress() -> (r: bool)
    ensures
        !r,
{
    false
}

impl GitHubProviderSettings {
    /// The provider for the repository of these settings.
    pub fn provider(&self) -> (p: GitHubProvider)
        ensures
            p.spec_url() == releases_url(self.repository@),
            !p.fetched(),
            p.releases() == Seq::<ReleaseView>::empty(),
    {
        GitHubProvider::new(self.repository.as_str())
    }
}

impl Verifiable for GitHubProviderSettings {
    open spec fn fault(&self) -> Option<ErrorView> {
        if self.repository@.len() == 0 {
            Some(invalid("GitHub repository field is empty"@))
        } else {
            None
        }
    }

    fn verify(&self) -> (r: Result<(), UpdateError>) {
        if self.repository.as_str().is_empty() {
            return Err(UpdateError::new(ErrorKind::InvalidConfig, "GitHub repository field is empty"));
        }
        Ok(())
    }
}

impl ProviderConfig {
    /// The provider that the settings name. Fails where they name none.
    pub fn provider(&self) -> (r: Result<GitHubProvider, UpdateError>)
        ensures
            match self.github {
                Some(settings) => r matches Ok(p) && p.spec_url() == releases_url(
                    settings.repository@,
                ) && !p.fetched() && p.releases() == Seq::<ReleaseView>::empty(),
                None => r matches Err(e) && e@ == invalid("No provider was specified!"@),
            },
    {
        match &self.github {
            Some(settings) => Ok(settings.provider()),
            None => Err(UpdateError::new(ErrorKind::InvalidConfig, "No provider was specified!")),
        }
    }
}

impl Verifiable for ProviderConfig {
    open spec fn fault(&self) -> Option<ErrorView> {
        match self.github {
            Some(settings) => settings.fault(),
            None => None,
        }
    }

    fn verify(&self) -> (r: Result<(), UpdateError>) {
        match &self.github {
            Some(settings) => settings.verify(),
            None => Ok(()),
        }
    }
}

impl Verifiable for ApplicationConfig {
    open spec fn fault(&self) -> Option<ErrorView> {
        if self.name@.len() == 0 {
            Some(invalid("application name is empty"@))
        } else if is_rooted(self.executable@) {
            Some(invalid("executable path is absolute"@))
        } else {
            None
        }
    }

    fn verify(&self) -> (r: Result<(), UpdateError>) {
        if self.name.as_str().is_empty() {
            return Err(UpdateError::new(ErrorKind::InvalidConfig, "application name is empty"));
        }
        let path = chars_of(self.executable.as_str());
        if rooted(path.as_slice()) {
            return Err(UpdateError::new(ErrorKind::InvalidConfig, "executable path is absolute"));
        }
        Ok(())
    }
}

impl UpdateConfig {
    /// Settings for the asset `asset_name` from `provider`, everything else
    /// as it is unless told otherwise.
    pub fn new(asset_name: String, provider: ProviderConfig) -> (c: UpdateConfig)
        ensures
            !c.before_launch,
            c.update_self,
            c.should_install,
            !c.show_progress,
            c.asset_name == asset_name,
            c.provider == provider,
    {
        UpdateConfig {
            before_launch: default_before_launch(),
            update_self: default_update_self(),
            should_install: default_should_install(),
            show_progress: default_show_progress(),
            asset_name,
            provider,
        }
    }
}

impl Verifiable for UpdateConfig {
    open spec fn fault(&self) -> Option<ErrorView> {
        if self.asset_name@.len() == 0 {
            Some(invalid("Asset name is empty"@))
        } else {
            self.provider.fault()
        }
    }

    fn verify(&self) -> (r: Result<(), UpdateError>) {
        if self.asset_name.as_str().is_empty() {
            return Err(UpdateError::new(ErrorKind::InvalidConfig, "Asset name is empty"));
        }
        self.provider.verify()
    }
}

impl Verifiable for Config {
    open spec fn fault(&self) -> Option<ErrorView> {
        match self.application.fault() {
            Some(e) => Some(e),
            None => self.update.fault(),
        }
    }

    fn verify(&self) -> (r: Result<(), UpdateError>) {
        match self.application.verify() {
            Ok(_) => self.update.verify(),
            Err(e) => Err(e),
        }
    }
}

} // verus!
