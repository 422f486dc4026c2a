//! Releases as GitHub lists them.

use vstd::prelude::*;
use vstd::string::StringExecFns;
use crate::error::{ErrorKind, ErrorView, UpdateError, result_view};
use crate::provider::Provider;
use crate::provider::asset::{Asset, AssetView};
use crate::provider::release::{
    Release,
    ReleaseView,
    asset_by_name,
    asset_by_prefix,
    asset_spec,
    assets_spec,
    assets_view,
    duplicate_assets,
    find_asset_spec,
    latest_spec,
    latest_version,
    lemma_asset_from,
    lemma_release_from,
    release_assets,
    releases_view,
    AssetQuery,
};
use crate::version::Version;

verus! {

/// What came back from the request for the list of releases.
#[derive(Debug)]
pub enum FetchOutcome {
    /// The list of releases.
    Releases(Vec<Release>),
    /// An error that GitHub reported, with its message.
    Refused(String),
    /// The answer could not be read as either; the message says why.
    Malformed(String),
    /// The request itself failed; the message says why.
    Unreachable(String),
}

/// The releases of one GitHub repository.
#[derive(Debug)]
pub struct GitHubProvider {
    url: String,
    releases: Option<Vec<Release>>,
}

/// The address of the list of releases of the repository `repo`.
pub open spec fn releases_url(repo: Seq<char>) -> Seq<char> {
    "https://api.github.com/repos/"@ + repo + "/releases"@
}

/// What taking in the outcome of a request leads to: the releases known
/// from then on, or the error to report, in which case the releases known
/// before stay.
pub open spec fn accept_spec(known: Seq<ReleaseView>, outcome: FetchOutcome) -> Result<
    Seq<ReleaseView>,
    ErrorView,
> {
    match outcome {
        FetchOutcome::Releases(list) => Ok(releases_view(list@)),
        FetchOutcome::Refused(message) => Err(
            ErrorView { kind: ErrorKind::Remote, message: message@ },
        ),
        FetchOutcome::Malformed(message) => Err(
            ErrorView { kind: ErrorKind::Parse, message: message@ },
        ),
        FetchOutcome::Unreachable(message) => Err(
            ErrorView { kind: ErrorKind::Network, message: message@ },
        ),
    }
}

impl GitHubProvider {
    /// The address that the list of releases is asked from.
    pub closed spec fn spec_url(&self) -> Seq<char> {
        self.url@
    }

    /// Whether a list of releases was taken in.
    pub closed spec fn fetched(&self) -> bool {
        self.releases is Some
    }

    /// A provider for the repository `repo`, written as `user/repository`.
    /// It knows no release yet.
    pub fn new(repo: &str) -> (p: GitHubProvider)
        ensures
            p.spec_url() == releases_url(repo@),
            !p.fetched(),
            p.releases() == Seq::<ReleaseView>::empty(),
    {
        let url = String::from_str("https://api.github.com/repos/").concat(repo).concat(
            "/releases",
        );
        GitHubProvider { url, releases: None }
    }

    /// The address that the list of releases is asked from.
    pub fn url(&self) -> (r: &str)
        ensures
            r@ == self.spec_url(),
    {
        self.url.as_str()
    }

    /// Takes in what the request for the list of releases brought. A list
    /// replaces the releases known so far; anything else is reported as an
    /// error, GitHub's own message word for word, and changes nothing.
    pub fn accept(&mut self, outcome: FetchOutcome) -> (r: Result<(), UpdateError>)
        ensures
            final(self).spec_url() == old(self).spec_url(),
            match accept_spec(old(self).releases(), outcome) {
                Ok(known) => r is Ok && final(self).releases() == known && final(self).fetched(),
                Err(e) => {
                    &&& r matches Err(error) && error@ == e
                    &&& final(self).releases() == old(self).releases()
                    &&& final(self).fetched() == old(self).fetched()
                },
            },
    {
        match outcome {
            FetchOutcome::Releases(list) => {
                self.releases = Some(list);
                Ok(())
            },
            FetchOutcome::Refused(message) => Err(
                UpdateError::with_message(ErrorKind::Remote, message),
            ),
            FetchOutcome::Malformed(message) => Err(
                UpdateError::with_message(ErrorKind::Parse, message),
            ),
            FetchOutcome::Unreachable(message) => Err(
                UpdateError::with_message(ErrorKind::Network, message),
            ),
        }
    }

    /// The latest version, under the name that earlier callers know.
    pub fn version(&self) -> (r: Result<Version, UpdateError>)
        ensures
            result_view(r) == latest_spec(self.releases()),
    {
        self.latest()
    }
}

impl Provider for GitHubProvider {
    closed spec fn releases(&self) -> Seq<ReleaseView> {
        match self.releases {
            Some(list) => releases_view(list@),
            None => Seq::empty(),
        }
    }

    fn name(&self) -> (r: &'static str)
        ensures
            r@ == "GitHub"@,
    {
        "GitHub"
    }

    fn latest(&self) -> (r: Result<Version, UpdateError>) {
        match &self.releases {
            Some(list) => latest_version(list),
            None => Err(UpdateError::new(ErrorKind::Parse, "No release names a version")),
        }
    }

    fn assets(&self, version: &Version) -> (r: Result<Vec<Asset>, UpdateError>) {
        match &self.releases {
            Some(list) => match release_assets(list, version) {
                Ok(found) => Ok(duplicate_assets(found)),
                Err(e) => Err(e),
            },
            None => Err(UpdateError::new(ErrorKind::NotFound, "Version not found")),
        }
    }

    fn asset(&self, version: &Version, name: &str) -> (r: Result<Asset, UpdateError>) {
        match &self.releases {
            Some(list) => match release_assets(list, version) {
                Ok(found) => {
                    proof {
                        lemma_asset_from(assets_view(found@), AssetQuery::Named(name@), 0);
                    }
                    match asset_by_name(found, name) {
                        Some(asset) => Ok(asset.duplicate()),
                        None => Err(UpdateError::new(ErrorKind::NotFound, "Asset not found")),
                    }
                },
                Err(e) => Err(e),
            },
            None => Err(UpdateError::new(ErrorKind::NotFound, "Version not found")),
        }
    }

    fn find_asset(&self, version: &Version, name: &str) -> (r: Result<Asset, UpdateError>) {
        match &self.releases {
            Some(list) => match release_assets(list, version) {
                Ok(found) => {
                    proof {
                        lemma_asset_from(assets_view(found@), AssetQuery::Prefixed(name@), 0);
                    }
                    match asset_by_prefix(found, name) {
                        Some(asset) => Ok(asset.duplicate()),
                        None => Err(UpdateError::new(ErrorKind::NotFound, "Asset not found")),
                    }
                },
                Err(e) => Err(e),
            },
            None => Err(UpdateError::new(ErrorKind::NotFound, "Version not found")),
        }
    }
}

} // verus!
