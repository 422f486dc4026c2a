//! Release metadata, and the sources that provide it.

use vstd::prelude::*;
use crate::error::{ErrorView, UpdateError, result_view};
use crate::version::Version;

pub mod asset;
pub mod github;
pub mod release;

pub use asset::{Asset, AssetView};
pub use github::{FetchOutcome, GitHubProvider};
pub use release::{Release, ReleaseView};

verus! {

/// The outcome of a query for one asset, each side taken by its
/// mathematical value.
pub open spec fn asset_result_view(r: Result<Asset, UpdateError>) -> Result<AssetView, ErrorView> {
    match r {
        Ok(asset) => Ok(asset@),
        Err(e) => Err(e@),
    }
}

/// The outcome of a query for a list of assets, each side taken by its
/// mathematical value.
pub open spec fn assets_result_view(r: Result<Vec<Asset>, UpdateError>) -> Result<
    Seq<AssetView>,
    ErrorView,
> {
    match r {
        Ok(assets) => Ok(release::assets_view(assets@)),
        Err(e) => Err(e@),
    }
}

/// A source of releases. What it answers follows from the releases that it
/// knows, and from them alone.
pub trait Provider {
    /// The releases that the provider knows, in the order in which it lists
    /// them. None before the first list was taken in.
    spec fn releases(&self) -> Seq<ReleaseView>;

    /// The name of the provider.
    fn name(&self) -> (r: &'static str);

    /// The newest version that the tag of a known release names. Fails with
    /// a parse error where no tag names a version.
    fn latest(&self) -> (r: Result<Version, UpdateError>)
        ensures
            result_view(r) == release::latest_spec(self.releases()),
    ;

    /// The assets of the first release whose tag names `version`. Fails with
    /// a not-found error where there is no such release.
    fn assets(&self, version: &Version) -> (r: Result<Vec<Asset>, UpdateError>)
        ensures
            assets_result_view(r) == release::assets_spec(self.releases(), *version),
    ;

    /// The first asset called `name` in the first release of `version`.
    /// Fails with a not-found error where there is none.
    fn asset(&self, version: &Version, name: &str) -> (r: Result<Asset, UpdateError>)
        ensures
            asset_result_view(r) == release::asset_spec(self.releases(), *version, name@),
    ;

    /// The first asset whose name begins with `name` in the first release of
    /// `version`. Fails with a not-found error where there is none.
    fn find_asset(&self, version: &Version, name: &str) -> (r: Result<Asset, UpdateError>)
        ensures
            asset_result_view(r) == release::find_asset_spec(self.releases(), *version, name@),
    ;
}

} // verus!
