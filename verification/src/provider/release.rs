//! Releases, and what a list of releases says: the latest version, the
//! assets of a version, and the asset of a given name.

use vstd::prelude::*;
use crate::error::{ErrorKind, ErrorView, UpdateError, result_view};
use crate::provider::asset::{Asset, AssetView};
use crate::text::{chars_of, starts_with};
use crate::version::Version;
use crate::version::parse::{extract, extract_spec};

verus! {

/// One release: its tag and its downloadable files.
#[derive(Clone, Debug)]
pub struct Release {
    pub tag: String,
    pub assets: Vec<Asset>,
}

/// The mathematical value of a [`Release`].
pub struct ReleaseView {
    pub tag: Seq<char>,
    pub assets: Seq<AssetView>,
}

/// The values of a list of assets.
pub open spec fn assets_view(assets: Seq<Asset>) -> Seq<AssetView> {
    assets.map_values(|a: Asset| a@)
}

/// The values of a list of releases.
pub open spec fn releases_view(releases: Seq<Release>) -> Seq<ReleaseView> {
    releases.map_values(|r: Release| r@)
}

impl View for Release {
    type V = ReleaseView;

    open spec fn view(&self) -> ReleaseView {
        ReleaseView { tag: self.tag@, assets: assets_view(self.assets@) }
    }
}

impl Release {
    /// A release with the given tag and assets.
    pub fn new(tag: &str, assets: Vec<Asset>) -> (r: Release)
        ensures
            r@ == (ReleaseView { tag: tag@, assets: assets_view(assets@) }),
    {
        Release { tag: tag.to_owned(), assets }
    }

    /// The version that the release's tag names.
    pub fn version(&self) -> (r: Result<Version, UpdateError>)
        ensures
            result_view(r) == extract_spec(self@.tag),
    {
        extract(self.tag.as_str())
    }
}

/// The version that a tag names, if it names one.
pub open spec fn tag_version(tag: Seq<char>) -> Option<Version> {
    match extract_spec(tag) {
        Ok(version) => Some(version),
        Err(_) => None,
    }
}

/// The newer of a version and what may be one.
pub open spec fn newer_of(best: Option<Version>, version: Version) -> Version {
    match best {
        Some(b) => if b.precedes(version) {
            version
        } else {
            b
        },
        None => version,
    }
}

/// The newest version that a tag of `releases` names; `None` where no tag
/// names a version.
pub open spec fn latest_of(releases: Seq<ReleaseView>) -> Option<Version>
    decreases releases.len(),
{
    if releases.len() == 0 {
        None
    } else {
        let before = latest_of(releases.drop_last());
        match tag_version(releases.last().tag) {
            Some(version) => Some(newer_of(before, version)),
            None => before,
        }
    }
}

/// The latest version is named by one of the tags, and no tag names a newer
/// one. Where there is no latest version, no tag names a version.
pub proof fn lemma_latest_is_maximum(releases: Seq<ReleaseView>)
    ensures
        match latest_of(releases) {
            Some(latest) => {
                &&& exists|i: int|
                    0 <= i < releases.len() && tag_version(#[trigger] releases[i].tag) == Some(
                        latest,
                    )
                &&& forall|i: int|
                    0 <= i < releases.len() ==> match tag_version(#[trigger] releases[i].tag) {
                        Some(v) => !latest.precedes(v),
                        None => true,
                    }
            },
            None => forall|i: int|
                0 <= i < releases.len() ==> tag_version(#[trigger] releases[i].tag) is None,
        },
    decreases releases.len(),
{
    if releases.len() > 0 {
        let init = releases.drop_last();
        let last = releases.len() - 1;
        lemma_latest_is_maximum(init);
        assert forall|i: int| 0 <= i < init.len() implies init[i] == releases[i] by {}
        match latest_of(releases) {
            Some(latest) => {
                if tag_version(releases.last().tag) == Some(latest) {
                    assert(tag_version(releases[last].tag) == Some(latest));
                } else {
                    let i = choose|i: int|
                        0 <= i < init.len() && tag_version(#[trigger] init[i].tag) == Some(latest);
                    assert(tag_version(releases[i].tag) == Some(latest));
                }
                assert forall|i: int| 0 <= i < releases.len() implies match tag_version(
                    #[trigger] releases[i].tag,
                ) {
                    Some(v) => !latest.precedes(v),
                    None => true,
                } by {
                    if i < last {
                        assert(init[i] == releases[i]);
                    }
                }
            },
            None => {
                assert forall|i: int| 0 <= i < releases.len() implies tag_version(
                    #[trigger] releases[i].tag,
                ) is None by {
                    if i < last {
                        assert(tag_version(init[i].tag) is None);
                    }
                }
            },
        }
    }
}

/// The index of the first release at `from` or behind it whose tag names
/// `version`.
pub open spec fn release_from(releases: Seq<ReleaseView>, version: Version, from: int) -> Option<int>
    decreases releases.len() - from,
{
    if from >= releases.len() {
        None
    } else if tag_version(releases[from].tag) == Some(version) {
        Some(from)
    } else {
        release_from(releases, version, from + 1)
    }
}

/// The index of the first release whose tag names `version`.
pub open spec fn release_of(releases: Seq<ReleaseView>, version: Version) -> Option<int> {
    release_from(releases, version, 0)
}

/// How an asset is asked for: by its whole name, or by the beginning of its
/// name.
pub enum AssetQuery {
    Named(Seq<char>),
    Prefixed(Seq<char>),
}

/// Whether an asset of the name `name` answers the query.
pub open spec fn answers(name: Seq<char>, query: AssetQuery) -> bool {
    match query {
        AssetQuery::Named(wanted) => name == wanted,
        AssetQuery::Prefixed(prefix) => prefix.is_prefix_of(name),
    }
}

/// The index of the first asset at `from` or behind it that answers the
/// query.
pub open spec fn asset_from(assets: Seq<AssetView>, query: AssetQuery, from: int) -> Option<int>
    decreases assets.len() - from,
{
    if from >= assets.len() {
        None
    } else if answers(assets[from].name, query) {
        Some(from)
    } else {
        asset_from(assets, query, from + 1)
    }
}

/// The index of the first asset that is called `name`.
pub open spec fn asset_named(assets: Seq<AssetView>, name: Seq<char>) -> Option<int> {
    asset_from(assets, AssetQuery::Named(name), 0)
}

/// The index of the first asset whose name begins with `prefix`.
pub open spec fn asset_with_prefix(assets: Seq<AssetView>, prefix: Seq<char>) -> Option<int> {
    asset_from(assets, AssetQuery::Prefixed(prefix), 0)
}

/// The release found for a version names that version, and no release
/// before it does; where none is found, no release names the version.
pub proof fn lemma_release_from(releases: Seq<ReleaseView>, version: Version, from: int)
    requires
        0 <= from,
    ensures
        match release_from(releases, version, from) {
            Some(i) => {
                &&& from <= i < releases.len()
                &&& tag_version(releases[i].tag) == Some(version)
                &&& forall|j: int|
                    from <= j < i ==> tag_version(#[trigger] releases[j].tag) != Some(version)
            },
            None => forall|j: int|
                from <= j < releases.len() ==> tag_version(#[trigger] releases[j].tag) != Some(
                    version,
                ),
        },
    decreases releases.len() - from,
{
    if from < releases.len() && tag_version(releases[from].tag) != Some(version) {
        lemma_release_from(releases, version, from + 1);
    }
}

/// The asset found for a query answers it, and no asset before it does;
/// where none is found, no asset answers the query.
pub proof fn lemma_asset_from(assets: Seq<AssetView>, query: AssetQuery, from: int)
    requires
        0 <= from,
    ensures
        match asset_from(assets, query, from) {
            Some(i) => {
                &&& from <= i < assets.len()
                &&& answers(assets[i].name, query)
                &&& forall|j: int| from <= j < i ==> !answers(#[trigger] assets[j].name, query)
            },
            None => forall|j: int|
                from <= j < assets.len() ==> !answers(#[trigger] assets[j].name, query),
        },
    decreases assets.len() - from,
{
    if from < assets.len() && !answers(assets[from].name, query) {
        lemma_asset_from(assets, query, from + 1);
    }
}

/// The error that says that something was not found.
pub open spec fn not_found(message: Seq<char>) -> ErrorView {
    ErrorView { kind: ErrorKind::NotFound, message }
}

/// The latest version of `releases`, or the parse error that says that
/// there is none.
pub open spec fn latest_spec(releases: Seq<ReleaseView>) -> Result<Version, ErrorView> {
    match latest_of(releases) {
        Some(version) => Ok(version),
        None => Err(
            ErrorView { kind: ErrorKind::Parse, message: "No release names a version"@ },
        ),
    }
}

/// The assets of the first release of `version`.
pub open spec fn assets_spec(releases: Seq<ReleaseView>, version: Version) -> Result<
    Seq<AssetView>,
    ErrorView,
> {
    match release_of(releases, version) {
        Some(i) => Ok(releases[i].assets),
        None => Err(not_found("Version not found"@)),
    }
}

/// The first asset that answers `query` among the assets of the first
/// release of `version`.
pub open spec fn query_spec(releases: Seq<ReleaseView>, version: Version, query: AssetQuery) -> Result<
    AssetView,
    ErrorView,
> {
    match assets_spec(releases, version) {
        Ok(assets) => match asset_from(assets, query, 0) {
            Some(i) => Ok(assets[i]),
            None => Err(not_found("Asset not found"@)),
        },
        Err(e) => Err(e),
    }
}

/// The asset called `name` in the first release of `version`.
pub open spec fn asset_spec(releases: Seq<ReleaseView>, version: Version, name: Seq<char>) -> Result<
    AssetView,
    ErrorView,
> {
    query_spec(releases, version, AssetQuery::Named(name))
}

/// The first asset whose name begins with `prefix` in the first release of
/// `version`.
pub open spec fn find_asset_spec(
    releases: Seq<ReleaseView>,
    version: Version,
    prefix: Seq<char>,
) -> Result<AssetView, ErrorView> {
    query_spec(releases, version, AssetQuery::Prefixed(prefix))
}

/// The newest version that a tag of `releases` names.
pub fn latest_version(releases: &Vec<Release>) -> (r: Result<Version, UpdateError>)
    ensures
        result_view(r) == latest_spec(releases_view(releases@)),
{
    let ghost all = releases_view(releases@);
    let mut best: Option<Version> = None;
    let mut i: usize = 0;
    while i < releases.len()
        invariant
            i <= releases@.len(),
            all == releases_view(releases@),
            best == latest_of(all.take(i as int)),
        decreases releases.len() - i,
    {
        proof {
            assert(all.take(i + 1).drop_last() =~= all.take(i as int));
            assert(all.take(i + 1).last() == releases@[i as int]@);
        }
        match releases[i].version() {
            Ok(version) => {
                best = Some(
                    match best {
                        Some(b) => if version.is_newer_than(&b) {
                            version
                        } else {
                            b
                        },
                        None => version,
                    },
                );
            },
            Err(_) => {},
        }
        i = i + 1;
    }
    assert(all.take(releases@.len() as int) =~= all);
    match best {
        Some(version) => Ok(version),
        None => Err(UpdateError::new(ErrorKind::Parse, "No release names a version")),
    }
}

/// The first release whose tag names `version`.
pub fn find_release<'a>(releases: &'a Vec<Release>, version: &Version) -> (r: Option<&'a Release>)
    ensures
        match release_of(releases_view(releases@), *version) {
            Some(i) => r == Some(&releases@[i]),
            None => r is None,
        },
{
    let ghost all = releases_view(releases@);
    let mut i: usize = 0;
    while i < releases.len()
        invariant
            i <= releases@.len(),
            all == releases_view(releases@),
            release_of(all, *version) == release_from(all, *version, i as int),
        decreases releases.len() - i,
    {
        assert(all[i as int] == releases@[i as int]@);
        match releases[i].version() {
            Ok(found) => {
                if found == *version {
                    return Some(&releases[i]);
                }
            },
            Err(_) => {},
        }
        i = i + 1;
    }
    None
}

/// The assets of the first release of `version`.
pub fn release_assets<'a>(releases: &'a Vec<Release>, version: &Version) -> (r: Result<
    &'a Vec<Asset>,
    UpdateError,
>)
    ensures
        match assets_spec(releases_view(releases@), *version) {
            Ok(assets) => r matches Ok(found) && assets_view(found@) == assets,
            Err(e) => r matches Err(error) && error@ == e,
        },
{
    proof {
        lemma_release_from(releases_view(releases@), *version, 0);
    }
    match find_release(releases, version) {
        Some(release) => Ok(&release.assets),
        None => Err(UpdateError::new(ErrorKind::NotFound, "Version not found")),
    }
}

/// A copy of each asset of `assets`, in the same order.
pub fn duplicate_assets(assets: &Vec<Asset>) -> (copy: Vec<Asset>)
    ensures
        assets_view(copy@) == assets_view(assets@),
{
    let mut copy: Vec<Asset> = Vec::new();
    let mut i: usize = 0;
    while i < assets.len()
        invariant
            i <= assets@.len(),
            copy@.len() == i,
            assets_view(copy@) == assets_view(assets@).take(i as int),
        decreases assets.len() - i,
    {
        let ghost before = copy@;
        copy.push(assets[i].duplicate());
        i = i + 1;
        assert(assets_view(copy@) =~= assets_view(assets@).take(i as int)) by {
            assert(copy@.len() == i);
            assert forall|k: int| 0 <= k < i implies assets_view(copy@)[k] == assets_view(
                assets@,
            )[k] by {
                if k < i - 1 {
                    assert(copy@[k] == before[k]);
                    assert(assets_view(before)[k] == assets_view(assets@).take(i - 1)[k]);
                }
            }
        }
    }
    assert(assets_view(assets@).take(assets@.len() as int) =~= assets_view(assets@));
    copy
}

/// The first asset of `assets` that is called `name`.
pub fn asset_by_name<'a>(assets: &'a Vec<Asset>, name: &str) -> (r: Option<&'a Asset>)
    ensures
        match asset_named(assets_view(assets@), name@) {
            Some(i) => r == Some(&assets@[i]),
            None => r is None,
        },
{
    let ghost all = assets_view(assets@);
    let ghost query = AssetQuery::Named(name@);
    let wanted = name.to_owned();
    let mut i: usize = 0;
    while i < assets.len()
        invariant
            i <= assets@.len(),
            all == assets_view(assets@),
            wanted@ == name@,
            query == AssetQuery::Named(name@),
            asset_from(all, query, 0) == asset_from(all, query, i as int),
        decreases assets.len() - i,
    {
        assert(all[i as int] == assets@[i as int]@);
        if assets[i].name == wanted {
            return Some(&assets[i]);
        }
        i = i + 1;
    }
    None
}

/// The first asset of `assets` whose name begins with `prefix`.
pub fn asset_by_prefix<'a>(assets: &'a Vec<Asset>, prefix: &str) -> (r: Option<&'a Asset>)
    ensures
        match asset_with_prefix(assets_view(assets@), prefix@) {
            Some(i) => r == Some(&assets@[i]),
            None => r is None,
        },
{
    let ghost all = assets_view(assets@);
    let ghost query = AssetQuery::Prefixed(prefix@);
    let prefix_chars = chars_of(prefix);
    let mut i: usize = 0;
    while i < assets.len()
        invariant
            i <= assets@.len(),
            all == assets_view(assets@),
            prefix_chars@ == prefix@,
            query == AssetQuery::Prefixed(prefix@),
            asset_from(all, query, 0) == asset_from(all, query, i as int),
        decreases assets.len() - i,
    {
        assert(all[i as int] == assets@[i as int]@);
        let name_chars = chars_of(assets[i].name.as_str());
        if starts_with(name_chars.as_slice(), prefix_chars.as_slice()) {
            return Some(&assets[i]);
        }
        i = i + 1;
    }
    None
}

} // verus!
