//! A downloadable file of a release.

use vstd::prelude::*;
use crate::download::{Download, DownloadPhase};

verus! {

/// A downloadable file of a release.
#[derive(Clone, Debug)]
pub struct Asset {
    pub name: String,
    pub size: u64,
    pub url: String,
}

/// The mathematical value of an [`Asset`].
pub struct AssetView {
    pub name: Seq<char>,
    pub size: u64,
    pub url: Seq<char>,
}

impl View for Asset {
    type V = AssetView;

    open spec fn view(&self) -> AssetView {
        AssetView { name: self.name@, size: self.size, url: self.url@ }
    }
}

impl Asset {
    /// An asset with the given name, size in bytes and address.
    pub fn new(name: &str, size: u64, url: &str) -> (a: Asset)
        ensures
            a@ == (AssetView { name: name@, size, url: url@ }),
    {
        Asset { name: name.to_owned(), size, url: url.to_owned() }
    }

    /// The asset's name.
    pub fn name(&self) -> (r: &str)
        ensures
            r@ == self@.name,
    {
        self.name.as_str()
    }

    /// The asset's size in bytes.
    pub fn size(&self) -> (r: u64)
        ensures
            r == self@.size,
    {
        self.size
    }

    /// The address from which the asset is downloaded.
    pub fn url(&self) -> (r: &str)
        ensures
            r@ == self@.url,
    {
        self.url.as_str()
    }

    /// A download of the asset, not yet begun.
    pub fn download(&self) -> (d: Download)
        ensures
            d.spec_size() == self@.size,
            d.spec_phase() == DownloadPhase::Idle,
            d.spec_pending() == 0,
    {
        Download::new(self.size)
    }

    /// A copy of the asset.
    pub fn duplicate(&self) -> (a: Asset)
        ensures
            a@ == self@,
    {
        Asset { name: self.name.clone(), size: self.size, url: self.url.clone() }
    }
}

} // verus!
