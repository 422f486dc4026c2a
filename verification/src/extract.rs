//! Unpacking a downloaded archive: which format it has, and how the
//! extraction proceeds from one entry to the next.

use vstd::prelude::*;
use crate::error::{ErrorKind, ErrorView, UpdateError};
use crate::text::{chars_of, ends_with};

pub mod path;
pub mod tar;
pub mod zip;

verus! {

/// How an extraction that did not fail ended.
#[derive(Clone, Copy, Debug, PartialEq, Eq, Structural)]
pub enum ExtractResult {
    /// Every entry was unpacked.
    Complete,
    /// The user stopped the extraction; what was unpacked stays.
    Cancelled,
}

/// The formats of archives that can be unpacked.
#[derive(Clone, Copy, Debug, PartialEq, Eq, Structural)]
pub enum ArchiveFormat {
    /// A zip archive.
    Zip,
    /// A tar archive compressed with gzip.
    TarGz,
}

/// The format that the name of an archive tells by its ending.
pub open spec fn format_of(name: Seq<char>) -> Option<ArchiveFormat> {
    if ".zip"@.is_suffix_of(name) {
        Some(ArchiveFormat::Zip)
    } else if ".tar.gz"@.is_suffix_of(name) {
        Some(ArchiveFormat::TarGz)
    } else {
        None
    }
}

/// The format of the archive called `name`. Fails with an archive format
/// error where the name ends like no known format.
pub fn archive_format(name: &str) -> (r: Result<ArchiveFormat, UpdateError>)
    ensures
        match format_of(name@) {
            Some(format) => r == Ok::<ArchiveFormat, UpdateError>(format),
            None => r matches Err(e) && e@ == (ErrorView {
                kind: ErrorKind::ArchiveFormat,
                message: "Unknown archive format!"@,
            }),
        },
{
    let chars = chars_of(name);
    let zip = chars_of(".zip");
    let targz = chars_of(".tar.gz");
    if ends_with(chars.as_slice(), zip.as_slice()) {
        Ok(ArchiveFormat::Zip)
    } else if ends_with(chars.as_slice(), targz.as_slice()) {
        Ok(ArchiveFormat::TarGz)
    } else {
        Err(UpdateError::new(ErrorKind::ArchiveFormat, "Unknown archive format!"))
    }
}

} // verus!
