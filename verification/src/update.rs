//! The name of the asset to install, as it is spelled for the platform that
//! the launcher runs on.

use vstd::prelude::*;
use crate::text::{chars_of, replace_all, replaced, string_of};

verus! {

/// The name of an asset after each `<os>` in `name` was replaced by `os`,
/// and then each `<arch>` by `arch`.
pub open spec fn asset_name_for(name: Seq<char>, os: Seq<char>, arch: Seq<char>) -> Seq<char> {
    replaced(replaced(name, "<os>"@, os), "<arch>"@, arch)
}

/// Spells the name of an asset for a platform: each `<os>` in `name` is
/// replaced by `os`, the name of the operating system, and then each
/// `<arch>` by `arch`, the name of the processor's architecture.
pub fn convert_asset_name(name: &str, os: &str, arch: &str) -> (r: String)
    ensures
        r@ == asset_name_for(name@, os@, arch@),
{
    let name_chars = chars_of(name);
    let os_mark = chars_of("<os>");
    let arch_mark = chars_of("<arch>");
    let os_chars = chars_of(os);
    let arch_chars = chars_of(arch);
    let with_os = replace_all(name_chars.as_slice(), os_mark.as_slice(), os_chars.as_slice());
    let with_both = replace_all(with_os.as_slice(), arch_mark.as_slice(), arch_chars.as_slice());
    proof {
        assert(with_both@.subrange(0, with_both@.len() as int) =~= with_both@);
    }
    string_of(with_both.as_slice(), 0, with_both.len())
}

} // verus!
