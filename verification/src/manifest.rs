//! The filesystem names and the manifest text an install produces.
//!
//! The manifest's two-line form is a compatibility contract with the host
//! game engine and is pinned here character for character.

use vstd::prelude::*;
use vstd::string::StringExecFns;

use crate::text::decimal_seq;
use crate::text::trim_spec;
use crate::text::trim_text;
use crate::text::u64_to_decimal;

verus! {

/// The directory the archive is extracted into: `<mods root>/<id>`.
pub open spec fn install_path_seq(path_mods: Seq<char>, id: u64) -> Seq<char> {
    trim_spec(path_mods) + "/"@ + decimal_seq(id as int)
}

/// The manifest file beside it: `<mods root>/<id>.mod`.
pub open spec fn manifest_path_seq(path_mods: Seq<char>, id: u64) -> Seq<char> {
    install_path_seq(path_mods, id) + ".mod"@
}

/// The manifest content: exactly two key-value lines, no trailing newline.
pub open spec fn manifest_seq(title: Seq<char>, install_path: Seq<char>) -> Seq<char> {
    "name=\""@ + trim_spec(title) + "\"\npath=\""@ + install_path + "\""@
}

/// Builds the install directory path for `id` under the mods root.
pub fn install_path_text(path_mods: &str, id: u64) -> (r: String)
    ensures
        r@ == install_path_seq(path_mods@, id),
{
    let mut s = trim_text(path_mods);
    s.append("/");
    let digits = u64_to_decimal(id);
    s.append(digits.as_str());
    s
}

/// Builds the manifest file path for `id` under the mods root.
pub fn manifest_path_text(path_mods: &str, id: u64) -> (r: String)
    ensures
        r@ == manifest_path_seq(path_mods@, id),
{
    let mut s = install_path_text(path_mods, id);
    s.append(".mod");
    s
}

/// Builds the manifest text for a mod titled `title` installed at
/// `install_path`.
pub fn manifest_text(title: &str, install_path: &str) -> (r: String)
    ensures
        r@ == manifest_seq(title@, install_path@),
{
    let mut s = String::from_str("name=\"");
    let trimmed = trim_text(title);
    s.append(trimmed.as_str());
    s.append("\"\npath=\"");
    s.append(install_path);
    s.append("\"");
    s
}

} // verus!
