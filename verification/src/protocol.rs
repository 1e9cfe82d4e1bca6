//! The exact texts exchanged with the two remote services, and the reading
//! of their answers into decisions.
//!
//! The metadata service answers a details list; the delivery service hands
//! out a request handle, reports a status per handle, and finally streams
//! the archive. The caller performs the transport; everything the wire
//! carries or decides is pinned down here.

use vstd::prelude::*;
use vstd::string::StrSliceExecFns;
use vstd::string::StringExecFns;

use crate::errors::SyncError;
use crate::text::decimal_seq;
use crate::text::u64_to_decimal;

verus! {

/// The catalog endpoint answering title and update time for an identifier.
pub fn metadata_url() -> (r: &'static str)
    ensures
        r@ == "https://api.steampowered.com/ISteamRemoteStorage/GetPublishedFileDetails/v1/"@,
{
    "https://api.steampowered.com/ISteamRemoteStorage/GetPublishedFileDetails/v1/"
}

/// The delivery endpoint a packaging request is submitted to.
pub fn request_url() -> (r: &'static str)
    ensures
        r@ == "https://backend-01-prd.steamworkshopdownloader.io/api/download/request"@,
{
    "https://backend-01-prd.steamworkshopdownloader.io/api/download/request"
}

/// The delivery endpoint reporting preparation status per handle.
pub fn status_url() -> (r: &'static str)
    ensures
        r@ == "https://backend-01-prd.steamworkshopdownloader.io/api/download/status"@,
{
    "https://backend-01-prd.steamworkshopdownloader.io/api/download/status"
}

/// The body of the packaging request: one mod, extraction enabled, not a
/// collection, not hidden, no direct link, no autodownload.
pub open spec fn request_body_seq(id: u64) -> Seq<char> {
    "{\"publishedFileId\":"@ + decimal_seq(id as int)
        + ",\"collectionId\":null,\"extract\":true,\"hidden\":false,\"direct\":false,\"autodownload\":false}"@
}

/// Builds the packaging request body for `id`.
pub fn request_body_text(id: u64) -> (r: String)
    ensures
        r@ == request_body_seq(id),
{
    let mut s = String::from_str("{\"publishedFileId\":");
    let digits = u64_to_decimal(id);
    s.append(digits.as_str());
    s.append(
        ",\"collectionId\":null,\"extract\":true,\"hidden\":false,\"direct\":false,\"autodownload\":false}",
    );
    s
}

/// The body of a status poll: the list holding the one handle.
pub open spec fn status_body_seq(uuid: Seq<char>) -> Seq<char> {
    "{\"uuids\":[\""@ + uuid + "\"]}"@
}

/// Builds the status poll body for `uuid`.
pub fn status_body_text(uuid: &str) -> (r: String)
    ensures
        r@ == status_body_seq(uuid@),
{
    let mut s = String::from_str("{\"uuids\":[\"");
    s.append(uuid);
    s.append("\"]}");
    s
}

/// The retrieval address for a prepared package.
pub open spec fn transmit_url_seq(uuid: Seq<char>) -> Seq<char> {
    "https://backend-01-prd.steamworkshopdownloader.io/api/download/transmit?uuid="@ + uuid
}

/// Builds the retrieval address for `uuid`.
pub fn transmit_url_text(uuid: &str) -> (r: String)
    ensures
        r@ == transmit_url_seq(uuid@),
{
    let mut s = String::from_str(
        "https://backend-01-prd.steamworkshopdownloader.io/api/download/transmit?uuid=",
    );
    s.append(uuid);
    s
}

/// A character that may stand in a JSON string and a URL query untouched:
/// printable ASCII, no quote, no backslash.
pub open spec fn plain_handle_char(c: char) -> bool {
    let u = c as u32;
    0x20 <= u && u < 0x7f && c != '"' && c != '\\'
}

/// A handle safe to splice into the status body and the retrieval address.
pub open spec fn plain_handle_seq(s: Seq<char>) -> bool {
    forall|i: int| 0 <= i < s.len() ==> plain_handle_char(s[i])
}

/// Runtime test for `plain_handle_seq`.
pub fn plain_handle(s: &str) -> (r: bool)
    ensures
        r == plain_handle_seq(s@),
{
    let n = s.unicode_len();
    let mut i: usize = 0;
    while i < n
        invariant
            i <= n,
            n == s@.len(),
            forall|k: int| 0 <= k < i ==> plain_handle_char(s@[k]),
        decreases n - i,
    {
        let c = s.get_char(i);
        let u = c as u32;
        if !(0x20 <= u && u < 0x7f && c != '"' && c != '\\') {
            return false;
        }
        i = i + 1;
    }
    true
}

/// The status label that ends polling.
pub fn prepared_label() -> (r: &'static str)
    ensures
        r@ == "prepared"@,
{
    "prepared"
}

/// Reads the catalog's details list for one requested identifier.
///
/// An empty list means the identifier is unknown to the catalog (or was
/// removed on the service side); that is surfaced as `NotFound`, never
/// treated as "no update needed". Otherwise the first record's title and
/// update time are the answer.
pub fn interpret_metadata(details: Vec<(String, u64)>) -> (r: Result<(String, u64), SyncError>)
    ensures
        r is Ok <==> details.deep_view().len() > 0,
        r is Err ==> r->Err_0 == SyncError::NotFound,
        r is Ok ==> r->Ok_0.0@ == details.deep_view()[0].0 && r->Ok_0.1 == details.deep_view()[0].1,
{
    let mut details = details;
    if details.len() == 0 {
        Err(SyncError::NotFound)
    } else {
        let first = details.remove(0);
        Ok(first)
    }
}

} // verus!
