//! Planning the replacement of a mod's on-disk content.
//!
//! An install works on one slot under the mods root: the directory
//! `<root>/<id>` and the manifest file `<root>/<id>.mod`. The plan built
//! here names both, carries the exact manifest text and the archive's member
//! names; the caller executes it by removing whatever the slot held,
//! extracting the archive into the directory and writing the manifest.

use vstd::prelude::*;

use crate::errors::SyncError;
use crate::manifest::install_path_seq;
use crate::manifest::install_path_text;
use crate::manifest::manifest_path_seq;
use crate::manifest::manifest_path_text;
use crate::manifest::manifest_seq;
use crate::manifest::manifest_text;
use crate::text::trim_spec;

verus! {

/// What the archive's table of contents lists for the bytes `data`: `None`
/// when the bytes are not a readable archive, otherwise the member names in
/// archive order.
pub uninterp spec fn zip_entries(data: Seq<u8>) -> Option<Seq<Seq<char>>>;

/// Relies on `zip::ZipArchive::new` and `zip::ZipArchive::file_names`:
/// reading the central directory of an archive held in memory fails exactly
/// when the bytes are not a readable archive, and otherwise lists every
/// member's name.
#[verifier::external_body]
fn archive_entry_names(data: &Vec<u8>) -> (r: Option<Vec<String>>)
    ensures
        r is Some <==> zip_entries(data@) is Some,
        r is Some ==> r->0.deep_view() == zip_entries(data@)->0,
{
    match zip::ZipArchive::new(std::io::Cursor::new(data.as_slice())) {
        Ok(archive) => Some(archive.file_names().map(|name| name.to_string()).collect()),
        Err(_) => None,
    }
}

/// Everything the caller needs to replace one mod's content on disk.
pub struct InstallPlan {
    /// The directory to clear and extract into.
    pub install_path: String,
    /// The manifest file to rewrite beside it.
    pub manifest_path: String,
    /// The exact manifest content.
    pub manifest: String,
    /// The member names the archive will leave under `install_path`.
    pub entries: Vec<String>,
}

/// The mathematical value of an install plan.
pub struct InstallPlanModel {
    pub install_path: Seq<char>,
    pub manifest_path: Seq<char>,
    pub manifest: Seq<char>,
    pub entries: Seq<Seq<char>>,
}

impl View for InstallPlan {
    type V = InstallPlanModel;

    open spec fn view(&self) -> InstallPlanModel {
        InstallPlanModel {
            install_path: self.install_path@,
            manifest_path: self.manifest_path@,
            manifest: self.manifest@,
            entries: self.entries.deep_view(),
        }
    }
}

/// The plan an install of `id` titled `title` under `path_mods` must follow,
/// given the archive's member names.
pub open spec fn plan_model(
    id: u64,
    title: Seq<char>,
    path_mods: Seq<char>,
    entries: Seq<Seq<char>>,
) -> InstallPlanModel {
    InstallPlanModel {
        install_path: install_path_seq(path_mods, id),
        manifest_path: manifest_path_seq(path_mods, id),
        manifest: manifest_seq(title, install_path_seq(path_mods, id)),
        entries,
    }
}

/// Plans the install of `id` from the downloaded archive bytes.
///
/// Unreadable bytes are rejected as `ArchiveError` before anything on disk
/// is touched.
pub fn plan_install(id: u64, title: &str, path_mods: &str, archive: &Vec<u8>) -> (r: Result<
    InstallPlan,
    SyncError,
>)
    ensures
        r is Ok <==> zip_entries(archive@) is Some,
        r is Err ==> r->Err_0 == SyncError::ArchiveError,
        r is Ok ==> r->Ok_0@ == plan_model(id, title@, path_mods@, zip_entries(archive@)->0),
{
    match archive_entry_names(archive) {
        Some(entries) => {
            let install_path = install_path_text(path_mods, id);
            let manifest_path = manifest_path_text(path_mods, id);
            let manifest = manifest_text(title, install_path.as_str());
            Ok(InstallPlan { install_path, manifest_path, manifest, entries })
        },
        None => Err(SyncError::ArchiveError),
    }
}

/// What one mod's slot under the mods root holds: the installed directory's
/// member names and the manifest file's text, each when present.
pub struct SlotState {
    pub dir: Option<Seq<Seq<char>>>,
    pub manifest: Option<Seq<char>>,
}

/// The slot after a plan is executed: whatever the slot held is removed
/// first, then the archive members are extracted and the manifest written.
pub open spec fn apply_plan(prior: SlotState, plan: InstallPlanModel) -> SlotState {
    SlotState { dir: Some(plan.entries), manifest: Some(plan.manifest) }
}

/// Law: after an install, the directory holds the members of the new archive
/// and nothing else — stale files from whatever was there before are gone.
pub proof fn lemma_install_replaces(prior: SlotState, plan: InstallPlanModel)
    ensures
        apply_plan(prior, plan).dir == Some(plan.entries),
        apply_plan(prior, plan).manifest == Some(plan.manifest),
{
}

/// Law: executing the same plan twice leaves the slot exactly as executing
/// it once does.
pub proof fn lemma_install_idempotent(prior: SlotState, plan: InstallPlanModel)
    ensures
        apply_plan(apply_plan(prior, plan), plan) == apply_plan(prior, plan),
{
}

/// Law: installing mod `id` titled `title` under `path_mods` leaves the slot
/// with exactly the archive's members in `<root>/<id>`, and with the two
/// manifest lines naming the trimmed title and that directory.
pub proof fn lemma_install_round_trip(
    prior: SlotState,
    id: u64,
    title: Seq<char>,
    path_mods: Seq<char>,
    entries: Seq<Seq<char>>,
)
    ensures
        apply_plan(prior, plan_model(id, title, path_mods, entries)).dir == Some(entries),
        apply_plan(prior, plan_model(id, title, path_mods, entries)).manifest == Some(
            "name=\""@ + trim_spec(title) + "\"\npath=\""@ + install_path_seq(path_mods, id)
                + "\""@,
        ),
{
}

} // verus!
