//! The synchronization engine: one install or update as a state machine.
//!
//! An operation walks four phases — metadata, package, install, persistence
//! — and the registry is touched in exactly one transition: after the
//! installer has confirmed success. The caller performs the remote calls
//! and filesystem work each action asks for and feeds the result back as
//! the next event.
//!
//! The staleness gate sits at the metadata answer: an update whose recorded
//! timestamp is at least the remote one finishes there, with no package
//! fetch and no write of any kind. The comparison is `>=`, so equal
//! timestamps count as up to date.

use vstd::prelude::*;

use crate::errors::SyncError;
use crate::install::plan_install;
use crate::install::plan_model;
use crate::install::zip_entries;
use crate::install::InstallPlan;
use crate::install::InstallPlanModel;
use crate::registry::has_mod;
use crate::registry::ids_unique;
use crate::registry::lemma_upsert_entry;
use crate::registry::mod_entry;
use crate::registry::upsert_spec;
use crate::registry::Game;
use crate::registry::ModModel;

verus! {

/// How a finished operation ended well.
#[derive(Clone, Copy, PartialEq, Eq, Structural, Debug)]
pub enum Outcome {
    /// The mod was downloaded, installed and recorded.
    Applied,
    /// The recorded content is already at least as new as the remote one;
    /// nothing was fetched or written.
    UpToDate,
}

/// Where one install or update operation stands.
pub enum OpState {
    /// The metadata request is out. `prior_time` carries the registry's
    /// recorded timestamp for an update, `None` for a fresh install.
    MetaWait { mod_id: u64, prior_time: Option<u64> },
    /// The package fetch is running with the fetched title and timestamp.
    PackageWait { mod_id: u64, title: String, remote_time: u64 },
    /// The install plan is out with the caller.
    InstallWait { mod_id: u64, title: String, remote_time: u64 },
    /// The registry is updated in memory; persistence is out.
    PersistWait,
    /// The operation is over.
    Finished { outcome: Result<Outcome, SyncError> },
}

/// The mathematical value of an operation state.
pub enum OpStateModel {
    MetaWait { mod_id: u64, prior_time: Option<u64> },
    PackageWait { mod_id: u64, title: Seq<char>, remote_time: u64 },
    InstallWait { mod_id: u64, title: Seq<char>, remote_time: u64 },
    PersistWait,
    Finished { outcome: Result<Outcome, SyncError> },
}

impl View for OpState {
    type V = OpStateModel;

    open spec fn view(&self) -> OpStateModel {
        match self {
            OpState::MetaWait { mod_id, prior_time } => OpStateModel::MetaWait {
                mod_id: *mod_id,
                prior_time: *prior_time,
            },
            OpState::PackageWait { mod_id, title, remote_time } => OpStateModel::PackageWait {
                mod_id: *mod_id,
                title: title@,
                remote_time: *remote_time,
            },
            OpState::InstallWait { mod_id, title, remote_time } => OpStateModel::InstallWait {
                mod_id: *mod_id,
                title: title@,
                remote_time: *remote_time,
            },
            OpState::PersistWait => OpStateModel::PersistWait,
            OpState::Finished { outcome } => OpStateModel::Finished { outcome: *outcome },
        }
    }
}

/// One completed piece of outside work, fed back to the engine.
pub enum OpEvent {
    /// The catalog answered with its details list.
    MetadataArrived { details: Vec<(String, u64)> },
    /// The metadata request failed in transport.
    MetadataFailed,
    /// The package fetch delivered the archive bytes.
    PackageArrived { archive: Vec<u8> },
    /// The package fetch gave up with this error.
    PackageFailed { error: SyncError },
    /// The caller executed the install plan to the end.
    InstallCompleted,
    /// The caller could not execute the install plan.
    InstallFailed { error: SyncError },
    /// The registry snapshot was persisted.
    PersistCompleted,
    /// Persisting the registry snapshot failed.
    PersistFailed,
}

/// The mathematical value of an event.
pub enum OpEventModel {
    MetadataArrived { details: Seq<(Seq<char>, u64)> },
    MetadataFailed,
    PackageArrived { archive: Seq<u8> },
    PackageFailed { error: SyncError },
    InstallCompleted,
    InstallFailed { error: SyncError },
    PersistCompleted,
    PersistFailed,
}

impl View for OpEvent {
    type V = OpEventModel;

    open spec fn view(&self) -> OpEventModel {
        match self {
            OpEvent::MetadataArrived { details } => OpEventModel::MetadataArrived {
                details: details.deep_view(),
            },
            OpEvent::MetadataFailed => OpEventModel::MetadataFailed,
            OpEvent::PackageArrived { archive } => OpEventModel::PackageArrived {
                archive: archive@,
            },
            OpEvent::PackageFailed { error } => OpEventModel::PackageFailed { error: *error },
            OpEvent::InstallCompleted => OpEventModel::InstallCompleted,
            OpEvent::InstallFailed { error } => OpEventModel::InstallFailed { error: *error },
            OpEvent::PersistCompleted => OpEventModel::PersistCompleted,
            OpEvent::PersistFailed => OpEventModel::PersistFailed,
        }
    }
}

/// What the engine asks the caller to do next.
pub enum OpAction {
    /// Ask the catalog for the details of `mod_id`.
    FetchMetadata { mod_id: u64 },
    /// Run the package fetch for `mod_id`.
    FetchPackage { mod_id: u64 },
    /// Execute this install plan on disk.
    RunInstall { plan: InstallPlan },
    /// Persist the registry snapshot.
    Persist,
}

/// The mathematical value of an action.
pub enum OpActionModel {
    FetchMetadata { mod_id: u64 },
    FetchPackage { mod_id: u64 },
    RunInstall { plan: InstallPlanModel },
    Persist,
}

impl View for OpAction {
    type V = OpActionModel;

    open spec fn view(&self) -> OpActionModel {
        match self {
            OpAction::FetchMetadata { mod_id } => OpActionModel::FetchMetadata { mod_id: *mod_id },
            OpAction::FetchPackage { mod_id } => OpActionModel::FetchPackage { mod_id: *mod_id },
            OpAction::RunInstall { plan } => OpActionModel::RunInstall { plan: plan@ },
            OpAction::Persist => OpActionModel::Persist,
        }
    }
}

/// The state, registry and requested action after `e` arrives in state `s`,
/// for a game whose mods root is `path_mods` and whose entries are `mods`.
pub open spec fn op_next(
    s: OpStateModel,
    path_mods: Seq<char>,
    mods: Seq<ModModel>,
    e: OpEventModel,
) -> (OpStateModel, Seq<ModModel>, Option<OpActionModel>) {
    match (s, e) {
        (OpStateModel::Finished { outcome }, _) => (
            OpStateModel::Finished { outcome },
            mods,
            None,
        ),
        (
            OpStateModel::MetaWait { mod_id, prior_time },
            OpEventModel::MetadataArrived { details },
        ) => {
            if details.len() == 0 {
                (OpStateModel::Finished { outcome: Err(SyncError::NotFound) }, mods, None)
            } else if prior_time is Some && prior_time->0 >= details[0].1 {
                (OpStateModel::Finished { outcome: Ok(Outcome::UpToDate) }, mods, None)
            } else {
                (
                    OpStateModel::PackageWait {
                        mod_id,
                        title: details[0].0,
                        remote_time: details[0].1,
                    },
                    mods,
                    Some(OpActionModel::FetchPackage { mod_id }),
                )
            }
        },
        (OpStateModel::MetaWait { .. }, OpEventModel::MetadataFailed) => (
            OpStateModel::Finished { outcome: Err(SyncError::RemoteUnavailable) },
            mods,
            None,
        ),
        (
            OpStateModel::PackageWait { mod_id, title, remote_time },
            OpEventModel::PackageArrived { archive },
        ) => {
            match zip_entries(archive) {
                Some(entries) => (
                    OpStateModel::InstallWait { mod_id, title, remote_time },
                    mods,
                    Some(
                        OpActionModel::RunInstall {
                            plan: plan_model(mod_id, title, path_mods, entries),
                        },
                    ),
                ),
                None => (
                    OpStateModel::Finished { outcome: Err(SyncError::ArchiveError) },
                    mods,
                    None,
                ),
            }
        },
        (OpStateModel::PackageWait { .. }, OpEventModel::PackageFailed { error }) => (
            OpStateModel::Finished { outcome: Err(error) },
            mods,
            None,
        ),
        (
            OpStateModel::InstallWait { mod_id, title, remote_time },
            OpEventModel::InstallCompleted,
        ) => (
            OpStateModel::PersistWait,
            upsert_spec(mods, mod_id, title, remote_time),
            Some(OpActionModel::Persist),
        ),
        (OpStateModel::InstallWait { .. }, OpEventModel::InstallFailed { error }) => (
            OpStateModel::Finished { outcome: Err(error) },
            mods,
            None,
        ),
        (OpStateModel::PersistWait, OpEventModel::PersistCompleted) => (
            OpStateModel::Finished { outcome: Ok(Outcome::Applied) },
            mods,
            None,
        ),
        (OpStateModel::PersistWait, OpEventModel::PersistFailed) => (
            OpStateModel::Finished { outcome: Err(SyncError::IoError) },
            mods,
            None,
        ),
        _ => (OpStateModel::Finished { outcome: Err(SyncError::ProtocolError) }, mods, None),
    }
}

/// Begins a fresh install of `mod_id`.
pub fn start_install(mod_id: u64) -> (r: (OpState, OpAction))
    ensures
        r.0@ == (OpStateModel::MetaWait { mod_id, prior_time: None }),
        r.1@ == (OpActionModel::FetchMetadata { mod_id }),
{
    (OpState::MetaWait { mod_id, prior_time: None }, OpAction::FetchMetadata { mod_id })
}

/// Begins an update of `mod_id`, which must already be installed: an absent
/// entry fails as `NotInstalled` before any remote call.
pub fn start_update(game: &Game, mod_id: u64) -> (r: (OpState, Option<OpAction>))
    requires
        game.wf(),
    ensures
        has_mod(game.mods.deep_view(), mod_id) ==> r.0@ == (OpStateModel::MetaWait {
            mod_id,
            prior_time: Some(mod_entry(game.mods.deep_view(), mod_id).time_updated),
        }) && r.1 is Some && r.1->0@ == (OpActionModel::FetchMetadata { mod_id }),
        !has_mod(game.mods.deep_view(), mod_id) ==> r.0@ == (OpStateModel::Finished {
            outcome: Err(SyncError::NotInstalled),
        }) && r.1 is None,
{
    match game.installed_time(mod_id) {
        Some(prior) => (
            OpState::MetaWait { mod_id, prior_time: Some(prior) },
            Some(OpAction::FetchMetadata { mod_id }),
        ),
        None => (OpState::Finished { outcome: Err(SyncError::NotInstalled) }, None),
    }
}

/// Advances the operation by one completed piece of outside work.
///
/// The registry is mutated in exactly one case: the installer's confirmed
/// success. Every other transition leaves the game as it was, so the
/// registry never claims a mod whose install did not complete.
pub fn op_step(s: OpState, game: &mut Game, e: OpEvent) -> (r: (OpState, Option<OpAction>))
    requires
        old(game).wf(),
    ensures
        final(game).wf(),
        final(game).title == old(game).title,
        final(game).path_mods == old(game).path_mods,
        ({
            let (ns, nmods, act) = op_next(
                s@,
                old(game).path_mods@,
                old(game).mods.deep_view(),
                e@,
            );
            r.0@ == ns && final(game).mods.deep_view() == nmods && (r.1 is Some <==> act is Some)
                && (r.1 is Some ==> r.1->0@ == act->0)
        }),
{
    match (s, e) {
        (OpState::Finished { outcome }, _) => (OpState::Finished { outcome }, None),
        (OpState::MetaWait { mod_id, prior_time }, OpEvent::MetadataArrived { details }) => {
            if details.len() == 0 {
                (OpState::Finished { outcome: Err(SyncError::NotFound) }, None)
            } else {
                let remote_time = details[0].1;
                let fresh = match prior_time {
                    Some(t) => t >= remote_time,
                    None => false,
                };
                if fresh {
                    (OpState::Finished { outcome: Ok(Outcome::UpToDate) }, None)
                } else {
                    let mut details = details;
                    let first = details.remove(0);
                    (
                        OpState::PackageWait { mod_id, title: first.0, remote_time },
                        Some(OpAction::FetchPackage { mod_id }),
                    )
                }
            }
        },
        (OpState::MetaWait { .. }, OpEvent::MetadataFailed) => (
            OpState::Finished { outcome: Err(SyncError::RemoteUnavailable) },
            None,
        ),
        (OpState::PackageWait { mod_id, title, remote_time }, OpEvent::PackageArrived {
            archive,
        }) => {
            match plan_install(mod_id, title.as_str(), game.path_mods.as_str(), &archive) {
                Ok(plan) => (
                    OpState::InstallWait { mod_id, title, remote_time },
                    Some(OpAction::RunInstall { plan }),
                ),
                Err(_) => (OpState::Finished { outcome: Err(SyncError::ArchiveError) }, None),
            }
        },
        (OpState::PackageWait { .. }, OpEvent::PackageFailed { error }) => (
            OpState::Finished { outcome: Err(error) },
            None,
        ),
        (OpState::InstallWait { mod_id, title, remote_time }, OpEvent::InstallCompleted) => {
            game.upsert_mod(mod_id, &title, remote_time);
            (OpState::PersistWait, Some(OpAction::Persist))
        },
        (OpState::InstallWait { .. }, OpEvent::InstallFailed { error }) => (
            OpState::Finished { outcome: Err(error) },
            None,
        ),
        (OpState::PersistWait, OpEvent::PersistCompleted) => (
            OpState::Finished { outcome: Ok(Outcome::Applied) },
            None,
        ),
        (OpState::PersistWait, OpEvent::PersistFailed) => (
            OpState::Finished { outcome: Err(SyncError::IoError) },
            None,
        ),
        _ => (OpState::Finished { outcome: Err(SyncError::ProtocolError) }, None),
    }
}

/// The state and registry a run from `s` reaches after the events in `es`.
pub open spec fn op_run(
    s: OpStateModel,
    path_mods: Seq<char>,
    mods: Seq<ModModel>,
    es: Seq<OpEventModel>,
) -> (OpStateModel, Seq<ModModel>)
    decreases es.len(),
{
    if es.len() == 0 {
        (s, mods)
    } else {
        let (ns, nmods, _act) = op_next(s, path_mods, mods, es[0]);
        op_run(ns, path_mods, nmods, es.drop_first())
    }
}

/// Every action a run from `s` requests under the events in `es`, in order.
pub open spec fn op_action_trace(
    s: OpStateModel,
    path_mods: Seq<char>,
    mods: Seq<ModModel>,
    es: Seq<OpEventModel>,
) -> Seq<OpActionModel>
    decreases es.len(),
{
    if es.len() == 0 {
        Seq::empty()
    } else {
        let (ns, nmods, act) = op_next(s, path_mods, mods, es[0]);
        (match act {
            Some(a) => seq![a],
            None => Seq::empty(),
        }) + op_action_trace(ns, path_mods, nmods, es.drop_first())
    }
}

/// Law: a finished operation stays finished with the same outcome, asks for
/// nothing more and never touches the registry, whatever else arrives.
pub proof fn lemma_finished_is_final(
    outcome: Result<Outcome, SyncError>,
    path_mods: Seq<char>,
    mods: Seq<ModModel>,
    es: Seq<OpEventModel>,
)
    ensures
        op_run(OpStateModel::Finished { outcome }, path_mods, mods, es) == (
            OpStateModel::Finished { outcome },
            mods,
        ),
        op_action_trace(OpStateModel::Finished { outcome }, path_mods, mods, es)
            == Seq::<OpActionModel>::empty(),
    decreases es.len(),
{
    if es.len() > 0 {
        lemma_finished_is_final(outcome, path_mods, mods, es.drop_first());
        assert(op_action_trace(OpStateModel::Finished { outcome }, path_mods, mods, es)
            =~= Seq::<OpActionModel>::empty());
    }
}

/// Law: an update whose recorded timestamp is at least the remote one is a
/// no-op — it finishes as `UpToDate` at the metadata answer, and whatever
/// arrives afterwards, the registry stays untouched and not one further
/// action (no package fetch, no install, no persistence) is requested.
pub proof fn lemma_fresh_update_is_noop(
    mod_id: u64,
    entry_time: u64,
    path_mods: Seq<char>,
    mods: Seq<ModModel>,
    details: Seq<(Seq<char>, u64)>,
    rest: Seq<OpEventModel>,
)
    requires
        details.len() > 0,
        entry_time >= details[0].1,
    ensures
        ({
            let es = seq![OpEventModel::MetadataArrived { details }] + rest;
            let start = OpStateModel::MetaWait { mod_id, prior_time: Some(entry_time) };
            op_run(start, path_mods, mods, es) == (
                OpStateModel::Finished { outcome: Ok::<Outcome, SyncError>(Outcome::UpToDate) },
                mods,
            ) && op_action_trace(start, path_mods, mods, es) == Seq::<OpActionModel>::empty()
        }),
{
    let es = seq![OpEventModel::MetadataArrived { details }] + rest;
    let start = OpStateModel::MetaWait { mod_id, prior_time: Some(entry_time) };
    assert(es[0] == (OpEventModel::MetadataArrived { details }));
    assert(es.drop_first() =~= rest);
    let done = OpStateModel::Finished {
        outcome: Ok::<Outcome, SyncError>(Outcome::UpToDate),
    };
    assert(op_next(start, path_mods, mods, es[0]) == (done, mods, None::<OpActionModel>));
    lemma_finished_is_final(Ok(Outcome::UpToDate), path_mods, mods, rest);
    assert(op_action_trace(start, path_mods, mods, es) =~= Seq::<OpActionModel>::empty());
}

/// Law: when the catalog returns an empty details list, the operation fails
/// as `NotFound` at once, and whatever arrives afterwards, the registry
/// stays untouched and no action — no fetch, no install, no persistence —
/// is ever requested.
pub proof fn lemma_not_found_aborts(
    mod_id: u64,
    prior_time: Option<u64>,
    path_mods: Seq<char>,
    mods: Seq<ModModel>,
    details: Seq<(Seq<char>, u64)>,
    rest: Seq<OpEventModel>,
)
    requires
        details.len() == 0,
    ensures
        ({
            let es = seq![OpEventModel::MetadataArrived { details }] + rest;
            let start = OpStateModel::MetaWait { mod_id, prior_time };
            op_run(start, path_mods, mods, es) == (
                OpStateModel::Finished { outcome: Err::<Outcome, SyncError>(SyncError::NotFound) },
                mods,
            ) && op_action_trace(start, path_mods, mods, es) == Seq::<OpActionModel>::empty()
        }),
{
    let es = seq![OpEventModel::MetadataArrived { details }] + rest;
    let start = OpStateModel::MetaWait { mod_id, prior_time };
    assert(es[0] == (OpEventModel::MetadataArrived { details }));
    assert(es.drop_first() =~= rest);
    lemma_finished_is_final(Err(SyncError::NotFound), path_mods, mods, rest);
    assert(op_action_trace(start, path_mods, mods, es) =~= Seq::<OpActionModel>::empty());
}

/// Law: a stale update (or an install) that runs through all four phases
/// ends as `Applied`; exactly its own registry entry now carries the fetched
/// title and the remote timestamp, every other entry is untouched, and the
/// requested actions were exactly one package fetch, one install whose
/// manifest names the fetched title, and one persistence — in that order,
/// with the registry mutation strictly after the confirmed install.
pub proof fn lemma_stale_update_applies(
    mod_id: u64,
    prior_time: Option<u64>,
    path_mods: Seq<char>,
    mods: Seq<ModModel>,
    details: Seq<(Seq<char>, u64)>,
    archive: Seq<u8>,
)
    requires
        ids_unique(mods),
        details.len() > 0,
        prior_time is Some ==> prior_time->0 < details[0].1,
        zip_entries(archive) is Some,
    ensures
        ({
            let es = seq![
                OpEventModel::MetadataArrived { details },
                OpEventModel::PackageArrived { archive },
                OpEventModel::InstallCompleted,
                OpEventModel::PersistCompleted,
            ];
            let start = OpStateModel::MetaWait { mod_id, prior_time };
            let (fs, fmods) = op_run(start, path_mods, mods, es);
            fs == (OpStateModel::Finished {
                outcome: Ok::<Outcome, SyncError>(Outcome::Applied),
            }) && fmods == upsert_spec(mods, mod_id, details[0].0, details[0].1) && has_mod(
                fmods,
                mod_id,
            ) && mod_entry(fmods, mod_id) == (ModModel {
                title: details[0].0,
                id: mod_id,
                time_updated: details[0].1,
            }) && (forall|j: int|
                0 <= j < mods.len() && mods[j].id != mod_id ==> fmods[j] == mods[j])
                && op_action_trace(start, path_mods, mods, es) == seq![
                OpActionModel::FetchPackage { mod_id },
                OpActionModel::RunInstall {
                    plan: plan_model(mod_id, details[0].0, path_mods, zip_entries(archive)->0),
                },
                OpActionModel::Persist,
            ]
        }),
{
    let es = seq![
        OpEventModel::MetadataArrived { details },
        OpEventModel::PackageArrived { archive },
        OpEventModel::InstallCompleted,
        OpEventModel::PersistCompleted,
    ];
    let start = OpStateModel::MetaWait { mod_id, prior_time };
    let title = details[0].0;
    let remote_time = details[0].1;
    let s1 = OpStateModel::PackageWait { mod_id, title, remote_time };
    let s2 = OpStateModel::InstallWait { mod_id, title, remote_time };
    let s3 = OpStateModel::PersistWait;
    let fmods = upsert_spec(mods, mod_id, title, remote_time);
    let e1 = es.drop_first();
    let e2 = e1.drop_first();
    let e3 = e2.drop_first();
    let e4 = e3.drop_first();
    assert(e4 =~= Seq::<OpEventModel>::empty());
    assert(op_next(start, path_mods, mods, es[0]) == (
        s1,
        mods,
        Some(OpActionModel::FetchPackage { mod_id }),
    ));
    assert(e1[0] == (OpEventModel::PackageArrived { archive }));
    assert(op_next(s1, path_mods, mods, e1[0]) == (
        s2,
        mods,
        Some(
            OpActionModel::RunInstall {
                plan: plan_model(mod_id, title, path_mods, zip_entries(archive)->0),
            },
        ),
    ));
    assert(e2[0] == OpEventModel::InstallCompleted);
    assert(op_next(s2, path_mods, mods, e2[0]) == (s3, fmods, Some(OpActionModel::Persist)));
    assert(e3[0] == OpEventModel::PersistCompleted);
    assert(op_next(s3, path_mods, fmods, e3[0]) == (
        OpStateModel::Finished { outcome: Ok::<Outcome, SyncError>(Outcome::Applied) },
        fmods,
        None::<OpActionModel>,
    ));
    lemma_upsert_entry(mods, mod_id, title, remote_time);
    let done = OpStateModel::Finished { outcome: Ok::<Outcome, SyncError>(Outcome::Applied) };
    assert(op_run(start, path_mods, mods, es) == op_run(s1, path_mods, mods, e1));
    assert(op_run(s1, path_mods, mods, e1) == op_run(s2, path_mods, mods, e2));
    assert(op_run(s2, path_mods, mods, e2) == op_run(s3, path_mods, fmods, e3));
    assert(op_run(s3, path_mods, fmods, e3) == op_run(done, path_mods, fmods, e4));
    assert(op_run(done, path_mods, fmods, e4) == (done, fmods));
    assert(op_action_trace(done, path_mods, fmods, e4) =~= Seq::<OpActionModel>::empty());
    assert(op_action_trace(s3, path_mods, fmods, e3) =~= Seq::<OpActionModel>::empty());
    assert(op_action_trace(s2, path_mods, mods, e2) =~= seq![OpActionModel::Persist]);
    assert(op_action_trace(s1, path_mods, mods, e1) =~= seq![
        OpActionModel::RunInstall {
            plan: plan_model(mod_id, title, path_mods, zip_entries(archive)->0),
        },
        OpActionModel::Persist,
    ]);
    assert(op_action_trace(start, path_mods, mods, es) =~= seq![
        OpActionModel::FetchPackage { mod_id },
        OpActionModel::RunInstall {
            plan: plan_model(mod_id, title, path_mods, zip_entries(archive)->0),
        },
        OpActionModel::Persist,
    ]);
}

} // verus!
