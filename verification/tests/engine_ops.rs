//! Whole operations driven through the engine: install, update, staleness,
//! failure paths.

use std::io::Cursor;
use std::io::Write;

use modsync::engine::op_step;
use modsync::engine::start_install;
use modsync::engine::start_update;
use modsync::engine::OpAction;
use modsync::engine::OpEvent;
use modsync::engine::OpState;
use modsync::engine::Outcome;
use modsync::errors::SyncError;
use modsync::install::plan_install;
use modsync::registry::Game;
use modsync::registry::Mod;

fn zip_of(members: &[(&str, &[u8])]) -> Vec<u8> {
    let mut writer = zip::ZipWriter::new(Cursor::new(Vec::new()));
    for (name, data) in members {
        writer
            .start_file(*name, zip::write::SimpleFileOptions::default())
            .unwrap();
        writer.write_all(data).unwrap();
    }
    writer.finish().unwrap().into_inner()
}

fn game_with(mods: Vec<Mod>) -> Game {
    Game {
        title: String::from("Stellaris"),
        path_mods: String::from("mods"),
        mods,
    }
}

#[test]
fn plan_lists_the_archive_members() {
    let archive = zip_of(&[("data.txt", b"hello"), ("sub/inner.txt", b"x")]);
    let plan = plan_install(7, "Foo", "mods", &archive).unwrap();
    assert_eq!(plan.install_path, "mods/7");
    assert_eq!(plan.manifest_path, "mods/7.mod");
    assert_eq!(plan.manifest, "name=\"Foo\"\npath=\"mods/7\"");
    assert_eq!(plan.entries, vec!["data.txt", "sub/inner.txt"]);
}

#[test]
fn plan_rejects_unreadable_bytes() {
    let garbage = vec![0u8, 1, 2, 3, 4, 5];
    let r = plan_install(7, "Foo", "mods", &garbage);
    assert!(matches!(r, Err(SyncError::ArchiveError)));
}

/// An empty details list fails the install as `NotFound` and changes
/// nothing.
#[test]
fn install_of_unknown_id_changes_nothing() {
    let mut game = game_with(Vec::new());
    let (state, action) = start_install(999999);
    assert!(matches!(action, OpAction::FetchMetadata { mod_id: 999999 }));
    let (state, action) = op_step(
        state,
        &mut game,
        OpEvent::MetadataArrived { details: Vec::new() },
    );
    assert!(matches!(
        state,
        OpState::Finished { outcome: Err(SyncError::NotFound) }
    ));
    assert!(action.is_none());
    assert_eq!(game.mods.len(), 0);
}

/// A recorded timestamp at least as new as the remote one ends the update
/// at the metadata answer: no package fetch, no change.
#[test]
fn fresh_mod_is_left_alone() {
    let mut game = game_with(vec![Mod {
        title: String::from("Foo"),
        id: 7,
        time_updated: 100,
    }]);
    let (state, action) = start_update(&game, 7);
    assert!(matches!(action, Some(OpAction::FetchMetadata { mod_id: 7 })));
    let (state, action) = op_step(
        state,
        &mut game,
        OpEvent::MetadataArrived { details: vec![(String::from("Foo"), 100u64)] },
    );
    assert!(matches!(
        state,
        OpState::Finished { outcome: Ok(Outcome::UpToDate) }
    ));
    assert!(action.is_none());
    assert_eq!(game.mods[0].time_updated, 100);
}

#[test]
fn update_of_uninstalled_mod_is_rejected() {
    let game = game_with(Vec::new());
    let (state, action) = start_update(&game, 7);
    assert!(matches!(
        state,
        OpState::Finished { outcome: Err(SyncError::NotInstalled) }
    ));
    assert!(action.is_none());
}

/// A stale mod runs through all four phases; the entry then carries the
/// refreshed title and the remote timestamp, and the manifest named them.
#[test]
fn stale_mod_is_updated() {
    let mut game = game_with(vec![Mod {
        title: String::from("Foo"),
        id: 7,
        time_updated: 100,
    }]);
    let archive = zip_of(&[("data.txt", b"new content")]);

    let (state, _) = start_update(&game, 7);
    let (state, action) = op_step(
        state,
        &mut game,
        OpEvent::MetadataArrived { details: vec![(String::from("Foo Renamed"), 200u64)] },
    );
    assert!(matches!(action, Some(OpAction::FetchPackage { mod_id: 7 })));
    assert_eq!(game.mods[0].time_updated, 100);

    let (state, action) = op_step(state, &mut game, OpEvent::PackageArrived { archive });
    let plan = match action {
        Some(OpAction::RunInstall { plan }) => plan,
        _ => panic!("expected an install action"),
    };
    assert_eq!(plan.install_path, "mods/7");
    assert_eq!(plan.manifest_path, "mods/7.mod");
    assert_eq!(plan.manifest, "name=\"Foo Renamed\"\npath=\"mods/7\"");
    assert_eq!(plan.entries, vec!["data.txt"]);
    // nothing recorded before the installer confirms
    assert_eq!(game.mods[0].time_updated, 100);

    let (state, action) = op_step(state, &mut game, OpEvent::InstallCompleted);
    assert!(matches!(action, Some(OpAction::Persist)));
    assert_eq!(game.mods.len(), 1);
    assert_eq!(game.mods[0].id, 7);
    assert_eq!(game.mods[0].title, "Foo Renamed");
    assert_eq!(game.mods[0].time_updated, 200);

    let (state, action) = op_step(state, &mut game, OpEvent::PersistCompleted);
    assert!(matches!(
        state,
        OpState::Finished { outcome: Ok(Outcome::Applied) }
    ));
    assert!(action.is_none());
}

fn run_install(game: &mut Game, mod_id: u64, title: &str, time: u64, archive: Vec<u8>) {
    let (state, _) = start_install(mod_id);
    let (state, _) = op_step(
        state,
        game,
        OpEvent::MetadataArrived { details: vec![(String::from(title), time)] },
    );
    let (state, action) = op_step(state, game, OpEvent::PackageArrived { archive });
    assert!(matches!(action, Some(OpAction::RunInstall { .. })));
    let (state, _) = op_step(state, game, OpEvent::InstallCompleted);
    let (state, _) = op_step(state, game, OpEvent::PersistCompleted);
    assert!(matches!(
        state,
        OpState::Finished { outcome: Ok(Outcome::Applied) }
    ));
}

/// Installing the same mod twice leaves one registry entry with the same
/// value, and the second plan repeats the first — nothing accumulates.
#[test]
fn reinstall_is_idempotent() {
    let mut game = game_with(Vec::new());
    let archive = zip_of(&[("data.txt", b"hello")]);
    run_install(&mut game, 7, "Foo", 100, archive.clone());
    assert_eq!(game.mods.len(), 1);
    run_install(&mut game, 7, "Foo", 100, archive);
    assert_eq!(game.mods.len(), 1);
    assert_eq!(game.mods[0].id, 7);
    assert_eq!(game.mods[0].title, "Foo");
    assert_eq!(game.mods[0].time_updated, 100);
}

#[test]
fn unreadable_package_aborts_before_any_change() {
    let mut game = game_with(vec![Mod {
        title: String::from("Foo"),
        id: 7,
        time_updated: 100,
    }]);
    let (state, _) = start_update(&game, 7);
    let (state, _) = op_step(
        state,
        &mut game,
        OpEvent::MetadataArrived { details: vec![(String::from("Foo"), 200u64)] },
    );
    let (state, action) = op_step(
        state,
        &mut game,
        OpEvent::PackageArrived { archive: vec![0u8, 1, 2] },
    );
    assert!(matches!(
        state,
        OpState::Finished { outcome: Err(SyncError::ArchiveError) }
    ));
    assert!(action.is_none());
    assert_eq!(game.mods[0].time_updated, 100);
}

#[test]
fn failed_install_leaves_registry_untouched() {
    let mut game = game_with(vec![Mod {
        title: String::from("Foo"),
        id: 7,
        time_updated: 100,
    }]);
    let archive = zip_of(&[("data.txt", b"x")]);
    let (state, _) = start_update(&game, 7);
    let (state, _) = op_step(
        state,
        &mut game,
        OpEvent::MetadataArrived { details: vec![(String::from("Foo"), 200u64)] },
    );
    let (state, _) = op_step(state, &mut game, OpEvent::PackageArrived { archive });
    let (state, action) = op_step(
        state,
        &mut game,
        OpEvent::InstallFailed { error: SyncError::IoError },
    );
    assert!(matches!(
        state,
        OpState::Finished { outcome: Err(SyncError::IoError) }
    ));
    assert!(action.is_none());
    assert_eq!(game.mods[0].time_updated, 100);
    assert_eq!(game.mods[0].title, "Foo");
}

#[test]
fn metadata_transport_failure_surfaces() {
    let mut game = game_with(Vec::new());
    let (state, _) = start_install(7);
    let (state, _) = op_step(state, &mut game, OpEvent::MetadataFailed);
    assert!(matches!(
        state,
        OpState::Finished { outcome: Err(SyncError::RemoteUnavailable) }
    ));
}

#[test]
fn package_failure_surfaces() {
    let mut game = game_with(Vec::new());
    let (state, _) = start_install(7);
    let (state, _) = op_step(
        state,
        &mut game,
        OpEvent::MetadataArrived { details: vec![(String::from("Foo"), 200u64)] },
    );
    let (state, _) = op_step(
        state,
        &mut game,
        OpEvent::PackageFailed { error: SyncError::Timeout },
    );
    assert!(matches!(
        state,
        OpState::Finished { outcome: Err(SyncError::Timeout) }
    ));
    assert_eq!(game.mods.len(), 0);
}

#[test]
fn persist_failure_is_io_error() {
    let mut game = game_with(Vec::new());
    let archive = zip_of(&[("a", b"1")]);
    let (state, _) = start_install(7);
    let (state, _) = op_step(
        state,
        &mut game,
        OpEvent::MetadataArrived { details: vec![(String::from("Foo"), 100u64)] },
    );
    let (state, _) = op_step(state, &mut game, OpEvent::PackageArrived { archive });
    let (state, _) = op_step(state, &mut game, OpEvent::InstallCompleted);
    let (state, _) = op_step(state, &mut game, OpEvent::PersistFailed);
    assert!(matches!(
        state,
        OpState::Finished { outcome: Err(SyncError::IoError) }
    ));
}

#[test]
fn error_descriptions() {
    assert_eq!(SyncError::NotFound.describe(), "mod not found in the remote catalog");
    assert_eq!(SyncError::NotInstalled.describe(), "mod is not installed");
    assert_eq!(SyncError::RemoteUnavailable.describe(), "remote service unavailable");
    assert_eq!(SyncError::ProtocolError.describe(), "unexpected remote response");
    assert_eq!(SyncError::IoError.describe(), "filesystem failure");
    assert_eq!(SyncError::ArchiveError.describe(), "unreadable archive");
    assert_eq!(SyncError::Timeout.describe(), "package preparation timed out");
}
