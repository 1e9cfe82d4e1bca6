//! Batch updates: one report per mod, failures isolated.

use modsync::batch::Batch;
use modsync::engine::Outcome;
use modsync::errors::SyncError;
use modsync::registry::Game;
use modsync::registry::Mod;

fn three_mod_game() -> Game {
    Game {
        title: String::from("Stellaris"),
        path_mods: String::from("mods"),
        mods: vec![
            Mod { title: String::from("A"), id: 1, time_updated: 10 },
            Mod { title: String::from("B"), id: 2, time_updated: 20 },
            Mod { title: String::from("C"), id: 3, time_updated: 30 },
        ],
    }
}

/// The second mod fails with `IoError`; the first and third are still
/// attempted and every result is reported.
#[test]
fn failure_in_the_middle_does_not_abort_the_batch() {
    let game = three_mod_game();
    let mut batch = Batch::begin(&game);

    assert_eq!(batch.pending(), Some(1));
    batch.record(Ok(Outcome::Applied));

    assert_eq!(batch.pending(), Some(2));
    batch.record(Err(SyncError::IoError));

    // the failure above does not end the pass: the third mod is still due
    assert_eq!(batch.pending(), Some(3));
    batch.record(Ok(Outcome::UpToDate));

    assert_eq!(batch.pending(), None);
    assert_eq!(batch.reports.len(), 3);
    assert_eq!(batch.reports[0].id, 1);
    assert_eq!(batch.reports[0].outcome, Ok(Outcome::Applied));
    assert_eq!(batch.reports[1].id, 2);
    assert_eq!(batch.reports[1].outcome, Err(SyncError::IoError));
    assert_eq!(batch.reports[2].id, 3);
    assert_eq!(batch.reports[2].outcome, Ok(Outcome::UpToDate));
}

#[test]
fn empty_game_finishes_at_once() {
    let game = Game {
        title: String::from("Stellaris"),
        path_mods: String::from("mods"),
        mods: Vec::new(),
    };
    let batch = Batch::begin(&game);
    assert_eq!(batch.pending(), None);
    assert_eq!(batch.reports.len(), 0);
}
