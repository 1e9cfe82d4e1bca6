//! Registry integrity: lookups, upserts, removals, game management.

use modsync::registry::title_within_limit;
use modsync::registry::Config;
use modsync::registry::Game;
use modsync::registry::Mod;

fn game_with(mods: Vec<Mod>) -> Game {
    Game {
        title: String::from("Stellaris"),
        path_mods: String::from("mods"),
        mods,
    }
}

#[test]
fn find_and_installed_time() {
    let game = game_with(vec![
        Mod { title: String::from("A"), id: 7, time_updated: 100 },
        Mod { title: String::from("B"), id: 9, time_updated: 50 },
    ]);
    assert_eq!(game.find_mod(7), Some(0));
    assert_eq!(game.find_mod(9), Some(1));
    assert_eq!(game.find_mod(8), None);
    assert_eq!(game.installed_time(9), Some(50));
    assert_eq!(game.installed_time(8), None);
}

#[test]
fn upsert_inserts_then_refreshes() {
    let mut game = game_with(Vec::new());
    game.upsert_mod(7, &String::from("Foo"), 100);
    assert_eq!(game.mods.len(), 1);
    assert_eq!(game.mods[0].id, 7);
    assert_eq!(game.mods[0].title, "Foo");
    assert_eq!(game.mods[0].time_updated, 100);

    game.upsert_mod(7, &String::from("Foo Renamed"), 200);
    assert_eq!(game.mods.len(), 1);
    assert_eq!(game.mods[0].id, 7);
    assert_eq!(game.mods[0].title, "Foo Renamed");
    assert_eq!(game.mods[0].time_updated, 200);
}

#[test]
fn upsert_leaves_other_entries_alone() {
    let mut game = game_with(vec![
        Mod { title: String::from("A"), id: 7, time_updated: 100 },
        Mod { title: String::from("B"), id: 9, time_updated: 50 },
    ]);
    game.upsert_mod(9, &String::from("B2"), 60);
    assert_eq!(game.mods.len(), 2);
    assert_eq!(game.mods[0].id, 7);
    assert_eq!(game.mods[0].title, "A");
    assert_eq!(game.mods[0].time_updated, 100);
    assert_eq!(game.mods[1].title, "B2");
    assert_eq!(game.mods[1].time_updated, 60);
}

#[test]
fn reinstall_is_idempotent_in_registry() {
    let mut game = game_with(Vec::new());
    game.upsert_mod(7, &String::from("Foo"), 100);
    game.upsert_mod(7, &String::from("Foo"), 100);
    assert_eq!(game.mods.len(), 1);
    assert_eq!(game.mods[0].id, 7);
    assert_eq!(game.mods[0].title, "Foo");
    assert_eq!(game.mods[0].time_updated, 100);
}

#[test]
fn remove_deletes_only_its_entry() {
    let mut game = game_with(vec![
        Mod { title: String::from("A"), id: 7, time_updated: 100 },
        Mod { title: String::from("B"), id: 9, time_updated: 50 },
    ]);
    assert!(game.remove_mod(7));
    assert_eq!(game.mods.len(), 1);
    assert_eq!(game.mods[0].id, 9);
    assert!(!game.remove_mod(7));
    assert_eq!(game.mods.len(), 1);
}

#[test]
fn games_can_be_added_renamed_and_removed() {
    let mut config = Config::empty();
    config.add_game(String::from("Stellaris"), String::from("mods"));
    config.add_game(String::from("EU4"), String::from("eu4/mod"));
    assert_eq!(config.games.len(), 2);
    assert_eq!(config.games[1].title, "EU4");

    config.games[0].set_title(String::from("Stellaris (GOG)"));
    config.games[0].set_path_mods(String::from("stellaris/mod"));
    assert_eq!(config.games[0].title, "Stellaris (GOG)");
    assert_eq!(config.games[0].path_mods, "stellaris/mod");

    config.remove_game(0);
    assert_eq!(config.games.len(), 1);
    assert_eq!(config.games[0].title, "EU4");
}

#[test]
fn title_policy_limit() {
    assert!(title_within_limit("A name of thirty characters!!!"));
    assert!(!title_within_limit("A name of thirty-one characters"));
    assert!(title_within_limit(""));
}
