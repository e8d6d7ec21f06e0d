use launcher_import::catalog::{
    get_battlenet_games, get_ea_games, get_epic_games, get_games_by_launcher, get_gog_games,
    get_ubisoft_games,
};
use launcher_import::import::add_games_to_steam;
use launcher_import::model::GameInfo;
use launcher_import::steam::{get_steam_path, steam_registry_key, steam_registry_value_name};
use launcher_import::text::{str_contains, str_eq};

fn game(name: &str) -> GameInfo {
    GameInfo {
        id: String::from("test-game"),
        name: String::from(name),
        executable: String::from("game.exe"),
        install_path: String::from("C:\\Games\\Test"),
        launcher_id: String::from("epic"),
        icon: None,
    }
}

#[test]
fn epic_catalog_is_exact() {
    let games = get_epic_games();
    assert_eq!(games.len(), 2);
    assert_eq!(games[0].id, "fortnite");
    assert_eq!(games[0].name, "Fortnite");
    assert_eq!(games[0].executable, "FortniteClient-Win64-Shipping.exe");
    assert_eq!(games[0].install_path, "C:\\Program Files\\Epic Games\\Fortnite");
    assert_eq!(games[0].launcher_id, "epic");
    assert!(games[0].icon.is_none());
    assert_eq!(games[1].id, "gta5-epic");
    assert_eq!(games[1].name, "Grand Theft Auto V");
}

#[test]
fn single_game_catalogs_are_exact() {
    let ubisoft = get_ubisoft_games();
    assert_eq!(ubisoft.len(), 1);
    assert_eq!(ubisoft[0].name, "Assassin's Creed Valhalla");
    assert_eq!(ubisoft[0].launcher_id, "ubisoft");

    let ea = get_ea_games();
    assert_eq!(ea.len(), 1);
    assert_eq!(ea[0].name, "Apex Legends");
    assert_eq!(ea[0].executable, "r5apex.exe");

    let gog = get_gog_games();
    assert_eq!(gog.len(), 1);
    assert_eq!(gog[0].name, "The Witcher 3: Wild Hunt");
    assert_eq!(gog[0].install_path, "C:\\GOG Games\\The Witcher 3 Wild Hunt");

    let battlenet = get_battlenet_games();
    assert_eq!(battlenet.len(), 1);
    assert_eq!(battlenet[0].id, "diablo4");
    assert_eq!(battlenet[0].name, "Diablo IV");
}

#[test]
fn enumeration_by_id_matches_catalogs() {
    assert_eq!(get_games_by_launcher("epic").len(), 2);
    assert_eq!(get_games_by_launcher("ubisoft").len(), 1);
    assert_eq!(get_games_by_launcher("ea").len(), 1);
    assert_eq!(get_games_by_launcher("gog").len(), 1);
    assert_eq!(get_games_by_launcher("battlenet").len(), 1);
    assert_eq!(get_games_by_launcher("battlenet")[0].name, "Diablo IV");
}

#[test]
fn unknown_launcher_id_yields_empty_not_error() {
    assert!(get_games_by_launcher("unknown-id").is_empty());
    assert!(get_games_by_launcher("").is_empty());
    assert!(get_games_by_launcher("EPIC").is_empty());
}

#[test]
fn import_of_nothing_reports_nothing() {
    let result = add_games_to_steam(Vec::new());
    assert_eq!(result.success, 0);
    assert!(result.failed.is_empty());
}

#[test]
fn import_classifies_by_failure_marker() {
    let result = add_games_to_steam(vec![
        game("Fortnite"),
        game("GameWithError"),
        game("Diablo IV"),
    ]);
    assert_eq!(result.success, 2);
    assert_eq!(result.failed, vec!["GameWithError".to_string()]);
}

#[test]
fn import_keeps_failures_in_submission_order() {
    let result = add_games_to_steam(vec![
        game("ZError Last"),
        game("Fine"),
        game("AError First"),
        game("Error"),
    ]);
    assert_eq!(result.success, 1);
    assert_eq!(
        result.failed,
        vec![
            "ZError Last".to_string(),
            "AError First".to_string(),
            "Error".to_string(),
        ]
    );
}

#[test]
fn import_counts_add_up() {
    for n_bad in 0..4usize {
        let mut games = Vec::new();
        for i in 0..5usize {
            games.push(game(&format!("Game {}", i)));
        }
        for i in 0..n_bad {
            games.push(game(&format!("Error {}", i)));
        }
        let total = games.len();
        let result = add_games_to_steam(games);
        assert_eq!(result.success as usize + result.failed.len(), total);
        assert_eq!(result.failed.len(), n_bad);
    }
}

#[test]
fn import_failure_marker_is_case_sensitive_substring() {
    let result = add_games_to_steam(vec![game("error in lowercase"), game("AnErrorGame")]);
    assert_eq!(result.success, 1);
    assert_eq!(result.failed, vec!["AnErrorGame".to_string()]);
}

#[test]
fn steam_path_prefers_registry_report() {
    let resolved = get_steam_path(Some(String::from("D:\\CustomSteam")), true, true);
    assert_eq!(resolved.as_deref(), Some("D:\\CustomSteam"));
}

#[test]
fn steam_path_falls_back_in_order() {
    assert_eq!(
        get_steam_path(None, true, true).as_deref(),
        Some("C:\\Program Files (x86)\\Steam")
    );
    assert_eq!(
        get_steam_path(None, false, true).as_deref(),
        Some("C:\\Program Files\\Steam")
    );
    assert_eq!(get_steam_path(None, false, false), None);
}

#[test]
fn steam_probe_targets_are_exact() {
    assert_eq!(steam_registry_key(), "SOFTWARE\\WOW6432Node\\Valve\\Steam");
    assert_eq!(steam_registry_value_name(), "InstallPath");
}

#[test]
fn string_helpers_behave() {
    assert!(str_eq("epic", "epic"));
    assert!(!str_eq("epic", "epi"));
    assert!(!str_eq("epic", "Epic"));
    assert!(str_eq("", ""));
    assert!(str_contains("GameWithError", "Error"));
    assert!(str_contains("Error", "Error"));
    assert!(str_contains("anything", ""));
    assert!(!str_contains("", "Error"));
    assert!(!str_contains("Err", "Error"));
    assert!(str_contains("naïve café ⚔️", "café"));
}
