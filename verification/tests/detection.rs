use launcher_import::detect::{detect_launchers, ProbeOutcome};
use launcher_import::registry::{launcher_entries, launcher_entry, LAUNCHER_COUNT};

fn outcome(registry: bool, primary: bool, secondary: bool) -> ProbeOutcome {
    ProbeOutcome {
        registry_found: registry,
        primary_path_found: primary,
        secondary_path_found: secondary,
    }
}

fn all_outcomes(o: ProbeOutcome) -> Vec<ProbeOutcome> {
    vec![o; LAUNCHER_COUNT]
}

#[test]
fn registry_declares_five_launchers_in_order() {
    let entries = launcher_entries();
    let ids: Vec<&str> = entries.iter().map(|e| e.id.as_str()).collect();
    assert_eq!(ids, vec!["epic", "ubisoft", "ea", "gog", "battlenet"]);
}

#[test]
fn registry_entry_data_is_exact() {
    let epic = launcher_entry(0);
    assert_eq!(epic.name, "Epic Games");
    assert_eq!(epic.icon, "\u{1F3AE}");
    assert_eq!(
        epic.registry_key,
        "SOFTWARE\\WOW6432Node\\Epic Games\\EpicGamesLauncher"
    );
    assert_eq!(epic.primary_path, "C:\\Program Files (x86)\\Epic Games\\Launcher");
    assert_eq!(epic.secondary_path, "C:\\Program Files\\Epic Games\\Launcher");

    let ea = launcher_entry(2);
    assert_eq!(ea.name, "EA App");
    assert_eq!(ea.registry_key, "SOFTWARE\\WOW6432Node\\Electronic Arts\\EA Desktop");
    assert_eq!(ea.primary_path, "C:\\Program Files\\Electronic Arts\\EA Desktop");
    assert_eq!(ea.secondary_path, "C:\\Program Files (x86)\\Electronic Arts\\EA Desktop");

    let battlenet = launcher_entry(4);
    assert_eq!(battlenet.name, "Battle.net");
    assert_eq!(
        battlenet.registry_key,
        "SOFTWARE\\WOW6432Node\\Blizzard Entertainment\\Battle.net"
    );
}

#[test]
fn detect_output_order_follows_registry_order() {
    // Whatever each probe observed, the report keeps declaration order.
    let mixed = vec![
        outcome(false, false, false),
        outcome(true, false, false),
        outcome(false, true, false),
        outcome(false, false, true),
        outcome(true, true, true),
    ];
    let report = detect_launchers(&mixed);
    let ids: Vec<&str> = report.iter().map(|l| l.id.as_str()).collect();
    assert_eq!(ids, vec!["epic", "ubisoft", "ea", "gog", "battlenet"]);

    let none = detect_launchers(&all_outcomes(outcome(false, false, false)));
    let ids: Vec<&str> = none.iter().map(|l| l.id.as_str()).collect();
    assert_eq!(ids, vec!["epic", "ubisoft", "ea", "gog", "battlenet"]);
}

#[test]
fn undetected_launcher_has_no_games_and_no_path() {
    let report = detect_launchers(&all_outcomes(outcome(false, false, false)));
    for launcher in &report {
        assert!(!launcher.detected);
        assert!(launcher.games.is_empty());
        assert!(launcher.install_path.is_none());
    }
}

#[test]
fn detected_launcher_has_path_and_catalog() {
    let report = detect_launchers(&all_outcomes(outcome(true, false, false)));
    for launcher in &report {
        assert!(launcher.detected);
        assert!(launcher.install_path.is_some());
        assert!(!launcher.games.is_empty());
    }
    assert_eq!(
        report[0].install_path.as_deref(),
        Some("C:\\Program Files (x86)\\Epic Games\\Launcher")
    );
    assert_eq!(report[0].games.len(), 2);
    assert_eq!(report[0].games[0].name, "Fortnite");
    assert_eq!(report[0].games[1].name, "Grand Theft Auto V");
    assert_eq!(
        report[2].install_path.as_deref(),
        Some("C:\\Program Files\\Electronic Arts\\EA Desktop")
    );
}

#[test]
fn any_single_probe_detects() {
    for (registry, primary, secondary) in
        [(true, false, false), (false, true, false), (false, false, true)]
    {
        let report = detect_launchers(&all_outcomes(outcome(registry, primary, secondary)));
        for launcher in &report {
            assert!(launcher.detected);
        }
    }
}

#[test]
fn detection_is_idempotent() {
    let outcomes = vec![
        outcome(true, false, false),
        outcome(false, false, false),
        outcome(false, true, true),
        outcome(true, true, false),
        outcome(false, false, false),
    ];
    let first = detect_launchers(&outcomes);
    let second = detect_launchers(&outcomes);
    assert_eq!(first.len(), second.len());
    for (a, b) in first.iter().zip(second.iter()) {
        assert_eq!(a.id, b.id);
        assert_eq!(a.name, b.name);
        assert_eq!(a.icon, b.icon);
        assert_eq!(a.detected, b.detected);
        assert_eq!(a.install_path, b.install_path);
        assert_eq!(a.games.len(), b.games.len());
        for (ga, gb) in a.games.iter().zip(b.games.iter()) {
            assert_eq!(ga.id, gb.id);
            assert_eq!(ga.name, gb.name);
            assert_eq!(ga.executable, gb.executable);
            assert_eq!(ga.install_path, gb.install_path);
            assert_eq!(ga.launcher_id, gb.launcher_id);
            assert_eq!(ga.icon, gb.icon);
        }
    }
}
