//! Catalog providers: for each launcher, the games it owns.
//!
//! Each provider returns a fixed, documented catalog. In a full system this
//! is the extension point where launcher-specific manifests would be parsed;
//! the engine and orchestrator contracts do not depend on that choice.

use vstd::prelude::*;
use vstd::string::StringExecFns;
use crate::model::{GameInfo, GameView, game_views};
use crate::registry::{LAUNCHER_COUNT, spec_catalog};
use crate::text::str_eq;

verus! {

/// The Epic Games catalog.
pub open spec fn spec_epic_games() -> Seq<GameView> {
    seq![
        GameView {
            id: "fortnite"@,
            name: "Fortnite"@,
            executable: "FortniteClient-Win64-Shipping.exe"@,
            install_path: "C:\\Program Files\\Epic Games\\Fortnite"@,
            launcher_id: "epic"@,
            icon: None,
        },
        GameView {
            id: "gta5-epic"@,
            name: "Grand Theft Auto V"@,
            executable: "GTA5.exe"@,
            install_path: "C:\\Program Files\\Epic Games\\GTAV"@,
            launcher_id: "epic"@,
            icon: None,
        },
    ]
}

/// The Ubisoft Connect catalog.
pub open spec fn spec_ubisoft_games() -> Seq<GameView> {
    seq![
        GameView {
            id: "ac-valhalla"@,
            name: "Assassin's Creed Valhalla"@,
            executable: "ACValhalla.exe"@,
            install_path: "C:\\Program Files\\Ubisoft\\Assassins Creed Valhalla"@,
            launcher_id: "ubisoft"@,
            icon: None,
        },
    ]
}

/// The EA App catalog.
pub open spec fn spec_ea_games() -> Seq<GameView> {
    seq![
        GameView {
            id: "apex"@,
            name: "Apex Legends"@,
            executable: "r5apex.exe"@,
            install_path: "C:\\Program Files\\EA Games\\Apex"@,
            launcher_id: "ea"@,
            icon: None,
        },
    ]
}

/// The GOG Galaxy catalog.
pub open spec fn spec_gog_games() -> Seq<GameView> {
    seq![
        GameView {
            id: "witcher3-gog"@,
            name: "The Witcher 3: Wild Hunt"@,
            executable: "witcher3.exe"@,
            install_path: "C:\\GOG Games\\The Witcher 3 Wild Hunt"@,
            launcher_id: "gog"@,
            icon: None,
        },
    ]
}

/// The Battle.net catalog.
pub open spec fn spec_battlenet_games() -> Seq<GameView> {
    seq![
        GameView {
            id: "diablo4"@,
            name: "Diablo IV"@,
            executable: "Diablo IV.exe"@,
            install_path: "C:\\Program Files (x86)\\Diablo IV"@,
            launcher_id: "battlenet"@,
            icon: None,
        },
    ]
}

/// Enumerates the games Epic Games owns.
pub fn get_epic_games() -> (r: Vec<GameInfo>)
    ensures
        game_views(r@) == spec_epic_games(),
{
    let mut out: Vec<GameInfo> = Vec::new();
    out.push(GameInfo {
        id: String::from_str("fortnite"),
        name: String::from_str("Fortnite"),
        executable: String::from_str("FortniteClient-Win64-Shipping.exe"),
        install_path: String::from_str("C:\\Program Files\\Epic Games\\Fortnite"),
        launcher_id: String::from_str("epic"),
        icon: None,
    });
    out.push(GameInfo {
        id: String::from_str("gta5-epic"),
        name: String::from_str("Grand Theft Auto V"),
        executable: String::from_str("GTA5.exe"),
        install_path: String::from_str("C:\\Program Files\\Epic Games\\GTAV"),
        launcher_id: String::from_str("epic"),
        icon: None,
    });
    proof {
        assert(game_views(out@) =~= spec_epic_games());
    }
    out
}

/// Enumerates the games Ubisoft Connect owns.
pub fn get_ubisoft_games() -> (r: Vec<GameInfo>)
    ensures
        game_views(r@) == spec_ubisoft_games(),
{
    let mut out: Vec<GameInfo> = Vec::new();
    out.push(GameInfo {
        id: String::from_str("ac-valhalla"),
        name: String::from_str("Assassin's Creed Valhalla"),
        executable: String::from_str("ACValhalla.exe"),
        install_path: String::from_str("C:\\Program Files\\Ubisoft\\Assassins Creed Valhalla"),
        launcher_id: String::from_str("ubisoft"),
        icon: None,
    });
    proof {
        assert(game_views(out@) =~= spec_ubisoft_games());
    }
    out
}

/// Enumerates the games the EA App owns.
pub fn get_ea_games() -> (r: Vec<GameInfo>)
    ensures
        game_views(r@) == spec_ea_games(),
{
    let mut out: Vec<GameInfo> = Vec::new();
    out.push(GameInfo {
        id: String::from_str("apex"),
        name: String::from_str("Apex Legends"),
        executable: String::from_str("r5apex.exe"),
        install_path: String::from_str("C:\\Program Files\\EA Games\\Apex"),
        launcher_id: String::from_str("ea"),
        icon: None,
    });
    proof {
        assert(game_views(out@) =~= spec_ea_games());
    }
    out
}

/// Enumerates the games GOG Galaxy owns.
pub fn get_gog_games() -> (r: Vec<GameInfo>)
    ensures
        game_views(r@) == spec_gog_games(),
{
    let mut out: Vec<GameInfo> = Vec::new();
    out.push(GameInfo {
        id: String::from_str("witcher3-gog"),
        name: String::from_str("The Witcher 3: Wild Hunt"),
        executable: String::from_str("witcher3.exe"),
        install_path: String::from_str("C:\\GOG Games\\The Witcher 3 Wild Hunt"),
        launcher_id: String::from_str("gog"),
        icon: None,
    });
    proof {
        assert(game_views(out@) =~= spec_gog_games());
    }
    out
}

/// Enumerates the games Battle.net owns.
pub fn get_battlenet_games() -> (r: Vec<GameInfo>)
    ensures
        game_views(r@) == spec_battlenet_games(),
{
    let mut out: Vec<GameInfo> = Vec::new();
    out.push(GameInfo {
        id: String::from_str("diablo4"),
        name: String::from_str("Diablo IV"),
        executable: String::from_str("Diablo IV.exe"),
        install_path: String::from_str("C:\\Program Files (x86)\\Diablo IV"),
        launcher_id: String::from_str("battlenet"),
        icon: None,
    });
    proof {
        assert(game_views(out@) =~= spec_battlenet_games());
    }
    out
}

/// Enumerates the catalog of the registry entry at index `i`.
pub fn games_for_index(i: usize) -> (r: Vec<GameInfo>)
    requires
        i < LAUNCHER_COUNT,
    ensures
        game_views(r@) == spec_catalog(i as int),
{
    if i == 0 {
        get_epic_games()
    } else if i == 1 {
        get_ubisoft_games()
    } else if i == 2 {
        get_ea_games()
    } else if i == 3 {
        get_gog_games()
    } else {
        get_battlenet_games()
    }
}

/// The catalog that enumeration by launcher id yields: the launcher's own
/// catalog for a known id, and the empty sequence for any other id.
pub open spec fn spec_games_for(id: Seq<char>) -> Seq<GameView> {
    if id == "epic"@ {
        spec_epic_games()
    } else if id == "ubisoft"@ {
        spec_ubisoft_games()
    } else if id == "ea"@ {
        spec_ea_games()
    } else if id == "gog"@ {
        spec_gog_games()
    } else if id == "battlenet"@ {
        spec_battlenet_games()
    } else {
        Seq::empty()
    }
}

/// Enumerates the games a launcher owns, by launcher id, bypassing
/// detection. An unknown id yields an empty catalog, never an error.
pub fn get_games_by_launcher(launcher_id: &str) -> (r: Vec<GameInfo>)
    ensures
        game_views(r@) == spec_games_for(launcher_id@),
{
    if str_eq(launcher_id, "epic") {
        get_epic_games()
    } else if str_eq(launcher_id, "ubisoft") {
        get_ubisoft_games()
    } else if str_eq(launcher_id, "ea") {
        get_ea_games()
    } else if str_eq(launcher_id, "gog") {
        get_gog_games()
    } else if str_eq(launcher_id, "battlenet") {
        get_battlenet_games()
    } else {
        let out: Vec<GameInfo> = Vec::new();
        proof {
            assert(game_views(out@) =~= Seq::<GameView>::empty());
        }
        out
    }
}

} // verus!
