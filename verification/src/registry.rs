//! The static launcher registry: the fixed set of known launchers, each
//! with its display data and its detection probe targets.
//!
//! The table is read-only and is rebuilt freshly by each accessor call, so
//! it is safe to consult from any number of concurrent detection runs.

use vstd::prelude::*;
use vstd::string::StringExecFns;
use crate::model::GameView;
use crate::catalog;

verus! {

/// How many launchers the registry declares.
pub const LAUNCHER_COUNT: usize = 5;

/// One registry entry: a launcher's display data and the OS locations its
/// detection predicate probes, in the fixed order they are tried.
pub struct LauncherEntry {
    /// Identity, unique and stable.
    pub id: String,
    /// Display name.
    pub name: String,
    /// Icon glyph.
    pub icon: String,
    /// Machine-scope registry key whose presence indicates an install.
    pub registry_key: String,
    /// First filesystem fallback directory.
    pub primary_path: String,
    /// Second filesystem fallback directory.
    pub secondary_path: String,
}

/// The mathematical view of a [`LauncherEntry`].
#[verifier::ext_equal]
pub struct EntryView {
    pub id: Seq<char>,
    pub name: Seq<char>,
    pub icon: Seq<char>,
    pub registry_key: Seq<char>,
    pub primary_path: Seq<char>,
    pub secondary_path: Seq<char>,
}

impl View for LauncherEntry {
    type V = EntryView;

    open spec fn view(&self) -> EntryView {
        EntryView {
            id: self.id@,
            name: self.name@,
            icon: self.icon@,
            registry_key: self.registry_key@,
            primary_path: self.primary_path@,
            secondary_path: self.secondary_path@,
        }
    }
}

/// The registry table, entry by entry, in declaration order:
/// epic, ubisoft, ea, gog, battlenet.
pub open spec fn spec_entry(i: int) -> EntryView {
    if i == 0 {
        EntryView {
            id: "epic"@,
            name: "Epic Games"@,
            icon: "🎮"@,
            registry_key: "SOFTWARE\\WOW6432Node\\Epic Games\\EpicGamesLauncher"@,
            primary_path: "C:\\Program Files (x86)\\Epic Games\\Launcher"@,
            secondary_path: "C:\\Program Files\\Epic Games\\Launcher"@,
        }
    } else if i == 1 {
        EntryView {
            id: "ubisoft"@,
            name: "Ubisoft Connect"@,
            icon: "🎯"@,
            registry_key: "SOFTWARE\\WOW6432Node\\Ubisoft\\Launcher"@,
            primary_path: "C:\\Program Files (x86)\\Ubisoft\\Ubisoft Game Launcher"@,
            secondary_path: "C:\\Program Files\\Ubisoft\\Ubisoft Game Launcher"@,
        }
    } else if i == 2 {
        EntryView {
            id: "ea"@,
            name: "EA App"@,
            icon: "⚡"@,
            registry_key: "SOFTWARE\\WOW6432Node\\Electronic Arts\\EA Desktop"@,
            primary_path: "C:\\Program Files\\Electronic Arts\\EA Desktop"@,
            secondary_path: "C:\\Program Files (x86)\\Electronic Arts\\EA Desktop"@,
        }
    } else if i == 3 {
        EntryView {
            id: "gog"@,
            name: "GOG Galaxy"@,
            icon: "🌟"@,
            registry_key: "SOFTWARE\\WOW6432Node\\GOG.com\\GalaxyClient"@,
            primary_path: "C:\\Program Files (x86)\\GOG Galaxy"@,
            secondary_path: "C:\\Program Files\\GOG Galaxy"@,
        }
    } else {
        EntryView {
            id: "battlenet"@,
            name: "Battle.net"@,
            icon: "⚔️"@,
            registry_key: "SOFTWARE\\WOW6432Node\\Blizzard Entertainment\\Battle.net"@,
            primary_path: "C:\\Program Files (x86)\\Battle.net"@,
            secondary_path: "C:\\Program Files\\Battle.net"@,
        }
    }
}

/// The install path reported for a detected launcher.
///
/// The detection predicate is an OR over several probes, yet the reported
/// path is always the entry's first filesystem fallback, even when only the
/// registry key or the alternate directory matched. This canonical choice is
/// kept deliberately, for behavioural parity with the established reports.
pub open spec fn spec_canonical_install_path(i: int) -> Seq<char> {
    spec_entry(i).primary_path
}

/// The games the registry's catalog provider yields for entry `i`.
pub open spec fn spec_catalog(i: int) -> Seq<GameView> {
    if i == 0 {
        catalog::spec_epic_games()
    } else if i == 1 {
        catalog::spec_ubisoft_games()
    } else if i == 2 {
        catalog::spec_ea_games()
    } else if i == 3 {
        catalog::spec_gog_games()
    } else {
        catalog::spec_battlenet_games()
    }
}

/// Builds the registry entry at index `i` (declaration order).
pub fn launcher_entry(i: usize) -> (r: LauncherEntry)
    requires
        i < LAUNCHER_COUNT,
    ensures
        r@ == spec_entry(i as int),
{
    if i == 0 {
        LauncherEntry {
            id: String::from_str("epic"),
            name: String::from_str("Epic Games"),
            icon: String::from_str("🎮"),
            registry_key: String::from_str("SOFTWARE\\WOW6432Node\\Epic Games\\EpicGamesLauncher"),
            primary_path: String::from_str("C:\\Program Files (x86)\\Epic Games\\Launcher"),
            secondary_path: String::from_str("C:\\Program Files\\Epic Games\\Launcher"),
        }
    } else if i == 1 {
        LauncherEntry {
            id: String::from_str("ubisoft"),
            name: String::from_str("Ubisoft Connect"),
            icon: String::from_str("🎯"),
            registry_key: String::from_str("SOFTWARE\\WOW6432Node\\Ubisoft\\Launcher"),
            primary_path: String::from_str("C:\\Program Files (x86)\\Ubisoft\\Ubisoft Game Launcher"),
            secondary_path: String::from_str("C:\\Program Files\\Ubisoft\\Ubisoft Game Launcher"),
        }
    } else if i == 2 {
        LauncherEntry {
            id: String::from_str("ea"),
            name: String::from_str("EA App"),
            icon: String::from_str("⚡"),
            registry_key: String::from_str("SOFTWARE\\WOW6432Node\\Electronic Arts\\EA Desktop"),
            primary_path: String::from_str("C:\\Program Files\\Electronic Arts\\EA Desktop"),
            secondary_path: String::from_str("C:\\Program Files (x86)\\Electronic Arts\\EA Desktop"),
        }
    } else if i == 3 {
        LauncherEntry {
            id: String::from_str("gog"),
            name: String::from_str("GOG Galaxy"),
            icon: String::from_str("🌟"),
            registry_key: String::from_str("SOFTWARE\\WOW6432Node\\GOG.com\\GalaxyClient"),
            primary_path: String::from_str("C:\\Program Files (x86)\\GOG Galaxy"),
            secondary_path: String::from_str("C:\\Program Files\\GOG Galaxy"),
        }
    } else {
        LauncherEntry {
            id: String::from_str("battlenet"),
            name: String::from_str("Battle.net"),
            icon: String::from_str("⚔️"),
            registry_key: String::from_str("SOFTWARE\\WOW6432Node\\Blizzard Entertainment\\Battle.net"),
            primary_path: String::from_str("C:\\Program Files (x86)\\Battle.net"),
            secondary_path: String::from_str("C:\\Program Files\\Battle.net"),
        }
    }
}

/// Builds the whole registry table, in declaration order.
pub fn launcher_entries() -> (r: Vec<LauncherEntry>)
    ensures
        r@.len() == LAUNCHER_COUNT,
        forall|i: int| 0 <= i < LAUNCHER_COUNT ==> (#[trigger] r@[i])@ == spec_entry(i),
{
    let mut out: Vec<LauncherEntry> = Vec::new();
    let mut i: usize = 0;
    while i < LAUNCHER_COUNT
        invariant
            i <= LAUNCHER_COUNT,
            out@.len() == i,
            forall|j: int| 0 <= j < i ==> (#[trigger] out@[j])@ == spec_entry(j),
        decreases LAUNCHER_COUNT - i,
    {
        out.push(launcher_entry(i));
        i = i + 1;
    }
    out
}

} // verus!
