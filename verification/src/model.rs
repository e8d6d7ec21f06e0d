//! Data model: launchers, games, and the aggregate import result,
//! together with their mathematical views.

use vstd::prelude::*;

verus! {

/// A game owned by some launcher.
pub struct GameInfo {
    /// Identity, unique within the owning launcher.
    pub id: String,
    /// Display name.
    pub name: String,
    /// Platform-relative binary name.
    pub executable: String,
    /// Absolute installation directory.
    pub install_path: String,
    /// Back-reference to the owning launcher (lookup only).
    pub launcher_id: String,
    /// Optional icon identifier.
    pub icon: Option<String>,
}

/// The mathematical view of a [`GameInfo`].
#[verifier::ext_equal]
pub struct GameView {
    pub id: Seq<char>,
    pub name: Seq<char>,
    pub executable: Seq<char>,
    pub install_path: Seq<char>,
    pub launcher_id: Seq<char>,
    pub icon: Option<Seq<char>>,
}

impl View for GameInfo {
    type V = GameView;

    open spec fn view(&self) -> GameView {
        GameView {
            id: self.id@,
            name: self.name@,
            executable: self.executable@,
            install_path: self.install_path@,
            launcher_id: self.launcher_id@,
            icon: match self.icon {
                Some(s) => Some(s@),
                None => None,
            },
        }
    }
}

/// The views of a sequence of games.
pub open spec fn game_views(s: Seq<GameInfo>) -> Seq<GameView> {
    s.map_values(|g: GameInfo| g@)
}

/// The view of an optional string.
pub open spec fn opt_str_view(o: Option<String>) -> Option<Seq<char>> {
    match o {
        Some(s) => Some(s@),
        None => None,
    }
}

/// One known launcher, as reported by a detection run.
pub struct LauncherInfo {
    /// Identity, unique and stable.
    pub id: String,
    /// Display name.
    pub name: String,
    /// Icon glyph.
    pub icon: String,
    /// Whether the launcher was found on this machine.
    pub detected: bool,
    /// The games the launcher owns; empty unless detected.
    pub games: Vec<GameInfo>,
    /// Canonical installation directory; present iff detected.
    pub install_path: Option<String>,
}

/// The mathematical view of a [`LauncherInfo`].
#[verifier::ext_equal]
pub struct LauncherView {
    pub id: Seq<char>,
    pub name: Seq<char>,
    pub icon: Seq<char>,
    pub detected: bool,
    pub games: Seq<GameView>,
    pub install_path: Option<Seq<char>>,
}

impl View for LauncherInfo {
    type V = LauncherView;

    open spec fn view(&self) -> LauncherView {
        LauncherView {
            id: self.id@,
            name: self.name@,
            icon: self.icon@,
            detected: self.detected,
            games: game_views(self.games@),
            install_path: match self.install_path {
                Some(s) => Some(s@),
                None => None,
            },
        }
    }
}

/// The views of a sequence of launchers.
pub open spec fn launcher_views(s: Seq<LauncherInfo>) -> Seq<LauncherView> {
    s.map_values(|l: LauncherInfo| l@)
}

/// Well-formedness of a reported launcher: an undetected launcher owns no
/// games and has no install path, and a detected one always reports a path.
pub open spec fn launcher_wf(l: LauncherView) -> bool {
    &&& !l.detected ==> l.games.len() == 0 && l.install_path is None
    &&& l.detected ==> l.install_path is Some
}

/// Aggregate outcome of a batch import.
pub struct ImportResult {
    /// How many submitted games were imported.
    pub success: u32,
    /// Display names of the games that failed, in submission order.
    pub failed: Vec<String>,
}

/// The mathematical view of an [`ImportResult`].
#[verifier::ext_equal]
pub struct ImportResultView {
    pub success: int,
    pub failed: Seq<Seq<char>>,
}

impl View for ImportResult {
    type V = ImportResultView;

    open spec fn view(&self) -> ImportResultView {
        ImportResultView {
            success: self.success as int,
            failed: self.failed@.map_values(|n: String| n@),
        }
    }
}

} // verus!
