//! Detection engine: turns probe outcomes into one report per launcher,
//! in the registry's declaration order.
//!
//! Probing the OS (registry keys, filesystem paths) is the caller's side
//! effect; the engine itself is a pure function of the probe outcomes, so a
//! caller may gather them concurrently and in any order, as long as it hands
//! them over aligned with the registry's declaration order.

use vstd::prelude::*;
use crate::model::{GameInfo, LauncherInfo, LauncherView, launcher_views, launcher_wf};
use crate::registry::{LAUNCHER_COUNT, spec_entry, spec_canonical_install_path, spec_catalog, launcher_entry};
use crate::catalog::games_for_index;

verus! {

/// What probing one launcher's OS locations observed: its registry key and
/// its two fallback directories, each found or not. Any lookup error counts
/// as "not found".
#[derive(Clone, Copy)]
pub struct ProbeOutcome {
    /// The launcher's machine-scope registry key resolved.
    pub registry_found: bool,
    /// The first fallback directory exists.
    pub primary_path_found: bool,
    /// The second fallback directory exists.
    pub secondary_path_found: bool,
}

/// The detection predicate: a launcher counts as installed when any one of
/// its probes matched.
pub open spec fn outcome_detected(o: ProbeOutcome) -> bool {
    o.registry_found || o.primary_path_found || o.secondary_path_found
}

/// The report for registry entry `i` under probe outcome `o`: display data
/// from the registry; games and canonical install path exactly when the
/// detection predicate holds.
pub open spec fn spec_detect_one(i: int, o: ProbeOutcome) -> LauncherView {
    LauncherView {
        id: spec_entry(i).id,
        name: spec_entry(i).name,
        icon: spec_entry(i).icon,
        detected: outcome_detected(o),
        games: if outcome_detected(o) {
            spec_catalog(i)
        } else {
            Seq::empty()
        },
        install_path: if outcome_detected(o) {
            Some(spec_canonical_install_path(i))
        } else {
            None
        },
    }
}

/// The full detection report: one entry per probe outcome, aligned with the
/// registry's declaration order.
pub open spec fn spec_detect_all(os: Seq<ProbeOutcome>) -> Seq<LauncherView> {
    Seq::new(os.len(), |i: int| spec_detect_one(i, os[i]))
}

/// Builds the detection report for the whole registry from the given probe
/// outcomes, one per registry entry in declaration order.
pub fn detect_launchers(outcomes: &Vec<ProbeOutcome>) -> (r: Vec<LauncherInfo>)
    requires
        outcomes@.len() == LAUNCHER_COUNT,
    ensures
        launcher_views(r@) == spec_detect_all(outcomes@),
        r@.len() == LAUNCHER_COUNT,
{
    let mut out: Vec<LauncherInfo> = Vec::new();
    let mut i: usize = 0;
    while i < LAUNCHER_COUNT
        invariant
            outcomes@.len() == LAUNCHER_COUNT,
            i <= LAUNCHER_COUNT,
            out@.len() == i,
            launcher_views(out@) == spec_detect_all(outcomes@).take(i as int),
        decreases LAUNCHER_COUNT - i,
    {
        let o = outcomes[i];
        let detected = o.registry_found || o.primary_path_found || o.secondary_path_found;
        let entry = launcher_entry(i);
        let games: Vec<GameInfo> = if detected {
            games_for_index(i)
        } else {
            Vec::new()
        };
        let install_path: Option<String> = if detected {
            Some(entry.primary_path)
        } else {
            None
        };
        let info = LauncherInfo {
            id: entry.id,
            name: entry.name,
            icon: entry.icon,
            detected: detected,
            games: games,
            install_path: install_path,
        };
        proof {
            assert(info@ =~= spec_detect_one(i as int, outcomes@[i as int]));
            assert(launcher_views(out@.push(info)) =~= launcher_views(out@).push(info@));
            assert(spec_detect_all(outcomes@).take(i + 1) =~= spec_detect_all(
                outcomes@,
            ).take(i as int).push(spec_detect_one(i as int, outcomes@[i as int])));
        }
        out.push(info);
        i = i + 1;
    }
    proof {
        assert(spec_detect_all(outcomes@).take(LAUNCHER_COUNT as int) =~= spec_detect_all(
            outcomes@,
        ));
    }
    out
}

/// Law: the report lists the launchers in the registry's declaration order,
/// whatever each probe observed — entry `i` of the report always carries the
/// identity of registry entry `i`.
pub proof fn lemma_detect_order(os: Seq<ProbeOutcome>)
    ensures
        spec_detect_all(os).len() == os.len(),
        forall|i: int|
            0 <= i < os.len() ==> (#[trigger] spec_detect_all(os)[i]).id == spec_entry(i).id,
{
}

/// Law: every reported launcher is well formed — an undetected one owns no
/// games and reports no install path, and a detected one always reports its
/// canonical install path.
pub proof fn lemma_detect_wf(os: Seq<ProbeOutcome>)
    ensures
        forall|i: int| 0 <= i < os.len() ==> launcher_wf(#[trigger] spec_detect_all(os)[i]),
{
}

/// Law: detection is idempotent — two detection runs over the same probe
/// outcomes (no OS state change in between) yield identical reports.
pub proof fn lemma_detect_idempotent(os: Seq<ProbeOutcome>, r1: Seq<LauncherView>, r2: Seq<LauncherView>)
    requires
        r1 == spec_detect_all(os),
        r2 == spec_detect_all(os),
    ensures
        r1 == r2,
{
}

} // verus!
