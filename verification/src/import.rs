//! Import orchestrator: imports a selected batch of games into the target
//! platform's catalog, tolerating individual failures.
//!
//! Each submitted game is attempted independently; a failing game is
//! recorded by name and never aborts the batch. The import action's
//! external side effect (the actual library write, with its latency) is the
//! caller's concern; the orchestrator owns the classification and the
//! aggregate bookkeeping.

use vstd::prelude::*;
use crate::model::{GameInfo, GameView, ImportResult, ImportResultView, game_views};
use crate::text::{contains_seq, str_contains};

verus! {

/// The marker in a game's name that classifies its import as failed.
pub open spec fn spec_failure_sentinel() -> Seq<char> {
    "Error"@
}

/// Whether importing this game fails: its name carries the failure marker.
pub open spec fn game_import_fails(g: GameView) -> bool {
    contains_seq(g.name, spec_failure_sentinel())
}

/// The names of the games in `gs` whose import fails, in submission order.
pub open spec fn spec_failed_names(gs: Seq<GameView>) -> Seq<Seq<char>>
    decreases gs.len(),
{
    if gs.len() == 0 {
        Seq::empty()
    } else {
        let rest = spec_failed_names(gs.drop_last());
        if game_import_fails(gs.last()) {
            rest.push(gs.last().name)
        } else {
            rest
        }
    }
}

/// There are never more failing names than submitted games.
pub proof fn lemma_failed_names_bound(gs: Seq<GameView>)
    ensures
        spec_failed_names(gs).len() <= gs.len(),
    decreases gs.len(),
{
    if gs.len() > 0 {
        lemma_failed_names_bound(gs.drop_last());
    }
}

/// The aggregate outcome of importing `gs`: every game that does not fail
/// succeeds, and the failing ones are listed by name in submission order.
pub open spec fn spec_import_result(gs: Seq<GameView>) -> ImportResultView {
    ImportResultView {
        success: gs.len() - spec_failed_names(gs).len(),
        failed: spec_failed_names(gs),
    }
}

/// Imports the submitted games into the target platform, in submission
/// order, classifying each independently as success or failure; no single
/// game's failure aborts the batch.
pub fn add_games_to_steam(games: Vec<GameInfo>) -> (r: ImportResult)
    requires
        games@.len() <= u32::MAX,
    ensures
        r@ == spec_import_result(game_views(games@)),
        r@.success + r@.failed.len() == games@.len(),
{
    let ghost all = game_views(games@);
    let mut success: u32 = 0;
    let mut failed: Vec<String> = Vec::new();
    let mut i: usize = 0;
    while i < games.len()
        invariant
            all == game_views(games@),
            games@.len() <= u32::MAX,
            i <= games@.len(),
            failed@.map_values(|n: String| n@) == spec_failed_names(all.take(i as int)),
            success as int == i - spec_failed_names(all.take(i as int)).len(),
        decreases games@.len() - i,
    {
        let g = &games[i];
        proof {
            assert(all.take(i + 1).drop_last() =~= all.take(i as int));
            assert(all.take(i + 1).last() == games@[i as int]@);
        }
        if str_contains(g.name.as_str(), "Error") {
            let name = g.name.clone();
            proof {
                assert(failed@.push(name).map_values(|n: String| n@) =~= failed@.map_values(
                    |n: String| n@,
                ).push(name@));
            }
            failed.push(name);
        } else {
            success = success + 1;
        }
        i = i + 1;
    }
    proof {
        assert(all.take(games@.len() as int) =~= all);
        lemma_failed_names_bound(all);
    }
    ImportResult { success, failed }
}

/// Law: importing nothing reports no successes and no failures.
pub proof fn lemma_import_empty()
    ensures
        spec_import_result(Seq::empty()).success == 0,
        spec_import_result(Seq::empty()).failed == Seq::<Seq<char>>::empty(),
{
}

/// Law: the failed list is exactly the names of the submitted games whose
/// name carries the failure marker, kept in submission order — so a batch
/// of `N` games of which `K` fail reports `N - K` successes and those `K`
/// names.
pub proof fn lemma_failed_are_the_failing_names(gs: Seq<GameView>)
    ensures
        spec_failed_names(gs) == gs.filter(|g: GameView| game_import_fails(g)).map_values(
            |g: GameView| g.name,
        ),
        spec_import_result(gs).success == gs.len() - gs.filter(
            |g: GameView| game_import_fails(g),
        ).len(),
    decreases gs.len(),
{
    reveal(Seq::filter);
    if gs.len() == 0 {
        assert(gs.filter(|g: GameView| game_import_fails(g)).map_values(|g: GameView| g.name)
            =~= Seq::<Seq<char>>::empty());
    } else {
        lemma_failed_are_the_failing_names(gs.drop_last());
        let rest = gs.drop_last();
        let pred = |g: GameView| game_import_fails(g);
        assert(gs.filter(pred) == if pred(gs.last()) {
            rest.filter(pred).push(gs.last())
        } else {
            rest.filter(pred)
        });
        if pred(gs.last()) {
            assert(rest.filter(pred).push(gs.last()).map_values(|g: GameView| g.name)
                =~= rest.filter(pred).map_values(|g: GameView| g.name).push(gs.last().name));
        }
    }
}

} // verus!
