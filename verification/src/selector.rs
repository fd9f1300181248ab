//! The selector: which of the listed players is authoritative.
//!
//! A player that the user selected is bound if it is listed, whatever it is
//! doing, and nothing is bound if it is not. Only without a selection is a
//! playing player looked for.

use crate::music::{default_snapshot, reports_view, PlayerReport, PlayerReportView};
use crate::snapshot::snapshot_of;
use vstd::prelude::*;

verus! {

/// Whether `i` is the first place in `players` with identity `name`.
pub open spec fn first_named_at(players: Seq<PlayerReportView>, name: Seq<char>, i: int) -> bool {
    &&& 0 <= i < players.len()
    &&& players[i].identity == name
    &&& forall|j: int| 0 <= j < i ==> (#[trigger] players[j]).identity != name
}

/// The first player with identity `name`, whatever its activity.
pub open spec fn find_named(players: Seq<PlayerReportView>, name: Seq<char>) -> Option<
    PlayerReportView,
> {
    if exists|i: int| first_named_at(players, name, i) {
        Some(players[choose|i: int| first_named_at(players, name, i)])
    } else {
        None
    }
}

/// Whether `i` is the first place in `players` whose player is playing.
pub open spec fn first_playing_at(players: Seq<PlayerReportView>, i: int) -> bool {
    &&& 0 <= i < players.len()
    &&& players[i].is_playing
    &&& forall|j: int| 0 <= j < i ==> !(#[trigger] players[j]).is_playing
}

/// The first player that is playing.
pub open spec fn find_playing(players: Seq<PlayerReportView>) -> Option<PlayerReportView> {
    if exists|i: int| first_playing_at(players, i) {
        Some(players[choose|i: int| first_playing_at(players, i)])
    } else {
        None
    }
}

/// The authoritative player. An explicit selection binds the player of that
/// identity or nothing, never another player; without a selection the first
/// playing player is taken.
pub open spec fn resolve(selected: Option<Seq<char>>, players: Seq<PlayerReportView>) -> Option<
    PlayerReportView,
> {
    match selected {
        Some(name) => find_named(players, name),
        None => find_playing(players),
    }
}

/// Searches `reports` for the first player with identity `name`.
pub fn search_named(reports: &Vec<PlayerReport>, name: &String) -> (found: Option<usize>)
    ensures
        match found {
            Some(i) => first_named_at(reports_view(reports@), name@, i as int),
            None => forall|i: int| 0 <= i < reports.len() ==> reports@[i].identity@ != name@,
        },
{
    let mut i: usize = 0;
    while i < reports.len()
        invariant
            i <= reports.len(),
            forall|j: int| 0 <= j < i ==> reports@[j].identity@ != name@,
        decreases reports.len() - i,
    {
        if reports[i].identity == *name {
            return Some(i);
        }
        i = i + 1;
    }
    None
}

/// Searches `reports` for the first player that is playing.
pub fn search_playing(reports: &Vec<PlayerReport>) -> (found: Option<usize>)
    ensures
        match found {
            Some(i) => first_playing_at(reports_view(reports@), i as int),
            None => forall|i: int| 0 <= i < reports.len() ==> !reports@[i].is_playing,
        },
{
    let mut i: usize = 0;
    while i < reports.len()
        invariant
            i <= reports.len(),
            forall|j: int| 0 <= j < i ==> !reports@[j].is_playing,
        decreases reports.len() - i,
    {
        if reports[i].is_playing {
            return Some(i);
        }
        i = i + 1;
    }
    None
}

/// A first place named `name` is the only one, so it is the one that
/// [`find_named`] takes.
pub proof fn lemma_first_named_unique(players: Seq<PlayerReportView>, name: Seq<char>, i: int)
    requires
        first_named_at(players, name, i),
    ensures
        find_named(players, name) == Some(players[i]),
{
    let k = choose|k: int| first_named_at(players, name, k);
    assert(first_named_at(players, name, k));
    if k < i {
        assert(players[k].identity != name);
    } else if i < k {
        assert(players[i].identity != name);
    }
}

/// A first playing place is the only one, so it is the one that
/// [`find_playing`] takes.
pub proof fn lemma_first_playing_unique(players: Seq<PlayerReportView>, i: int)
    requires
        first_playing_at(players, i),
    ensures
        find_playing(players) == Some(players[i]),
{
    let k = choose|k: int| first_playing_at(players, k);
    assert(first_playing_at(players, k));
    if k < i {
        assert(!players[k].is_playing);
    } else if i < k {
        assert(!players[i].is_playing);
    }
}

/// A selected player that is not among those listed leaves nothing bound,
/// and the snapshot is the default one: no other player takes its place,
/// playing or not.
pub proof fn lemma_absent_selection_gives_default(players: Seq<PlayerReportView>, name: Seq<char>)
    requires
        forall|i: int| 0 <= i < players.len() ==> (#[trigger] players[i]).identity != name,
    ensures
        resolve(Some(name), players) is None,
        snapshot_of(resolve(Some(name), players)) == default_snapshot(),
{
}

/// A selected player that is listed is the one bound, whether it is playing
/// or not and whatever the other players do.
pub proof fn lemma_selection_wins(players: Seq<PlayerReportView>, name: Seq<char>, i: int)
    requires
        first_named_at(players, name, i),
    ensures
        resolve(Some(name), players) == Some(players[i]),
{
    lemma_first_named_unique(players, name, i);
}

/// Without a selection, if exactly one listed player is playing, that player
/// is bound and the snapshot is its snapshot.
pub proof fn lemma_single_playing_is_bound(players: Seq<PlayerReportView>, i: int)
    requires
        0 <= i < players.len(),
        players[i].is_playing,
        forall|j: int| 0 <= j < players.len() && j != i ==> !(#[trigger] players[j]).is_playing,
    ensures
        resolve(None, players) == Some(players[i]),
        snapshot_of(resolve(None, players)) == snapshot_of(Some(players[i])),
{
    lemma_first_playing_unique(players, i);
}

/// Without a selection, if no listed player is playing, nothing is bound.
pub proof fn lemma_none_playing_gives_default(players: Seq<PlayerReportView>)
    requires
        forall|j: int| 0 <= j < players.len() ==> !(#[trigger] players[j]).is_playing,
    ensures
        resolve(None, players) is None,
        snapshot_of(resolve(None, players)) == default_snapshot(),
{
}

} // verus!
