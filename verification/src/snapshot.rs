//! The snapshot builder: from what a player reported to what is shown.

use crate::music::{
    clone_opt_string, default_snapshot, names_view, PlayerInfo, PlayerInfoView, PlayerReading,
    PlayerReadingView, PlayerReportView, Volume,
};
use vstd::prelude::*;
use vstd::string::*;

verus! {

/// The parts of `parts` in order, with `sep` between each two neighbours.
pub open spec fn joined(parts: Seq<Seq<char>>, sep: Seq<char>) -> Seq<char>
    decreases parts.len(),
{
    if parts.len() == 0 {
        Seq::empty()
    } else if parts.len() == 1 {
        parts[0]
    } else {
        joined(parts.drop_last(), sep) + sep + parts.last()
    }
}

/// Joins the names with `", "` between them; no names give the empty string.
pub fn join_names(names: &Vec<String>) -> (text: String)
    ensures
        text@ == joined(names_view(names@), ", "@),
{
    let mut text = String::new();
    let mut i: usize = 0;
    while i < names.len()
        invariant
            i <= names.len(),
            text@ == joined(names_view(names@).take(i as int), ", "@),
        decreases names.len() - i,
    {
        let ghost before = names_view(names@).take(i as int);
        let ghost after = names_view(names@).take(i + 1);
        proof {
            assert(after.drop_last() =~= before);
            assert(after.last() == names@[i as int]@);
        }
        if i > 0 {
            text.append(", ");
        }
        text.append(names[i].as_str());
        proof {
            if i == 0 {
                assert(text@ =~= after[0]);
            }
        }
        i = i + 1;
    }
    proof {
        assert(names_view(names@).take(i as int) =~= names_view(names@));
    }
    text
}

/// The volume shown for what a player reported. The level of a snapshot
/// always lies between zero and one: a level in that range is shown as it
/// is, and one half is shown where the player reported no level or one
/// outside the range, be it below zero, above one or not a number.
pub open spec fn shown_volume(reported: Option<Volume>) -> Volume {
    match reported {
        Some(v) => if v.in_range() {
            v
        } else {
            Volume::spec_half()
        },
        None => Volume::spec_half(),
    }
}

/// The snapshot of a successfully read player: a missing title reads
/// "Unknown", a missing artist list "Unknown Artist"; the artists present
/// are joined with ", "; the volume is the reported level, or one half where
/// none or none between zero and one was reported.
pub open spec fn snapshot_of_reading(reading: PlayerReadingView) -> PlayerInfoView {
    PlayerInfoView {
        title: match reading.title {
            Some(t) => t,
            None => "Unknown"@,
        },
        artist: match reading.artists {
            Some(names) => joined(names, ", "@),
            None => "Unknown Artist"@,
        },
        status: reading.status,
        volume: shown_volume(reading.volume),
        art_url: reading.art_url,
    }
}

/// The snapshot for the bound player, if any: the default when none is bound
/// or when reading the bound player failed, else the record of its reading.
pub open spec fn snapshot_of(bound: Option<PlayerReportView>) -> PlayerInfoView {
    match bound {
        Some(report) => match report.reading {
            Some(reading) => snapshot_of_reading(reading),
            None => default_snapshot(),
        },
        None => default_snapshot(),
    }
}

/// Builds the snapshot of a successfully read player.
pub fn build_snapshot(reading: &PlayerReading) -> (info: PlayerInfo)
    ensures
        info@ == snapshot_of_reading(reading@),
{
    let title = match &reading.title {
        Some(t) => t.clone(),
        None => String::from_str("Unknown"),
    };
    let artist = match &reading.artists {
        Some(names) => join_names(names),
        None => String::from_str("Unknown Artist"),
    };
    let volume = match reading.volume {
        Some(v) => if v.in_range() {
            v
        } else {
            Volume::half()
        },
        None => Volume::half(),
    };
    PlayerInfo {
        title,
        artist,
        status: reading.status,
        volume,
        art_url: clone_opt_string(&reading.art_url),
    }
}

/// The volume of a snapshot lies between zero and one, whatever the bound
/// player reported and whether or not a player is bound.
pub proof fn lemma_snapshot_volume_in_range(bound: Option<PlayerReportView>)
    ensures
        snapshot_of(bound).volume.in_range(),
        default_snapshot().volume.in_range(),
{
}

/// A reported level between zero and one is the level that is shown.
pub proof fn lemma_reported_volume_is_shown(reading: PlayerReadingView, level: Volume)
    requires
        reading.volume == Some(level),
        level.in_range(),
    ensures
        snapshot_of_reading(reading).volume == level,
{
}

} // verus!
