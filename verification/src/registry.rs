//! The registry of discovered players, rebuilt as a whole by each
//! discovery pass.

use crate::music::{reports_view, DiscoveredPlayer, Listing, PlayerReportView};
use vstd::prelude::*;

verus! {

/// The registry that a discovery pass over `reports` leaves: each identity
/// reported maps to whether its player is playing; of two reports with one
/// identity the later one counts.
pub open spec fn registry_of(reports: Seq<PlayerReportView>) -> Map<Seq<char>, bool>
    decreases reports.len(),
{
    if reports.len() == 0 {
        Map::empty()
    } else {
        registry_of(reports.drop_last()).insert(
            reports.last().identity,
            reports.last().is_playing,
        )
    }
}

/// Whether no identity occurs twice among `entries`.
pub open spec fn distinct_identities(entries: Seq<DiscoveredPlayer>) -> bool {
    forall|i: int, j: int|
        0 <= i < entries.len() && 0 <= j < entries.len() && i != j ==> entries[i].identity@
            != entries[j].identity@
}

/// Whether `entries` holds exactly what `registry` maps: one entry for each
/// identity, with its activity.
pub open spec fn lists_registry(entries: Seq<DiscoveredPlayer>, registry: Map<Seq<char>, bool>) -> bool {
    &&& distinct_identities(entries)
    &&& forall|i: int|
        0 <= i < entries.len() ==> registry.contains_key(#[trigger] entries[i].identity@)
            && registry[entries[i].identity@] == entries[i].is_active
    &&& forall|id: Seq<char>| #[trigger]
        registry.contains_key(id) ==> exists|i: int|
            0 <= i < entries.len() && entries[i].identity@ == id
}

/// Entries that list a registry still list it after `identity` was entered
/// with `is_active`, whether the entry at place `at` replaced the one of
/// that identity or was added where there was none.
proof fn lemma_record_keeps_listing(
    before: Seq<DiscoveredPlayer>,
    after: Seq<DiscoveredPlayer>,
    registry: Map<Seq<char>, bool>,
    at: int,
    identity: Seq<char>,
    is_active: bool,
)
    requires
        lists_registry(before, registry),
        0 <= at < after.len(),
        before.len() <= after.len(),
        after[at].identity@ == identity,
        after[at].is_active == is_active,
        at < before.len() ==> before[at].identity@ == identity,
        forall|k: int| 0 <= k < after.len() && k != at ==> k < before.len() && after[k] == before[k],
        forall|k: int| 0 <= k < before.len() && k != at ==> before[k].identity@ != identity,
    ensures
        lists_registry(after, registry.insert(identity, is_active)),
{
    let updated = registry.insert(identity, is_active);
    assert forall|k: int| 0 <= k < after.len() implies updated.contains_key(
        #[trigger] after[k].identity@,
    ) && updated[after[k].identity@] == after[k].is_active by {
        if k != at {
            assert(registry.contains_key(before[k].identity@));
        }
    }
    assert forall|id: Seq<char>| #[trigger] updated.contains_key(id) implies exists|k: int|
        0 <= k < after.len() && after[k].identity@ == id by {
        if id == identity {
            assert(after[at].identity@ == id);
        } else {
            assert(registry.contains_key(id));
            let k = choose|k: int| 0 <= k < before.len() && before[k].identity@ == id;
            assert(after[k].identity@ == id);
        }
    }
}

/// Records `identity` with activity `is_active`, replacing an entry of the
/// same identity.
fn record_player(
    entries: &mut Vec<DiscoveredPlayer>,
    identity: &String,
    is_active: bool,
    Ghost(registry): Ghost<Map<Seq<char>, bool>>,
)
    requires
        lists_registry(old(entries)@, registry),
    ensures
        lists_registry(final(entries)@, registry.insert(identity@, is_active)),
{
    let ghost before = entries@;
    let mut i: usize = 0;
    while i < entries.len()
        invariant
            i <= entries.len(),
            entries@ == before,
            lists_registry(before, registry),
            forall|j: int| 0 <= j < i ==> before[j].identity@ != identity@,
        decreases entries.len() - i,
    {
        if entries[i].identity == *identity {
            entries.set(i, DiscoveredPlayer { identity: identity.clone(), is_active });
            proof {
                lemma_record_keeps_listing(
                    before,
                    entries@,
                    registry,
                    i as int,
                    identity@,
                    is_active,
                );
            }
            return ;
        }
        i = i + 1;
    }
    entries.push(DiscoveredPlayer { identity: identity.clone(), is_active });
    proof {
        lemma_record_keeps_listing(
            before,
            entries@,
            registry,
            before.len() as int,
            identity@,
            is_active,
        );
    }
}

/// The discovered players: rebuilt as a whole by each discovery pass, with
/// one entry for each identity.
pub struct PlayerRegistry {
    entries: Vec<DiscoveredPlayer>,
    contents: Ghost<Map<Seq<char>, bool>>,
}

impl View for PlayerRegistry {
    type V = Map<Seq<char>, bool>;

    /// Each discovered identity with its activity.
    closed spec fn view(&self) -> Map<Seq<char>, bool> {
        self.contents@
    }
}

impl PlayerRegistry {
    #[verifier::type_invariant]
    spec fn consistent(&self) -> bool {
        lists_registry(self.entries@, self.contents@)
    }

    /// The registry with nothing discovered.
    pub fn new() -> (registry: PlayerRegistry)
        ensures
            registry@ == Map::<Seq<char>, bool>::empty(),
    {
        PlayerRegistry { entries: Vec::new(), contents: Ghost(Map::empty()) }
    }

    /// The registry that a discovery pass over `listing` leaves; an
    /// unreachable bus leaves it empty.
    pub fn discover(listing: &Listing) -> (registry: PlayerRegistry)
        ensures
            registry@ == registry_of(listing@),
    {
        let mut entries: Vec<DiscoveredPlayer> = Vec::new();
        let ghost mut contents: Map<Seq<char>, bool> = Map::empty();
        match listing {
            Listing::Unavailable => {},
            Listing::Players(reports) => {
                let mut i: usize = 0;
                while i < reports.len()
                    invariant
                        i <= reports.len(),
                        lists_registry(entries@, contents),
                        contents == registry_of(reports_view(reports@).take(i as int)),
                    decreases reports.len() - i,
                {
                    proof {
                        let next = reports_view(reports@).take(i + 1);
                        assert(next.drop_last() =~= reports_view(reports@).take(i as int));
                        assert(next.last() == reports@[i as int]@);
                    }
                    let active = reports[i].is_playing;
                    record_player(&mut entries, &reports[i].identity, active, Ghost(contents));
                    proof {
                        contents = contents.insert(reports@[i as int].identity@, active);
                    }
                    i = i + 1;
                }
                proof {
                    assert(reports_view(reports@).take(i as int) =~= reports_view(reports@));
                }
            },
        }
        PlayerRegistry { entries, contents: Ghost(contents) }
    }

    /// The discovered players, one entry for each identity of the registry.
    pub fn players(&self) -> (players: Vec<DiscoveredPlayer>)
        ensures
            lists_registry(players@, self@),
    {
        proof {
            use_type_invariant(self);
        }
        let mut players: Vec<DiscoveredPlayer> = Vec::new();
        let mut i: usize = 0;
        while i < self.entries.len()
            invariant
                i <= self.entries.len(),
                players.len() == i,
                forall|j: int| 0 <= j < i ==> players@[j]@ == self.entries@[j]@,
            decreases self.entries.len() - i,
        {
            players.push(self.entries[i].duplicate());
            i = i + 1;
        }
        proof {
            let own = self.entries@;
            assert forall|id: Seq<char>| #[trigger]
                self.contents@.contains_key(id) implies exists|k: int|
                0 <= k < players@.len() && players@[k].identity@ == id by {
                let k = choose|k: int| 0 <= k < own.len() && own[k].identity@ == id;
                assert(players@[k]@ == own[k]@);
            }
            assert forall|k: int| 0 <= k < players@.len() implies self.contents@.contains_key(
                #[trigger] players@[k].identity@,
            ) && self.contents@[players@[k].identity@] == players@[k].is_active by {
                assert(players@[k]@ == own[k]@);
                assert(self.contents@.contains_key(own[k].identity@));
            }
            assert forall|a: int, b: int|
                0 <= a < players@.len() && 0 <= b < players@.len() && a != b implies players@[a].identity@
                != players@[b].identity@ by {
                assert(players@[a]@ == own[a]@);
                assert(players@[b]@ == own[b]@);
            }
        }
        players
    }
}

/// After a discovery pass the registry holds exactly the identities that
/// were reported, each with the activity of its last report; what an earlier
/// pass found plays no part.
pub proof fn lemma_registry_exact(reports: Seq<PlayerReportView>)
    ensures
        forall|id: Seq<char>| #[trigger]
            registry_of(reports).contains_key(id) <==> exists|i: int|
                0 <= i < reports.len() && reports[i].identity == id,
        forall|i: int|
            0 <= i < reports.len() && (forall|j: int|
                i < j < reports.len() ==> (#[trigger] reports[j]).identity != reports[i].identity)
                ==> registry_of(reports)[(#[trigger] reports[i]).identity]
                == reports[i].is_playing,
    decreases reports.len(),
{
    if reports.len() > 0 {
        let front = reports.drop_last();
        let last = reports.last();
        lemma_registry_exact(front);
        assert forall|id: Seq<char>| #[trigger]
            registry_of(reports).contains_key(id) <==> exists|i: int|
                0 <= i < reports.len() && reports[i].identity == id by {
            if registry_of(reports).contains_key(id) {
                if id == last.identity {
                    assert(reports[reports.len() - 1].identity == id);
                } else {
                    assert(registry_of(front).contains_key(id));
                    let i = choose|i: int| 0 <= i < front.len() && front[i].identity == id;
                    assert(reports[i].identity == id);
                }
            }
            if exists|i: int| 0 <= i < reports.len() && reports[i].identity == id {
                let i = choose|i: int| 0 <= i < reports.len() && reports[i].identity == id;
                if i < front.len() {
                    assert(front[i].identity == id);
                    assert(registry_of(front).contains_key(id));
                }
            }
        }
        assert forall|i: int|
            0 <= i < reports.len() && (forall|j: int|
                i < j < reports.len() ==> (#[trigger] reports[j]).identity
                    != reports[i].identity) implies registry_of(reports)[(
        #[trigger] reports[i]).identity] == reports[i].is_playing by {
            if i < front.len() {
                assert(reports[reports.len() - 1].identity != reports[i].identity);
                assert(front[i] == reports[i]);
                assert forall|j: int| i < j < front.len() implies (#[trigger] front[j]).identity
                    != front[i].identity by {
                    assert(front[j] == reports[j]);
                }
            }
        }
    }
}

/// The identities of the entries before place `end`.
pub open spec fn identities_before(entries: Seq<DiscoveredPlayer>, end: int) -> Set<Seq<char>> {
    Set::new(|id: Seq<char>| exists|j: int| 0 <= j < end && entries[j].identity@ == id)
}

/// One entry more adds its identity.
pub proof fn lemma_identities_grow(entries: Seq<DiscoveredPlayer>, i: int)
    requires
        0 <= i < entries.len(),
    ensures
        identities_before(entries, i + 1) == identities_before(entries, i).insert(
            entries[i].identity@,
        ),
{
    let grown = identities_before(entries, i + 1);
    let seen = identities_before(entries, i);
    assert forall|id: Seq<char>| grown.contains(id) <==> (seen.contains(id) || id
        == entries[i].identity@) by {
        if grown.contains(id) {
            let j = choose|j: int| 0 <= j < i + 1 && entries[j].identity@ == id;
            if j < i {
                assert(seen.contains(id));
            }
        }
        if seen.contains(id) {
            let j = choose|j: int| 0 <= j < i && entries[j].identity@ == id;
            assert(0 <= j < i + 1 && entries[j].identity@ == id);
        }
        if id == entries[i].identity@ {
            assert(0 <= i < i + 1 && entries[i].identity@ == id);
        }
    }
    assert(grown =~= seen.insert(entries[i].identity@));
}

/// The entries that list a registry have the identities that it maps, and
/// there are none exactly when it maps none.
pub proof fn lemma_identities_of_registry(
    entries: Seq<DiscoveredPlayer>,
    registry: Map<Seq<char>, bool>,
)
    requires
        lists_registry(entries, registry),
    ensures
        identities_before(entries, entries.len() as int) == registry.dom(),
        entries.len() == 0 <==> registry.dom() == Set::<Seq<char>>::empty(),
{
    let all = identities_before(entries, entries.len() as int);
    assert forall|id: Seq<char>| all.contains(id) implies registry.dom().contains(id) by {
        let j = choose|j: int| 0 <= j < entries.len() && entries[j].identity@ == id;
        assert(registry.contains_key(entries[j].identity@));
    }
    assert(all =~= registry.dom());
    if entries.len() > 0 {
        assert(registry.contains_key(entries[0].identity@));
    } else {
        assert(registry.dom() =~= Set::<Seq<char>>::empty());
    }
}

/// A discovery pass finds nothing exactly when nothing was listed.
pub proof fn lemma_registry_empty_iff(reports: Seq<PlayerReportView>)
    ensures
        reports.len() == 0 <==> registry_of(reports).dom() == Set::<Seq<char>>::empty(),
{
    if reports.len() > 0 {
        assert(registry_of(reports).contains_key(reports.last().identity));
    } else {
        assert(registry_of(reports).dom() =~= Set::<Seq<char>>::empty());
    }
}

} // verus!
