//! The persisted settings: which players are enabled, whether new players are
//! enabled as they are discovered, and which player the user selected.

use crate::music::{clone_opt_string, opt_str_view};
use vstd::prelude::*;

verus! {

/// Name under which the applet's settings are stored.
pub const APP_ID: &'static str = "com.cosmic.MusicPlayer";

/// Key of the settings record in the store.
pub const CONFIG_KEY: &'static str = "config";

/// Version of the settings record's schema.
pub const CONFIG_VERSION: u64 = 1;

/// Whether `names` holds exactly the members of `members`, each once.
pub open spec fn lists_set(names: Seq<String>, members: Set<Seq<char>>) -> bool {
    &&& forall|i: int, j: int|
        0 <= i < names.len() && 0 <= j < names.len() && i != j ==> names[i]@ != names[j]@
    &&& forall|i: int| 0 <= i < names.len() ==> members.contains(#[trigger] names[i]@)
    &&& forall|id: Seq<char>| #[trigger]
        members.contains(id) ==> exists|i: int| 0 <= i < names.len() && names[i]@ == id
}

/// A finite set of player identities.
pub struct PlayerSet {
    names: Vec<String>,
    members: Ghost<Set<Seq<char>>>,
}

impl View for PlayerSet {
    type V = Set<Seq<char>>;

    /// The identities in the set.
    closed spec fn view(&self) -> Set<Seq<char>> {
        self.members@
    }
}

impl PlayerSet {
    #[verifier::type_invariant]
    spec fn consistent(&self) -> bool {
        lists_set(self.names@, self.members@)
    }

    /// The empty set.
    pub fn new() -> (set: PlayerSet)
        ensures
            set@ == Set::<Seq<char>>::empty(),
    {
        PlayerSet { names: Vec::new(), members: Ghost(Set::empty()) }
    }

    /// Where `name` stands among the names, if it is a member.
    fn position(&self, name: &String) -> (found: Option<usize>)
        ensures
            match found {
                Some(i) => i < self.names.len() && self.names@[i as int]@ == name@,
                None => !self@.contains(name@),
            },
    {
        proof {
            use_type_invariant(self);
        }
        let mut i: usize = 0;
        while i < self.names.len()
            invariant
                i <= self.names.len(),
                forall|j: int| 0 <= j < i ==> self.names@[j]@ != name@,
            decreases self.names.len() - i,
        {
            if self.names[i] == *name {
                return Some(i);
            }
            i = i + 1;
        }
        None
    }

    /// Whether `name` is a member.
    pub fn contains(&self, name: &String) -> (present: bool)
        ensures
            present == self@.contains(name@),
    {
        proof {
            use_type_invariant(self);
        }
        self.position(name).is_some()
    }

    /// Makes `name` a member; a member already stays one. Returns whether
    /// the set grew.
    pub fn insert(&mut self, name: String) -> (grew: bool)
        ensures
            final(self)@ == old(self)@.insert(name@),
            grew == !old(self)@.contains(name@),
    {
        proof {
            use_type_invariant(&*self);
        }
        match self.position(&name) {
            Some(_) => {
                proof {
                    assert(self@.insert(name@) =~= self@);
                }
                false
            },
            None => {
                let ghost before = self.names@;
                let ghost grown = self.members@.insert(name@);
                let mut taken = PlayerSet::new();
                std::mem::swap(self, &mut taken);
                let mut names = taken.names;
                names.push(name);
                proof {
                    let after = names@;
                    assert forall|k: int| 0 <= k < before.len() implies after[k] == before[k] by {}
                    assert(after[before.len() as int]@ == name@);
                    assert forall|id: Seq<char>| #[trigger] grown.contains(id) implies exists|k: int|
                        0 <= k < after.len() && after[k]@ == id by {
                        if id == name@ {
                            assert(after[before.len() as int]@ == id);
                        } else {
                            let k = choose|k: int| 0 <= k < before.len() && before[k]@ == id;
                            assert(after[k]@ == id);
                        }
                    }
                }
                *self = PlayerSet { names, members: Ghost(grown) };
                true
            },
        }
    }

    /// Takes `name` out of the set. Returns whether it was a member.
    pub fn remove(&mut self, name: &String) -> (was_member: bool)
        ensures
            final(self)@ == old(self)@.remove(name@),
            was_member == old(self)@.contains(name@),
    {
        proof {
            use_type_invariant(&*self);
        }
        match self.position(name) {
            None => {
                proof {
                    assert(self@.remove(name@) =~= self@);
                }
                false
            },
            Some(at) => {
                let ghost before = self.names@;
                let ghost shrunk = self.members@.remove(name@);
                let mut taken = PlayerSet::new();
                std::mem::swap(self, &mut taken);
                let mut names = taken.names;
                names.remove(at);
                proof {
                    let after = names@;
                    assert forall|k: int| 0 <= k < after.len() implies after[k] == (if k < at {
                        before[k]
                    } else {
                        before[k + 1]
                    }) by {}
                    assert forall|id: Seq<char>| #[trigger] shrunk.contains(id) implies exists|
                        k: int,
                    | 0 <= k < after.len() && after[k]@ == id by {
                        let k = choose|k: int| 0 <= k < before.len() && before[k]@ == id;
                        if k < at {
                            assert(after[k]@ == id);
                        } else {
                            assert(after[k - 1]@ == id);
                        }
                    }
                    assert forall|k: int| 0 <= k < after.len() implies shrunk.contains(
                        #[trigger] after[k]@,
                    ) by {
                        if k < at {
                            assert(after[k] == before[k]);
                        } else {
                            assert(after[k] == before[k + 1]);
                        }
                    }
                }
                *self = PlayerSet { names, members: Ghost(shrunk) };
                true
            },
        }
    }

    /// The members, each once.
    pub fn to_vec(&self) -> (names: Vec<String>)
        ensures
            lists_set(names@, self@),
    {
        proof {
            use_type_invariant(self);
        }
        let mut names: Vec<String> = Vec::new();
        let mut i: usize = 0;
        while i < self.names.len()
            invariant
                i <= self.names.len(),
                names.len() == i,
                forall|j: int| 0 <= j < i ==> names@[j]@ == self.names@[j]@,
            decreases self.names.len() - i,
        {
            names.push(self.names[i].clone());
            i = i + 1;
        }
        proof {
            let own = self.names@;
            assert forall|id: Seq<char>| #[trigger] self.members@.contains(id) implies exists|
                k: int,
            | 0 <= k < names@.len() && names@[k]@ == id by {
                let k = choose|k: int| 0 <= k < own.len() && own[k]@ == id;
                assert(names@[k]@ == own[k]@);
            }
            assert forall|k: int| 0 <= k < names@.len() implies self.members@.contains(
                #[trigger] names@[k]@,
            ) by {
                assert(names@[k]@ == own[k]@);
            }
        }
        names
    }
}

impl PlayerSet {
    /// The set of the given names; a name given twice is a member once.
    pub fn from_names(names: Vec<String>) -> (set: PlayerSet)
        ensures
            forall|id: Seq<char>|
                set@.contains(id) <==> exists|i: int| 0 <= i < names.len() && names@[i]@ == id,
    {
        let mut set = PlayerSet::new();
        let mut i: usize = 0;
        while i < names.len()
            invariant
                i <= names.len(),
                forall|id: Seq<char>|
                    set@.contains(id) <==> exists|j: int| 0 <= j < i && names@[j]@ == id,
            decreases names.len() - i,
        {
            let ghost before = set@;
            set.insert(names[i].clone());
            proof {
                assert forall|id: Seq<char>| set@.contains(id) <==> exists|j: int|
                    0 <= j < i + 1 && names@[j]@ == id by {
                    if set@.contains(id) {
                        if id == names@[i as int]@ {
                            assert(names@[i as int]@ == id);
                        } else {
                            assert(before.contains(id));
                            let j = choose|j: int| 0 <= j < i && names@[j]@ == id;
                            assert(0 <= j < i + 1 && names@[j]@ == id);
                        }
                    }
                    if exists|j: int| 0 <= j < i + 1 && names@[j]@ == id {
                        let j = choose|j: int| 0 <= j < i + 1 && names@[j]@ == id;
                        if j < i {
                            assert(before.contains(id));
                        }
                    }
                }
            }
            i = i + 1;
        }
        set
    }

    /// A copy with the same members.
    pub fn duplicate(&self) -> (set: PlayerSet)
        ensures
            set@ == self@,
    {
        proof {
            use_type_invariant(self);
        }
        let names = self.to_vec();
        PlayerSet { names, members: Ghost(self.members@) }
    }
}

/// Mathematical form of an [`AppConfig`].
pub struct AppConfigView {
    pub enabled_players: Set<Seq<char>>,
    pub auto_detect_new_players: bool,
    pub selected_player: Option<Seq<char>>,
}

/// The settings record. A selection of `None` means that the user chose no
/// player, which is not the same as a chosen player that cannot be reached.
pub struct AppConfig {
    pub enabled_players: PlayerSet,
    pub auto_detect_new_players: bool,
    pub selected_player: Option<String>,
}

impl View for AppConfig {
    type V = AppConfigView;

    open spec fn view(&self) -> AppConfigView {
        AppConfigView {
            enabled_players: self.enabled_players@,
            auto_detect_new_players: self.auto_detect_new_players,
            selected_player: opt_str_view(self.selected_player),
        }
    }
}

/// The settings in force when none are stored: no player enabled, new
/// players enabled as they are discovered, no player selected.
pub open spec fn default_config() -> AppConfigView {
    AppConfigView {
        enabled_players: Set::empty(),
        auto_detect_new_players: true,
        selected_player: None,
    }
}

impl Default for AppConfig {
    fn default() -> (config: AppConfig)
        ensures
            config@ == default_config(),
    {
        AppConfig {
            enabled_players: PlayerSet::new(),
            auto_detect_new_players: true,
            selected_player: None,
        }
    }
}

impl AppConfig {
    /// A copy with the same view.
    pub fn duplicate(&self) -> (config: AppConfig)
        ensures
            config@ == self@,
    {
        AppConfig {
            enabled_players: self.enabled_players.duplicate(),
            auto_detect_new_players: self.auto_detect_new_players,
            selected_player: clone_opt_string(&self.selected_player),
        }
    }
}

/// View of an optional settings record.
pub open spec fn opt_config_view(config: Option<AppConfig>) -> Option<AppConfigView> {
    match config {
        Some(c) => Some(c@),
        None => None,
    }
}

/// The settings to start with, given what the store held.
pub open spec fn initial_config(stored: Option<AppConfigView>) -> AppConfigView {
    match stored {
        Some(config) => config,
        None => default_config(),
    }
}

/// Keeps the settings in memory and says, after each change, whether the
/// record is to be written to the store.
pub struct ConfigManager {
    app_config: AppConfig,
}

impl View for ConfigManager {
    type V = AppConfigView;

    /// The settings held.
    closed spec fn view(&self) -> AppConfigView {
        self.app_config@
    }
}

impl ConfigManager {
    /// Starts from what the store held. A record that was missing or could
    /// not be read (`None`) gives the default settings, and `rewrite` is then
    /// true: the defaults are to be written to the store at once.
    pub fn new(stored: Option<AppConfig>) -> (started: (ConfigManager, bool))
        ensures
            started.0@ == initial_config(opt_config_view(stored)),
            started.1 == (stored is None),
    {
        match stored {
            Some(app_config) => (ConfigManager { app_config }, false),
            None => (ConfigManager { app_config: AppConfig::default() }, true),
        }
    }

    /// The settings held, for writing to the store.
    pub fn config(&self) -> (config: &AppConfig)
        ensures
            config@ == self@,
    {
        &self.app_config
    }

    /// The selected player, if the user chose one.
    pub fn get_selected_player(&self) -> (player: Option<String>)
        ensures
            opt_str_view(player) == self@.selected_player,
    {
        clone_opt_string(&self.app_config.selected_player)
    }

    /// Sets or clears the selection. The record is always to be written.
    pub fn set_selected_player(&mut self, player: Option<String>) -> (write: bool)
        ensures
            final(self)@ == (AppConfigView { selected_player: opt_str_view(player), ..old(self)@ }),
            write,
    {
        self.app_config.selected_player = player;
        true
    }

    /// Whether new players are enabled as they are discovered.
    pub fn get_auto_detect_new_players(&self) -> (auto_detect: bool)
        ensures
            auto_detect == self@.auto_detect_new_players,
    {
        self.app_config.auto_detect_new_players
    }

    /// Sets whether new players are enabled as they are discovered. The
    /// record is always to be written.
    pub fn set_auto_detect_new_players(&mut self, auto_detect: bool) -> (write: bool)
        ensures
            final(self)@ == (AppConfigView { auto_detect_new_players: auto_detect, ..old(self)@ }),
            write,
    {
        self.app_config.auto_detect_new_players = auto_detect;
        true
    }

    /// Whether `player_name` is enabled.
    pub fn is_player_enabled(&self, player_name: &String) -> (enabled: bool)
        ensures
            enabled == self@.enabled_players.contains(player_name@),
    {
        self.app_config.enabled_players.contains(player_name)
    }

    /// Enables or disables `player_name`. The record is always to be
    /// written.
    pub fn set_player_enabled(&mut self, player_name: String, enabled: bool) -> (write: bool)
        ensures
            final(self)@ == (AppConfigView {
                enabled_players: if enabled {
                    old(self)@.enabled_players.insert(player_name@)
                } else {
                    old(self)@.enabled_players.remove(player_name@)
                },
                ..old(self)@
            }),
            write,
    {
        if enabled {
            self.app_config.enabled_players.insert(player_name);
        } else {
            self.app_config.enabled_players.remove(&player_name);
        }
        true
    }

    /// Enables a discovered player if new players are to be enabled, and
    /// changes nothing otherwise. The record is to be written exactly when
    /// this enabled the player: a player that was enabled already, or one
    /// found while new players are not to be enabled, leaves the record as
    /// it is and asks for no write.
    pub fn add_discovered_player(&mut self, player_name: String) -> (write: bool)
        ensures
            final(self)@ == with_discovered(old(self)@, player_name@),
            write == (old(self)@.auto_detect_new_players && !old(self)@.enabled_players.contains(
                player_name@,
            )),
            write == (final(self)@ != old(self)@),
    {
        if self.app_config.auto_detect_new_players {
            let grew = self.app_config.enabled_players.insert(player_name);
            proof {
                if !grew {
                    assert(old(self)@.enabled_players.insert(player_name@)
                        =~= old(self)@.enabled_players);
                }
            }
            grew
        } else {
            false
        }
    }
}

/// The settings after `identity` was discovered.
pub open spec fn with_discovered(config: AppConfigView, identity: Seq<char>) -> AppConfigView {
    if config.auto_detect_new_players {
        AppConfigView { enabled_players: config.enabled_players.insert(identity), ..config }
    } else {
        config
    }
}

/// Discovering a player that is enabled already changes nothing, and so
/// does discovering the same player a second time.
pub proof fn lemma_discovery_idempotent(config: AppConfigView, identity: Seq<char>)
    ensures
        config.enabled_players.contains(identity) ==> with_discovered(config, identity) == config,
        with_discovered(with_discovered(config, identity), identity) == with_discovered(
            config,
            identity,
        ),
{
    if config.auto_detect_new_players {
        let once = config.enabled_players.insert(identity);
        assert(once.insert(identity) =~= once);
        if config.enabled_players.contains(identity) {
            assert(once =~= config.enabled_players);
        }
    }
}

} // verus!
