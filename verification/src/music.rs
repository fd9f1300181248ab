//! Players as the session bus reports them, the playback snapshot, and the
//! controller that binds to one player.

use crate::registry::{lists_registry, registry_of, PlayerRegistry};
use crate::selector::{
    find_named, find_playing, lemma_first_named_unique, lemma_first_playing_unique, search_named,
    search_playing,
};
use crate::snapshot::{build_snapshot, snapshot_of};
use vstd::prelude::*;
use vstd::string::*;

verus! {

/// Playback state of a player.
#[derive(Clone, Copy, Debug, PartialEq, Eq, Structural)]
pub enum PlaybackStatus {
    Playing,
    Paused,
    Stopped,
}

/// A volume level, carried as the bit pattern of its double-precision
/// encoding, so that a level is told apart from every other and none is
/// rounded on its way. Any bit pattern is a `Volume`; [`Volume::in_range`]
/// says whether it stands for a level between zero and one, and a snapshot
/// shows only such levels.
#[derive(Clone, Copy, Debug, PartialEq, Eq, Structural)]
pub struct Volume {
    pub bits: u64,
}

/// Bit pattern of one half, the level shown when a player reports none, or
/// none between zero and one.
pub const HALF_VOLUME_BITS: u64 = 0x3FE0_0000_0000_0000;

/// Bit pattern of one, the full volume.
pub const FULL_VOLUME_BITS: u64 = 0x3FF0_0000_0000_0000;

/// Bit pattern of negative zero, which is equal to zero as a number.
pub const NEGATIVE_ZERO_BITS: u64 = 0x8000_0000_0000_0000;

impl Volume {
    /// The level with the given bit pattern.
    pub fn from_bits(bits: u64) -> (v: Volume)
        ensures
            v.bits == bits,
    {
        Volume { bits }
    }

    /// The bit pattern of this level.
    pub fn to_bits(&self) -> (bits: u64)
        ensures
            bits == self.bits,
    {
        self.bits
    }

    /// Whether the level lies between zero and one, both included. The
    /// encodings of these levels are the bit patterns from that of zero,
    /// which is 0, up to that of one, and the pattern of negative zero,
    /// which equals zero as a number. Every other level below zero, every
    /// level above one and whatever is not a number has another pattern.
    pub open spec fn spec_in_range(&self) -> bool {
        self.bits <= FULL_VOLUME_BITS || self.bits == NEGATIVE_ZERO_BITS
    }

    /// Whether the level lies between zero and one, both included.
    #[verifier::when_used_as_spec(spec_in_range)]
    pub fn in_range(&self) -> (within: bool)
        ensures
            within == self.spec_in_range(),
    {
        self.bits <= FULL_VOLUME_BITS || self.bits == NEGATIVE_ZERO_BITS
    }

    /// The level one half.
    pub open spec fn spec_half() -> Volume {
        Volume { bits: HALF_VOLUME_BITS }
    }

    /// The level one half.
    #[verifier::when_used_as_spec(spec_half)]
    pub fn half() -> (v: Volume)
        ensures
            v == Volume::spec_half(),
    {
        Volume { bits: HALF_VOLUME_BITS }
    }
}

/// Mathematical form of a [`PlayerInfo`].
pub struct PlayerInfoView {
    pub title: Seq<char>,
    pub artist: Seq<char>,
    pub status: PlaybackStatus,
    pub volume: Volume,
    pub art_url: Option<Seq<char>>,
}

/// The playback snapshot that the presentation layer reads: always present,
/// either a full best-effort record of one player or the default.
#[derive(Debug, Clone, PartialEq, Eq)]
pub struct PlayerInfo {
    pub title: String,
    pub artist: String,
    pub status: PlaybackStatus,
    pub volume: Volume,
    pub art_url: Option<String>,
}

/// View of an optional string.
pub open spec fn opt_str_view(s: Option<String>) -> Option<Seq<char>> {
    match s {
        Some(t) => Some(t@),
        None => None,
    }
}

impl View for PlayerInfo {
    type V = PlayerInfoView;

    open spec fn view(&self) -> PlayerInfoView {
        PlayerInfoView {
            title: self.title@,
            artist: self.artist@,
            status: self.status,
            volume: self.volume,
            art_url: opt_str_view(self.art_url),
        }
    }
}

/// The snapshot shown while no player is bound.
pub open spec fn default_snapshot() -> PlayerInfoView {
    PlayerInfoView {
        title: "No music playing"@,
        artist: Seq::empty(),
        status: PlaybackStatus::Stopped,
        volume: Volume::spec_half(),
        art_url: None,
    }
}

impl Default for PlayerInfo {
    fn default() -> (info: PlayerInfo)
        ensures
            info@ == default_snapshot(),
    {
        PlayerInfo {
            title: String::from_str("No music playing"),
            artist: String::new(),
            status: PlaybackStatus::Stopped,
            volume: Volume::half(),
            art_url: None,
        }
    }
}

/// Copies an optional string.
pub fn clone_opt_string(s: &Option<String>) -> (c: Option<String>)
    ensures
        opt_str_view(c) == opt_str_view(*s),
{
    match s {
        Some(t) => Some(t.clone()),
        None => None,
    }
}

impl PlayerInfo {
    /// A copy with the same view.
    pub fn duplicate(&self) -> (info: PlayerInfo)
        ensures
            info@ == self@,
    {
        PlayerInfo {
            title: self.title.clone(),
            artist: self.artist.clone(),
            status: self.status,
            volume: self.volume,
            art_url: clone_opt_string(&self.art_url),
        }
    }
}

/// Views of a list of strings, in order.
pub open spec fn names_view(names: Seq<String>) -> Seq<Seq<char>> {
    Seq::new(names.len(), |i: int| names[i]@)
}

/// Mathematical form of a [`PlayerReading`].
pub struct PlayerReadingView {
    pub status: PlaybackStatus,
    pub title: Option<Seq<char>>,
    pub artists: Option<Seq<Seq<char>>>,
    pub volume: Option<Volume>,
    pub art_url: Option<Seq<char>>,
}

/// One complete read of a player's state. A field the player does not
/// provide is `None`.
#[derive(Debug, Clone, PartialEq, Eq)]
pub struct PlayerReading {
    pub status: PlaybackStatus,
    pub title: Option<String>,
    pub artists: Option<Vec<String>>,
    pub volume: Option<Volume>,
    pub art_url: Option<String>,
}

/// View of an optional list of names.
pub open spec fn opt_names_view(names: Option<Vec<String>>) -> Option<Seq<Seq<char>>> {
    match names {
        Some(v) => Some(names_view(v@)),
        None => None,
    }
}

impl View for PlayerReading {
    type V = PlayerReadingView;

    open spec fn view(&self) -> PlayerReadingView {
        PlayerReadingView {
            status: self.status,
            title: opt_str_view(self.title),
            artists: opt_names_view(self.artists),
            volume: self.volume,
            art_url: opt_str_view(self.art_url),
        }
    }
}

/// Mathematical form of a [`PlayerReport`].
pub struct PlayerReportView {
    pub identity: Seq<char>,
    pub bus_name: Seq<char>,
    pub is_playing: bool,
    pub reading: Option<PlayerReadingView>,
}

/// What the session bus says of one player at one instant: its identity,
/// the name under which it is reached on the bus, whether it is playing
/// and, unless reading its state failed, that state. Two players may share
/// an identity; the bus name is what a command is addressed to. Whether a
/// player is playing is listed apart from the state: a player can be known
/// to play while its state cannot be read.
#[derive(Debug, Clone, PartialEq, Eq)]
pub struct PlayerReport {
    pub identity: String,
    pub bus_name: String,
    pub is_playing: bool,
    pub reading: Option<PlayerReading>,
}

/// View of an optional reading.
pub open spec fn opt_reading_view(reading: Option<PlayerReading>) -> Option<PlayerReadingView> {
    match reading {
        Some(r) => Some(r@),
        None => None,
    }
}

impl View for PlayerReport {
    type V = PlayerReportView;

    open spec fn view(&self) -> PlayerReportView {
        PlayerReportView {
            identity: self.identity@,
            bus_name: self.bus_name@,
            is_playing: self.is_playing,
            reading: opt_reading_view(self.reading),
        }
    }
}

/// Views of a list of reports, in order.
pub open spec fn reports_view(reports: Seq<PlayerReport>) -> Seq<PlayerReportView> {
    Seq::new(reports.len(), |i: int| reports[i]@)
}

impl PlayerReading {
    /// A copy with the same view.
    pub fn duplicate(&self) -> (reading: PlayerReading)
        ensures
            reading@ == self@,
    {
        let artists = match &self.artists {
            Some(names) => Some(clone_names(names)),
            None => None,
        };
        PlayerReading {
            status: self.status,
            title: clone_opt_string(&self.title),
            artists,
            volume: self.volume,
            art_url: clone_opt_string(&self.art_url),
        }
    }
}

/// Copies a list of strings.
pub fn clone_names(names: &Vec<String>) -> (copy: Vec<String>)
    ensures
        names_view(copy@) == names_view(names@),
{
    let mut copy: Vec<String> = Vec::new();
    let mut i: usize = 0;
    while i < names.len()
        invariant
            i <= names.len(),
            copy.len() == i,
            forall|j: int| 0 <= j < i ==> copy@[j]@ == names@[j]@,
        decreases names.len() - i,
    {
        copy.push(names[i].clone());
        i = i + 1;
    }
    proof {
        assert(names_view(copy@) =~= names_view(names@));
    }
    copy
}

impl PlayerReport {
    /// A copy with the same view.
    pub fn duplicate(&self) -> (report: PlayerReport)
        ensures
            report@ == self@,
    {
        let reading = match &self.reading {
            Some(r) => Some(r.duplicate()),
            None => None,
        };
        PlayerReport {
            identity: self.identity.clone(),
            bus_name: self.bus_name.clone(),
            is_playing: self.is_playing,
            reading,
        }
    }
}

impl PlayerReportView {
    /// Whether what is listed of the player's activity agrees with the
    /// status in its reading, if it has one.
    pub open spec fn agrees(self) -> bool {
        self.reading matches Some(r) ==> self.is_playing == (r.status == PlaybackStatus::Playing)
    }
}

/// Mathematical form of a [`TrackMetadata`].
pub struct TrackMetadataView {
    pub title: Option<Seq<char>>,
    pub artists: Option<Seq<Seq<char>>>,
    pub art_url: Option<Seq<char>>,
}

/// What a player says of the current track. A field the player does not
/// provide is `None`.
#[derive(Debug, Clone, PartialEq, Eq)]
pub struct TrackMetadata {
    pub title: Option<String>,
    pub artists: Option<Vec<String>>,
    pub art_url: Option<String>,
}

impl View for TrackMetadata {
    type V = TrackMetadataView;

    open spec fn view(&self) -> TrackMetadataView {
        TrackMetadataView {
            title: opt_str_view(self.title),
            artists: opt_names_view(self.artists),
            art_url: opt_str_view(self.art_url),
        }
    }
}

/// View of optional metadata.
pub open spec fn opt_metadata_view(metadata: Option<TrackMetadata>) -> Option<TrackMetadataView> {
    match metadata {
        Some(m) => Some(m@),
        None => None,
    }
}

/// The reading that three reads of a player amount to, each read `None`
/// where it failed. Without the status or without the metadata there is no
/// reading at all: a record is whole or absent. A volume that could not be
/// read only leaves the volume of the reading open.
pub open spec fn reading_of(
    status: Option<PlaybackStatus>,
    metadata: Option<TrackMetadataView>,
    volume: Option<Volume>,
) -> Option<PlayerReadingView> {
    match (status, metadata) {
        (Some(status), Some(metadata)) => Some(
            PlayerReadingView {
                status,
                title: metadata.title,
                artists: metadata.artists,
                volume,
                art_url: metadata.art_url,
            },
        ),
        _ => None,
    }
}

/// The report on the player `identity`, reached under `bus_name`, that
/// three reads amount to. The player counts as playing exactly when its
/// status was read and is `Playing`.
pub open spec fn report_of(
    identity: Seq<char>,
    bus_name: Seq<char>,
    status: Option<PlaybackStatus>,
    metadata: Option<TrackMetadataView>,
    volume: Option<Volume>,
) -> PlayerReportView {
    PlayerReportView {
        identity,
        bus_name,
        is_playing: status == Some(PlaybackStatus::Playing),
        reading: reading_of(status, metadata, volume),
    }
}

impl PlayerReading {
    /// Puts three reads of a player together, each `None` where it failed.
    pub fn from_reads(
        status: Option<PlaybackStatus>,
        metadata: Option<TrackMetadata>,
        volume: Option<Volume>,
    ) -> (reading: Option<PlayerReading>)
        ensures
            opt_reading_view(reading) == reading_of(status, opt_metadata_view(metadata), volume),
    {
        match (status, metadata) {
            (Some(status), Some(metadata)) => Some(
                PlayerReading {
                    status,
                    title: metadata.title,
                    artists: metadata.artists,
                    volume,
                    art_url: metadata.art_url,
                },
            ),
            _ => None,
        }
    }
}

impl PlayerReport {
    /// The report on the player `identity`, reached under `bus_name`, from
    /// three reads of it, each `None` where it failed.
    pub fn from_reads(
        identity: String,
        bus_name: String,
        status: Option<PlaybackStatus>,
        metadata: Option<TrackMetadata>,
        volume: Option<Volume>,
    ) -> (report: PlayerReport)
        ensures
            report@ == report_of(identity@, bus_name@, status, opt_metadata_view(metadata), volume),
            report@.agrees(),
    {
        let is_playing = match status {
            Some(PlaybackStatus::Playing) => true,
            _ => false,
        };
        PlayerReport {
            identity,
            bus_name,
            is_playing,
            reading: PlayerReading::from_reads(status, metadata, volume),
        }
    }
}

/// What the session bus answered when asked for the players present.
#[derive(Debug, Clone, PartialEq, Eq)]
pub enum Listing {
    /// The bus could not be reached.
    Unavailable,
    /// The players present, in the order the bus listed them.
    Players(Vec<PlayerReport>),
}

impl View for Listing {
    type V = Seq<PlayerReportView>;

    /// The players listed; none when the bus could not be reached.
    open spec fn view(&self) -> Seq<PlayerReportView> {
        match self {
            Listing::Unavailable => Seq::empty(),
            Listing::Players(reports) => reports_view(reports@),
        }
    }
}

/// Mathematical form of a [`DiscoveredPlayer`].
pub struct DiscoveredPlayerView {
    pub identity: Seq<char>,
    pub is_active: bool,
}

/// A player found by the last discovery pass, and whether it was playing.
#[derive(Debug, Clone, PartialEq, Eq)]
pub struct DiscoveredPlayer {
    pub identity: String,
    pub is_active: bool,
}

impl View for DiscoveredPlayer {
    type V = DiscoveredPlayerView;

    open spec fn view(&self) -> DiscoveredPlayerView {
        DiscoveredPlayerView { identity: self.identity@, is_active: self.is_active }
    }
}

impl DiscoveredPlayer {
    /// A copy with the same view.
    pub fn duplicate(&self) -> (player: DiscoveredPlayer)
        ensures
            player@ == self@,
    {
        DiscoveredPlayer { identity: self.identity.clone(), is_active: self.is_active }
    }
}

/// A transport command.
#[derive(Clone, Copy, Debug, PartialEq, Eq, Structural)]
pub enum Command {
    PlayPause,
    Next,
    Previous,
    SetVolume(Volume),
}

/// Mathematical form of a [`PlayerCommand`].
pub struct PlayerCommandView {
    pub identity: Seq<char>,
    pub bus_name: Seq<char>,
    pub command: Command,
}

/// A transport command together with the player it is for: its identity
/// and the name under which it is reached on the bus.
#[derive(Debug, Clone, PartialEq, Eq)]
pub struct PlayerCommand {
    pub identity: String,
    pub bus_name: String,
    pub command: Command,
}

impl View for PlayerCommand {
    type V = PlayerCommandView;

    open spec fn view(&self) -> PlayerCommandView {
        PlayerCommandView {
            identity: self.identity@,
            bus_name: self.bus_name@,
            command: self.command,
        }
    }
}

/// View of an optional command.
pub open spec fn opt_command_view(command: Option<PlayerCommand>) -> Option<PlayerCommandView> {
    match command {
        Some(c) => Some(c@),
        None => None,
    }
}

/// The command to send for `command`: addressed to the bound player, or
/// nothing while no player is bound.
pub open spec fn command_for(bound: Option<PlayerReportView>, command: Command) -> Option<
    PlayerCommandView,
> {
    match bound {
        Some(report) => Some(
            PlayerCommandView { identity: report.identity, bus_name: report.bus_name, command },
        ),
        None => None,
    }
}

/// Holds the bound player, as it was last reported, and the registry of
/// discovered players.
pub struct MusicController {
    player: Option<PlayerReport>,
    discovered_players: PlayerRegistry,
}

impl MusicController {
    /// The bound player, if any.
    pub closed spec fn bound(&self) -> Option<PlayerReportView> {
        match self.player {
            Some(report) => Some(report@),
            None => None,
        }
    }

    /// The registry: each discovered identity with its activity.
    pub closed spec fn discovered(&self) -> Map<Seq<char>, bool> {
        self.discovered_players@
    }

    /// A controller with no player bound and nothing discovered.
    pub fn new() -> (controller: MusicController)
        ensures
            controller.bound() is None,
            controller.discovered() == Map::<Seq<char>, bool>::empty(),
    {
        MusicController { player: None, discovered_players: PlayerRegistry::new() }
    }

    /// Rebuilds the registry from `listing`. Nothing of the earlier registry
    /// is kept; an unreachable bus leaves it empty.
    pub fn discover_all_players(&mut self, listing: &Listing)
        ensures
            final(self).discovered() == registry_of(listing@),
            final(self).bound() == old(self).bound(),
    {
        self.discovered_players = PlayerRegistry::discover(listing);
    }

    /// Binds the first playing player of `listing`, or nothing if none is
    /// playing.
    pub fn find_active_player(&mut self, listing: &Listing)
        ensures
            final(self).bound() == find_playing(listing@),
            final(self).discovered() == old(self).discovered(),
    {
        let found = match listing {
            Listing::Unavailable => None,
            Listing::Players(reports) => match search_playing(reports) {
                Some(i) => {
                    proof {
                        lemma_first_playing_unique(reports_view(reports@), i as int);
                    }
                    Some(reports[i].duplicate())
                },
                None => None,
            },
        };
        self.player = found;
    }

    /// Binds the first player of `listing` with identity `player_name`,
    /// whatever its activity, or nothing if there is none: no other player
    /// is taken in its place.
    pub fn find_specific_player(&mut self, player_name: &str, listing: &Listing)
        ensures
            final(self).bound() == find_named(listing@, player_name@),
            final(self).discovered() == old(self).discovered(),
    {
        let name = String::from_str(player_name);
        let found = match listing {
            Listing::Unavailable => None,
            Listing::Players(reports) => match search_named(reports, &name) {
                Some(i) => {
                    proof {
                        lemma_first_named_unique(reports_view(reports@), name@, i as int);
                    }
                    Some(reports[i].duplicate())
                },
                None => None,
            },
        };
        self.player = found;
    }

    /// The discovered players, one entry for each identity of the registry.
    pub fn get_discovered_players(&self) -> (players: Vec<DiscoveredPlayer>)
        ensures
            lists_registry(players@, self.discovered()),
    {
        self.discovered_players.players()
    }

    /// The snapshot of the bound player; the default snapshot when no player
    /// is bound or its state could not be read.
    pub fn get_player_info(&self) -> (info: PlayerInfo)
        ensures
            info@ == snapshot_of(self.bound()),
    {
        match &self.player {
            Some(report) => match &report.reading {
                Some(reading) => build_snapshot(reading),
                None => PlayerInfo::default(),
            },
            None => PlayerInfo::default(),
        }
    }

    /// The command `command` addressed to the bound player, if one is bound.
    pub fn command(&self, command: Command) -> (sent: Option<PlayerCommand>)
        ensures
            opt_command_view(sent) == command_for(self.bound(), command),
    {
        match &self.player {
            Some(report) => Some(
                PlayerCommand {
                    identity: report.identity.clone(),
                    bus_name: report.bus_name.clone(),
                    command,
                },
            ),
            None => None,
        }
    }

    /// The play/pause toggle for the bound player, if one is bound.
    pub fn play_pause(&self) -> (sent: Option<PlayerCommand>)
        ensures
            opt_command_view(sent) == command_for(self.bound(), Command::PlayPause),
    {
        self.command(Command::PlayPause)
    }

    /// The skip to the next track for the bound player, if one is bound.
    pub fn next(&self) -> (sent: Option<PlayerCommand>)
        ensures
            opt_command_view(sent) == command_for(self.bound(), Command::Next),
    {
        self.command(Command::Next)
    }

    /// The skip to the previous track for the bound player, if one is bound.
    pub fn previous(&self) -> (sent: Option<PlayerCommand>)
        ensures
            opt_command_view(sent) == command_for(self.bound(), Command::Previous),
    {
        self.command(Command::Previous)
    }

    /// The change of volume to `volume` for the bound player, if one is
    /// bound.
    pub fn set_volume(&self, volume: Volume) -> (sent: Option<PlayerCommand>)
        ensures
            opt_command_view(sent) == command_for(self.bound(), Command::SetVolume(volume)),
    {
        self.command(Command::SetVolume(volume))
    }
}

/// A volume between zero and one that is set through the command path is
/// the volume of the next snapshot, provided the player reports back the
/// level it was told.
pub proof fn lemma_volume_round_trip(
    bound: PlayerReportView,
    volume: Volume,
    echoed: PlayerReportView,
)
    requires
        volume.in_range(),
        echoed.identity == bound.identity,
        echoed.reading matches Some(r) && r.volume == Some(volume),
    ensures
        command_for(Some(bound), Command::SetVolume(volume)) == Some(
            PlayerCommandView {
                identity: bound.identity,
                bus_name: bound.bus_name,
                command: Command::SetVolume(volume),
            },
        ),
        snapshot_of(Some(echoed)).volume == volume,
{
}

} // verus!
