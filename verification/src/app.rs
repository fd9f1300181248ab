//! The applet's state and its reaction to each message.
//!
//! [`CosmicAppletMusic::update`] takes one message, changes the state and
//! returns the tasks that the embedding program has to carry out: commands to
//! send to a player, polls of the session bus, fetches, writes of the
//! settings, and messages to hand back later. The applet itself touches
//! nothing outside.

use crate::art::{opt_bytes_view, AlbumArtState, AlbumArtStateView};
use crate::config::{AppConfigView, ConfigManager};
use crate::music::{
    command_for, default_snapshot, opt_str_view, Command, Listing, MusicController, PlaybackStatus, PlayerCommand, PlayerCommandView, PlayerInfo, PlayerInfoView,
    PlayerReportView, Volume,
};
use crate::registry::{
    identities_before, lemma_identities_grow, lemma_identities_of_registry, registry_of,
};
use crate::selector::{lemma_single_playing_is_bound, resolve};
use crate::snapshot::snapshot_of;
use vstd::prelude::*;

verus! {

/// Milliseconds between two polls of the session bus.
pub const POLL_INTERVAL_MS: u64 = 500;

/// The tabs of the popup window.
#[derive(Clone, Copy, Debug, PartialEq, Eq, Structural)]
pub enum PopupTab {
    Controls,
    Settings,
}

/// Mathematical form of a [`Message`].
pub enum MessageView {
    Tick,
    TogglePopup(u64),
    PopupClosed(u64),
    SwitchTab(PopupTab),
    PlayPause,
    Next,
    Previous,
    UpdatePlayerInfo(PlayerInfoView),
    FindPlayer(Seq<PlayerReportView>),
    UpdateStatus(PlaybackStatus),
    VolumeChanged(Volume),
    ScrollUp,
    ScrollDown,
    MiddleClick,
    LoadAlbumArt(Seq<char>),
    AlbumArtLoaded(Seq<char>, Option<Seq<u8>>),
    DiscoverPlayers(Seq<PlayerReportView>),
    TogglePlayerEnabled(Seq<char>, bool),
    ToggleAutoDetect(bool),
    SelectPlayer(Option<Seq<char>>),
}

/// What can happen to the applet. A message that stands for something the
/// outside world did carries what it brought: a poll carries the listing, a
/// finished fetch its URL and bytes, a request for the popup the identifier
/// that a new window would get.
#[derive(Debug, Clone, PartialEq, Eq)]
pub enum Message {
    /// The polling interval has passed.
    Tick,
    /// The panel button was pressed; the identifier is for the window to
    /// open, should none be open.
    TogglePopup(u64),
    /// The window with this identifier was closed.
    PopupClosed(u64),
    SwitchTab(PopupTab),
    PlayPause,
    Next,
    Previous,
    /// A new snapshot is to be shown.
    UpdatePlayerInfo(PlayerInfo),
    /// The session bus was polled to find the authoritative player.
    FindPlayer(Listing),
    /// The playback status is to be shown, ahead of the next poll.
    UpdateStatus(PlaybackStatus),
    VolumeChanged(Volume),
    ScrollUp,
    ScrollDown,
    MiddleClick,
    /// The art at this URL is to be fetched.
    LoadAlbumArt(String),
    /// The fetch of the art at this URL ended, with its bytes or, on
    /// failure, with nothing.
    AlbumArtLoaded(String, Option<Vec<u8>>),
    /// The session bus was polled to rebuild the registry.
    DiscoverPlayers(Listing),
    TogglePlayerEnabled(String, bool),
    ToggleAutoDetect(bool),
    SelectPlayer(Option<String>),
}

impl View for Message {
    type V = MessageView;

    open spec fn view(&self) -> MessageView {
        match self {
            Message::Tick => MessageView::Tick,
            Message::TogglePopup(id) => MessageView::TogglePopup(*id),
            Message::PopupClosed(id) => MessageView::PopupClosed(*id),
            Message::SwitchTab(tab) => MessageView::SwitchTab(*tab),
            Message::PlayPause => MessageView::PlayPause,
            Message::Next => MessageView::Next,
            Message::Previous => MessageView::Previous,
            Message::UpdatePlayerInfo(info) => MessageView::UpdatePlayerInfo(info@),
            Message::FindPlayer(listing) => MessageView::FindPlayer(listing@),
            Message::UpdateStatus(status) => MessageView::UpdateStatus(*status),
            Message::VolumeChanged(volume) => MessageView::VolumeChanged(*volume),
            Message::ScrollUp => MessageView::ScrollUp,
            Message::ScrollDown => MessageView::ScrollDown,
            Message::MiddleClick => MessageView::MiddleClick,
            Message::LoadAlbumArt(url) => MessageView::LoadAlbumArt(url@),
            Message::AlbumArtLoaded(url, result) => MessageView::AlbumArtLoaded(
                url@,
                opt_bytes_view(*result),
            ),
            Message::DiscoverPlayers(listing) => MessageView::DiscoverPlayers(listing@),
            Message::TogglePlayerEnabled(name, enabled) => MessageView::TogglePlayerEnabled(
                name@,
                *enabled,
            ),
            Message::ToggleAutoDetect(enabled) => MessageView::ToggleAutoDetect(*enabled),
            Message::SelectPlayer(player) => MessageView::SelectPlayer(opt_str_view(*player)),
        }
    }
}

/// Mathematical form of a [`Task`].
pub enum TaskView {
    DestroyPopup(u64),
    GetPopup(u64),
    Send(PlayerCommandView),
    FindPlayer,
    DiscoverPlayers,
    UpdateStatus(PlaybackStatus),
    UpdatePlayerInfo(PlayerInfoView),
    LoadAlbumArt(Seq<char>),
    FetchArt(Seq<char>),
    SaveConfig,
}

/// What the embedding program is to do after a message was handled.
#[derive(Debug, Clone, PartialEq, Eq)]
pub enum Task {
    /// Close the popup window with this identifier.
    DestroyPopup(u64),
    /// Open the popup window under this identifier.
    GetPopup(u64),
    /// Send the command to its player; a failure is not reported back.
    Send(PlayerCommand),
    /// Poll the session bus and hand back [`Message::FindPlayer`].
    FindPlayer,
    /// Poll the session bus and hand back [`Message::DiscoverPlayers`].
    DiscoverPlayers,
    /// Hand back [`Message::UpdateStatus`] with this status.
    UpdateStatus(PlaybackStatus),
    /// Hand back [`Message::UpdatePlayerInfo`] with this snapshot.
    UpdatePlayerInfo(PlayerInfo),
    /// Hand back [`Message::LoadAlbumArt`] with this URL.
    LoadAlbumArt(String),
    /// Fetch the bytes at this URL without blocking, and hand back
    /// [`Message::AlbumArtLoaded`] with the URL and the outcome.
    FetchArt(String),
    /// Write the settings, as they now are, to the store.
    SaveConfig,
}

impl View for Task {
    type V = TaskView;

    open spec fn view(&self) -> TaskView {
        match self {
            Task::DestroyPopup(id) => TaskView::DestroyPopup(*id),
            Task::GetPopup(id) => TaskView::GetPopup(*id),
            Task::Send(command) => TaskView::Send(command@),
            Task::FindPlayer => TaskView::FindPlayer,
            Task::DiscoverPlayers => TaskView::DiscoverPlayers,
            Task::UpdateStatus(status) => TaskView::UpdateStatus(*status),
            Task::UpdatePlayerInfo(info) => TaskView::UpdatePlayerInfo(info@),
            Task::LoadAlbumArt(url) => TaskView::LoadAlbumArt(url@),
            Task::FetchArt(url) => TaskView::FetchArt(url@),
            Task::SaveConfig => TaskView::SaveConfig,
        }
    }
}

/// Views of a list of tasks, in order.
pub open spec fn tasks_view(tasks: Seq<Task>) -> Seq<TaskView> {
    Seq::new(tasks.len(), |i: int| tasks[i]@)
}

/// The status to show at once after a play/pause toggle, until the next poll
/// says what the player did: paused if it was playing, else playing.
pub open spec fn toggled(status: PlaybackStatus) -> PlaybackStatus {
    match status {
        PlaybackStatus::Playing => PlaybackStatus::Paused,
        PlaybackStatus::Paused => PlaybackStatus::Playing,
        PlaybackStatus::Stopped => PlaybackStatus::Playing,
    }
}

/// The user's selection; none while the settings are not available.
pub open spec fn selection(config: Option<AppConfigView>) -> Option<Seq<char>> {
    match config {
        Some(c) => c.selected_player,
        None => None,
    }
}

/// The task that sends `command` to the bound player, if one is bound.
pub open spec fn send_tasks(bound: Option<PlayerReportView>, command: Command) -> Seq<TaskView> {
    match command_for(bound, command) {
        Some(c) => seq![TaskView::Send(c)],
        None => Seq::empty(),
    }
}

/// The task that writes the settings, if they are available.
pub open spec fn save_tasks(config: Option<AppConfigView>) -> Seq<TaskView> {
    match config {
        Some(_) => seq![TaskView::SaveConfig],
        None => Seq::empty(),
    }
}

/// Mathematical form of a [`CosmicAppletMusic`].
pub struct AppletView {
    pub popup: Option<u64>,
    pub player_info: PlayerInfoView,
    pub bound: Option<PlayerReportView>,
    pub discovered: Map<Seq<char>, bool>,
    pub config: Option<AppConfigView>,
    pub art: AlbumArtStateView,
    pub active_tab: PopupTab,
}

/// The settings after every identity in `identities` was discovered.
pub open spec fn with_all_discovered(config: AppConfigView, identities: Set<Seq<char>>) -> AppConfigView {
    if config.auto_detect_new_players {
        AppConfigView { enabled_players: config.enabled_players.union(identities), ..config }
    } else {
        config
    }
}

impl AppletView {
    /// The state at start: no popup, the default snapshot, nothing bound or
    /// discovered, no art, the controls tab.
    pub open spec fn initial(config: Option<AppConfigView>) -> AppletView {
        AppletView {
            popup: None,
            player_info: default_snapshot(),
            bound: None,
            discovered: Map::empty(),
            config,
            art: AlbumArtStateView::empty(),
            active_tab: PopupTab::Controls,
        }
    }

    /// Each tick of the timer asks for a discovery pass and then for a poll
    /// for the player, and changes nothing by itself.
    pub open spec fn tick(self) -> (AppletView, Seq<TaskView>) {
        (self, seq![TaskView::DiscoverPlayers, TaskView::FindPlayer])
    }

    /// An open popup is closed; with none open, one is opened under
    /// `new_id`.
    pub open spec fn toggle_popup(self, new_id: u64) -> (AppletView, Seq<TaskView>) {
        match self.popup {
            Some(open) => (
                AppletView { popup: None, ..self },
                seq![TaskView::DestroyPopup(open)],
            ),
            None => (AppletView { popup: Some(new_id), ..self }, seq![TaskView::GetPopup(new_id)]),
        }
    }

    /// If the window closed is the popup, the popup is gone and the controls
    /// tab is current again; another window changes nothing.
    pub open spec fn popup_closed(self, id: u64) -> (AppletView, Seq<TaskView>) {
        if self.popup == Some(id) {
            (AppletView { popup: None, active_tab: PopupTab::Controls, ..self }, Seq::empty())
        } else {
            (self, Seq::empty())
        }
    }

    /// The tab becomes current.
    pub open spec fn switch_tab(self, tab: PopupTab) -> (AppletView, Seq<TaskView>) {
        (AppletView { active_tab: tab, ..self }, Seq::empty())
    }

    /// The toggle is sent to the bound player; the status it should lead to
    /// is to be shown at once, and a poll follows to learn what it did lead
    /// to.
    pub open spec fn play_pause(self) -> (AppletView, Seq<TaskView>) {
        (
            self,
            send_tasks(self.bound, Command::PlayPause) + seq![
                TaskView::UpdateStatus(toggled(self.player_info.status)),
                TaskView::FindPlayer,
            ],
        )
    }

    /// The skip is sent to the bound player, and a poll follows.
    pub open spec fn skip(self, command: Command) -> (AppletView, Seq<TaskView>) {
        (self, send_tasks(self.bound, command) + seq![TaskView::FindPlayer])
    }

    /// The snapshot is taken over as a whole. Its art URL is held against
    /// the tracked one, and a fetch is asked for if it is new.
    pub open spec fn update_player_info(self, info: PlayerInfoView) -> (AppletView, Seq<TaskView>) {
        (
            AppletView { player_info: info, art: self.art.observe(info.art_url), ..self },
            match self.art.fetch_due(info.art_url) {
                Some(url) => seq![TaskView::LoadAlbumArt(url)],
                None => Seq::empty(),
            },
        )
    }

    /// The authoritative player among those listed is bound, and its
    /// snapshot is to be shown.
    pub open spec fn find_player(self, players: Seq<PlayerReportView>) -> (AppletView, Seq<
        TaskView,
    >) {
        let bound = resolve(selection(self.config), players);
        (AppletView { bound, ..self }, seq![TaskView::UpdatePlayerInfo(snapshot_of(bound))])
    }

    /// The status is shown.
    pub open spec fn update_status(self, status: PlaybackStatus) -> (AppletView, Seq<TaskView>) {
        (
            AppletView {
                player_info: PlayerInfoView { status, ..self.player_info },
                ..self
            },
            Seq::empty(),
        )
    }

    /// The volume is sent to the bound player and shown at once; a poll
    /// follows to learn what the player made of it.
    pub open spec fn volume_changed(self, volume: Volume) -> (AppletView, Seq<TaskView>) {
        (
            AppletView {
                player_info: PlayerInfoView { volume, ..self.player_info },
                ..self
            },
            send_tasks(self.bound, Command::SetVolume(volume)) + seq![TaskView::FindPlayer],
        )
    }

    /// The fetch of the URL is asked for.
    pub open spec fn load_album_art(self, url: Seq<char>) -> (AppletView, Seq<TaskView>) {
        (self, seq![TaskView::FetchArt(url)])
    }

    /// The outcome of a fetch is taken if its URL is still the tracked one.
    pub open spec fn album_art_loaded(self, url: Seq<char>, result: Option<Seq<u8>>) -> (
        AppletView,
        Seq<TaskView>,
    ) {
        (AppletView { art: self.art.deliver(url, result), ..self }, Seq::empty())
    }

    /// The registry is rebuilt from the listing. Where new players are to be
    /// enabled, every identity listed is enabled, and the settings are
    /// written if that enabled a player that was not enabled before.
    pub open spec fn discover_players(self, players: Seq<PlayerReportView>) -> (AppletView, Seq<
        TaskView,
    >) {
        let discovered = registry_of(players);
        match self.config {
            Some(config) => (
                AppletView {
                    discovered,
                    config: Some(with_all_discovered(config, discovered.dom())),
                    ..self
                },
                if config.auto_detect_new_players && !discovered.dom().subset_of(
                    config.enabled_players,
                ) {
                    seq![TaskView::SaveConfig]
                } else {
                    Seq::empty()
                },
            ),
            None => (AppletView { discovered, ..self }, Seq::empty()),
        }
    }

    /// The player is enabled or disabled and the settings are written, if
    /// they are available; a poll follows.
    pub open spec fn toggle_player_enabled(self, name: Seq<char>, enabled: bool) -> (
        AppletView,
        Seq<TaskView>,
    ) {
        (
            AppletView {
                config: match self.config {
                    Some(config) => Some(
                        AppConfigView {
                            enabled_players: if enabled {
                                config.enabled_players.insert(name)
                            } else {
                                config.enabled_players.remove(name)
                            },
                            ..config
                        },
                    ),
                    None => None,
                },
                ..self
            },
            save_tasks(self.config) + seq![TaskView::FindPlayer],
        )
    }

    /// The flag is set and the settings are written, if they are available.
    pub open spec fn toggle_auto_detect(self, enabled: bool) -> (AppletView, Seq<TaskView>) {
        (
            AppletView {
                config: match self.config {
                    Some(config) => Some(
                        AppConfigView { auto_detect_new_players: enabled, ..config },
                    ),
                    None => None,
                },
                ..self
            },
            save_tasks(self.config),
        )
    }

    /// The selection is set or cleared and the settings are written, if
    /// they are available; a poll follows.
    pub open spec fn select_player(self, player: Option<Seq<char>>) -> (AppletView, Seq<TaskView>) {
        (
            AppletView {
                config: match self.config {
                    Some(config) => Some(AppConfigView { selected_player: player, ..config }),
                    None => None,
                },
                ..self
            },
            save_tasks(self.config) + seq![TaskView::FindPlayer],
        )
    }

    /// The state after `message` and the tasks it gives rise to.
    pub open spec fn step(self, message: MessageView) -> (AppletView, Seq<TaskView>) {
        match message {
            MessageView::Tick => self.tick(),
            MessageView::TogglePopup(new_id) => self.toggle_popup(new_id),
            MessageView::PopupClosed(id) => self.popup_closed(id),
            MessageView::SwitchTab(tab) => self.switch_tab(tab),
            MessageView::PlayPause => self.play_pause(),
            MessageView::Next => self.skip(Command::Next),
            MessageView::Previous => self.skip(Command::Previous),
            MessageView::UpdatePlayerInfo(info) => self.update_player_info(info),
            MessageView::FindPlayer(players) => self.find_player(players),
            MessageView::UpdateStatus(status) => self.update_status(status),
            MessageView::VolumeChanged(volume) => self.volume_changed(volume),
            MessageView::ScrollUp => self.skip(Command::Next),
            MessageView::ScrollDown => self.skip(Command::Previous),
            MessageView::MiddleClick => self.play_pause(),
            MessageView::LoadAlbumArt(url) => self.load_album_art(url),
            MessageView::AlbumArtLoaded(url, result) => self.album_art_loaded(url, result),
            MessageView::DiscoverPlayers(players) => self.discover_players(players),
            MessageView::TogglePlayerEnabled(name, enabled) => self.toggle_player_enabled(
                name,
                enabled,
            ),
            MessageView::ToggleAutoDetect(enabled) => self.toggle_auto_detect(enabled),
            MessageView::SelectPlayer(player) => self.select_player(player),
        }
    }
}

/// View of an optional settings manager.
pub open spec fn opt_manager_view(manager: Option<ConfigManager>) -> Option<AppConfigView> {
    match manager {
        Some(m) => Some(m@),
        None => None,
    }
}

/// The applet: the snapshot on show, the controller with the bound player
/// and the registry, the settings if they could be opened, the album art,
/// and what the popup shows.
pub struct CosmicAppletMusic {
    popup: Option<u64>,
    player_info: PlayerInfo,
    music_controller: MusicController,
    config_manager: Option<ConfigManager>,
    album_art: AlbumArtState,
    active_tab: PopupTab,
}

impl View for CosmicAppletMusic {
    type V = AppletView;

    closed spec fn view(&self) -> AppletView {
        AppletView {
            popup: self.popup,
            player_info: self.player_info@,
            bound: self.music_controller.bound(),
            discovered: self.music_controller.discovered(),
            config: opt_manager_view(self.config_manager),
            art: self.album_art@,
            active_tab: self.active_tab,
        }
    }
}

impl Default for CosmicAppletMusic {
    /// The applet at start, without settings.
    fn default() -> (applet: CosmicAppletMusic)
        ensures
            applet@ == AppletView::initial(None),
    {
        CosmicAppletMusic {
            popup: None,
            player_info: PlayerInfo::default(),
            music_controller: MusicController::new(),
            config_manager: None,
            album_art: AlbumArtState::new(),
            active_tab: PopupTab::Controls,
        }
    }
}

impl CosmicAppletMusic {
    /// The applet at start, with the settings if they could be opened, and
    /// the first two tasks: a discovery pass and a poll for the player.
    pub fn init(config_manager: Option<ConfigManager>) -> (started: (CosmicAppletMusic, Vec<Task>))
        ensures
            started.0@ == AppletView::initial(opt_manager_view(config_manager)),
            tasks_view(started.1@) == seq![TaskView::DiscoverPlayers, TaskView::FindPlayer],
    {
        let applet = CosmicAppletMusic {
            popup: None,
            player_info: PlayerInfo::default(),
            music_controller: MusicController::new(),
            config_manager,
            album_art: AlbumArtState::new(),
            active_tab: PopupTab::Controls,
        };
        let mut tasks: Vec<Task> = Vec::new();
        tasks.push(Task::DiscoverPlayers);
        tasks.push(Task::FindPlayer);
        proof {
            assert(tasks_view(tasks@) =~= seq![TaskView::DiscoverPlayers, TaskView::FindPlayer]);
        }
        (applet, tasks)
    }

    /// The identifier of the popup window, if it is open.
    pub fn popup(&self) -> (popup: Option<u64>)
        ensures
            popup == self@.popup,
    {
        self.popup
    }

    /// The snapshot on show.
    pub fn player_info(&self) -> (info: &PlayerInfo)
        ensures
            info@ == self@.player_info,
    {
        &self.player_info
    }

    /// The controller.
    pub fn music_controller(&self) -> (controller: &MusicController)
        ensures
            controller.bound() == self@.bound,
            controller.discovered() == self@.discovered,
    {
        &self.music_controller
    }

    /// The settings, if they could be opened.
    pub fn config_manager(&self) -> (manager: Option<&ConfigManager>)
        ensures
            match manager {
                Some(m) => self@.config == Some(m@),
                None => self@.config is None,
            },
    {
        self.config_manager.as_ref()
    }

    /// The album art.
    pub fn album_art(&self) -> (art: &AlbumArtState)
        ensures
            art@ == self@.art,
    {
        &self.album_art
    }

    /// The tab that the popup shows.
    pub fn active_tab(&self) -> (tab: PopupTab)
        ensures
            tab == self@.active_tab,
    {
        self.active_tab
    }

    /// Whether the controls tab has nothing to control: no player is
    /// selected, or the settings are not available.
    pub fn no_player_selected(&self) -> (none: bool)
        ensures
            none == (selection(self@.config) is None),
    {
        match &self.config_manager {
            Some(config) => config.get_selected_player().is_none(),
            None => true,
        }
    }

    /// Asks for what each tick of the timer drives: a discovery pass, then
    /// a poll for the player.
    pub fn handle_tick(&self) -> (tasks: Vec<Task>)
        ensures
            (self@, tasks_view(tasks@)) == self@.tick(),
    {
        let mut tasks: Vec<Task> = Vec::new();
        tasks.push(Task::DiscoverPlayers);
        tasks.push(Task::FindPlayer);
        proof {
            assert(tasks_view(tasks@) =~= seq![TaskView::DiscoverPlayers, TaskView::FindPlayer]);
        }
        tasks
    }

    /// Closes the popup if it is open, else opens it under `new_id`.
    pub fn handle_toggle_popup(&mut self, new_id: u64) -> (tasks: Vec<Task>)
        ensures
            (final(self)@, tasks_view(tasks@)) == old(self)@.toggle_popup(new_id),
    {
        let mut tasks: Vec<Task> = Vec::new();
        match self.popup {
            Some(open) => {
                self.popup = None;
                tasks.push(Task::DestroyPopup(open));
                proof {
                    assert(tasks_view(tasks@) =~= seq![TaskView::DestroyPopup(open)]);
                }
            },
            None => {
                self.popup = Some(new_id);
                tasks.push(Task::GetPopup(new_id));
                proof {
                    assert(tasks_view(tasks@) =~= seq![TaskView::GetPopup(new_id)]);
                }
            },
        }
        tasks
    }

    /// Notes that the window `id` was closed.
    pub fn handle_popup_closed(&mut self, id: u64) -> (tasks: Vec<Task>)
        ensures
            (final(self)@, tasks_view(tasks@)) == old(self)@.popup_closed(id),
    {
        let is_popup = match self.popup {
            Some(open) => open == id,
            None => false,
        };
        if is_popup {
            self.popup = None;
            self.active_tab = PopupTab::Controls;
        }
        let tasks: Vec<Task> = Vec::new();
        proof {
            assert(tasks_view(tasks@) =~= Seq::<TaskView>::empty());
        }
        tasks
    }

    /// Makes `tab` the current tab.
    pub fn handle_switch_tab(&mut self, tab: PopupTab) -> (tasks: Vec<Task>)
        ensures
            (final(self)@, tasks_view(tasks@)) == old(self)@.switch_tab(tab),
    {
        self.active_tab = tab;
        let tasks: Vec<Task> = Vec::new();
        proof {
            assert(tasks_view(tasks@) =~= Seq::<TaskView>::empty());
        }
        tasks
    }

    /// Toggles between playing and paused.
    pub fn handle_play_pause(&self) -> (tasks: Vec<Task>)
        ensures
            (self@, tasks_view(tasks@)) == self@.play_pause(),
    {
        let mut tasks: Vec<Task> = Vec::new();
        match self.music_controller.play_pause() {
            Some(command) => {
                tasks.push(Task::Send(command));
            },
            None => {},
        }
        let new_status = match self.player_info.status {
            PlaybackStatus::Playing => PlaybackStatus::Paused,
            PlaybackStatus::Paused => PlaybackStatus::Playing,
            PlaybackStatus::Stopped => PlaybackStatus::Playing,
        };
        tasks.push(Task::UpdateStatus(new_status));
        tasks.push(Task::FindPlayer);
        proof {
            assert(tasks_view(tasks@) =~= self@.play_pause().1);
        }
        tasks
    }

    /// Skips to the next track.
    pub fn handle_next(&self) -> (tasks: Vec<Task>)
        ensures
            (self@, tasks_view(tasks@)) == self@.skip(Command::Next),
    {
        let mut tasks: Vec<Task> = Vec::new();
        match self.music_controller.next() {
            Some(command) => {
                tasks.push(Task::Send(command));
            },
            None => {},
        }
        tasks.push(Task::FindPlayer);
        proof {
            assert(tasks_view(tasks@) =~= self@.skip(Command::Next).1);
        }
        tasks
    }

    /// Skips to the previous track.
    pub fn handle_previous(&self) -> (tasks: Vec<Task>)
        ensures
            (self@, tasks_view(tasks@)) == self@.skip(Command::Previous),
    {
        let mut tasks: Vec<Task> = Vec::new();
        match self.music_controller.previous() {
            Some(command) => {
                tasks.push(Task::Send(command));
            },
            None => {},
        }
        tasks.push(Task::FindPlayer);
        proof {
            assert(tasks_view(tasks@) =~= self@.skip(Command::Previous).1);
        }
        tasks
    }

    /// Takes over a new snapshot and asks for its art if the URL is new.
    pub fn handle_update_player_info(&mut self, info: PlayerInfo) -> (tasks: Vec<Task>)
        ensures
            (final(self)@, tasks_view(tasks@)) == old(self)@.update_player_info(info@),
    {
        let mut tasks: Vec<Task> = Vec::new();
        match self.album_art.observe(&info.art_url) {
            Some(url) => {
                tasks.push(Task::LoadAlbumArt(url));
            },
            None => {},
        }
        self.player_info = info;
        proof {
            assert(tasks_view(tasks@) =~= old(self)@.update_player_info(info@).1);
        }
        tasks
    }

    /// Binds the authoritative player of `listing`: the selected player or
    /// nothing where the user selected one, else the first that is playing.
    pub fn handle_find_player(&mut self, listing: &Listing) -> (tasks: Vec<Task>)
        ensures
            (final(self)@, tasks_view(tasks@)) == old(self)@.find_player(listing@),
    {
        let selected = match &self.config_manager {
            Some(config) => config.get_selected_player(),
            None => None,
        };
        match selected {
            Some(selected_player) => {
                self.music_controller.find_specific_player(selected_player.as_str(), listing);
            },
            None => {
                self.music_controller.find_active_player(listing);
            },
        }
        let info = self.music_controller.get_player_info();
        let mut tasks: Vec<Task> = Vec::new();
        tasks.push(Task::UpdatePlayerInfo(info));
        proof {
            assert(tasks_view(tasks@) =~= old(self)@.find_player(listing@).1);
        }
        tasks
    }

    /// Shows `status`.
    pub fn handle_update_status(&mut self, status: PlaybackStatus) -> (tasks: Vec<Task>)
        ensures
            (final(self)@, tasks_view(tasks@)) == old(self)@.update_status(status),
    {
        self.player_info.status = status;
        let tasks: Vec<Task> = Vec::new();
        proof {
            assert(tasks_view(tasks@) =~= Seq::<TaskView>::empty());
        }
        tasks
    }

    /// Sets the volume of the bound player, shows it at once and asks for a
    /// poll.
    pub fn handle_volume_changed(&mut self, volume: Volume) -> (tasks: Vec<Task>)
        ensures
            (final(self)@, tasks_view(tasks@)) == old(self)@.volume_changed(volume),
    {
        let mut tasks: Vec<Task> = Vec::new();
        match self.music_controller.set_volume(volume) {
            Some(command) => {
                tasks.push(Task::Send(command));
            },
            None => {},
        }
        tasks.push(Task::FindPlayer);
        self.player_info.volume = volume;
        proof {
            assert(tasks_view(tasks@) =~= old(self)@.volume_changed(volume).1);
        }
        tasks
    }

    /// Asks for the fetch of the art at `url`.
    pub fn handle_load_album_art(&self, url: String) -> (tasks: Vec<Task>)
        ensures
            (self@, tasks_view(tasks@)) == self@.load_album_art(url@),
    {
        let mut tasks: Vec<Task> = Vec::new();
        tasks.push(Task::FetchArt(url));
        proof {
            assert(tasks_view(tasks@) =~= seq![TaskView::FetchArt(url@)]);
        }
        tasks
    }

    /// Takes the outcome of the fetch of `url`, unless the art URL has
    /// changed since.
    pub fn handle_album_art_loaded(&mut self, url: String, result: Option<Vec<u8>>) -> (tasks: Vec<
        Task,
    >)
        ensures
            (final(self)@, tasks_view(tasks@)) == old(self)@.album_art_loaded(
                url@,
                opt_bytes_view(result),
            ),
    {
        self.album_art.deliver(url, result);
        let tasks: Vec<Task> = Vec::new();
        proof {
            assert(tasks_view(tasks@) =~= Seq::<TaskView>::empty());
        }
        tasks
    }
}

impl CosmicAppletMusic {
    /// Rebuilds the registry from `listing` and, where new players are to be
    /// enabled, enables every player found.
    pub fn handle_discover_players(&mut self, listing: &Listing) -> (tasks: Vec<Task>)
        ensures
            (final(self)@, tasks_view(tasks@)) == old(self)@.discover_players(listing@),
    {
        self.music_controller.discover_all_players(listing);
        let mut tasks: Vec<Task> = Vec::new();
        match &mut self.config_manager {
            Some(config) => {
                let ghost before = config@;
                let discovered = self.music_controller.get_discovered_players();
                let mut write = false;
                let mut i: usize = 0;
                proof {
                    assert(before.enabled_players.union(identities_before(discovered@, 0))
                        =~= before.enabled_players);
                }
                while i < discovered.len()
                    invariant
                        i <= discovered.len(),
                        write == (before.auto_detect_new_players && !identities_before(
                            discovered@,
                            i as int,
                        ).subset_of(before.enabled_players)),
                        config@ == with_all_discovered(
                            before,
                            identities_before(discovered@, i as int),
                        ),
                    decreases discovered.len() - i,
                {
                    proof {
                        lemma_identities_grow(discovered@, i as int);
                        assert(before.enabled_players.union(
                            identities_before(discovered@, i as int),
                        ).insert(discovered@[i as int].identity@)
                            =~= before.enabled_players.union(
                            identities_before(discovered@, i + 1),
                        ));
                    }
                    if config.add_discovered_player(discovered[i].identity.clone()) {
                        write = true;
                    }
                    i = i + 1;
                }
                if write {
                    tasks.push(Task::SaveConfig);
                }
                proof {
                    lemma_identities_of_registry(discovered@, registry_of(listing@));
                    assert(tasks_view(tasks@) =~= old(self)@.discover_players(listing@).1);
                }
            },
            None => {
                proof {
                    assert(tasks_view(tasks@) =~= Seq::<TaskView>::empty());
                }
            },
        }
        tasks
    }

    /// Enables or disables a player.
    pub fn handle_toggle_player_enabled(&mut self, player_name: String, enabled: bool) -> (tasks:
        Vec<Task>)
        ensures
            (final(self)@, tasks_view(tasks@)) == old(self)@.toggle_player_enabled(
                player_name@,
                enabled,
            ),
    {
        let mut tasks: Vec<Task> = Vec::new();
        match &mut self.config_manager {
            Some(config) => {
                if config.set_player_enabled(player_name, enabled) {
                    tasks.push(Task::SaveConfig);
                }
            },
            None => {},
        }
        tasks.push(Task::FindPlayer);
        proof {
            assert(tasks_view(tasks@) =~= old(self)@.toggle_player_enabled(
                player_name@,
                enabled,
            ).1);
        }
        tasks
    }

    /// Sets whether new players are enabled as they are discovered.
    pub fn handle_toggle_auto_detect(&mut self, enabled: bool) -> (tasks: Vec<Task>)
        ensures
            (final(self)@, tasks_view(tasks@)) == old(self)@.toggle_auto_detect(enabled),
    {
        let mut tasks: Vec<Task> = Vec::new();
        match &mut self.config_manager {
            Some(config) => {
                if config.set_auto_detect_new_players(enabled) {
                    tasks.push(Task::SaveConfig);
                }
            },
            None => {},
        }
        proof {
            assert(tasks_view(tasks@) =~= old(self)@.toggle_auto_detect(enabled).1);
        }
        tasks
    }

    /// Sets or clears the selected player.
    pub fn handle_select_player(&mut self, player: Option<String>) -> (tasks: Vec<Task>)
        ensures
            (final(self)@, tasks_view(tasks@)) == old(self)@.select_player(opt_str_view(player)),
    {
        let mut tasks: Vec<Task> = Vec::new();
        match &mut self.config_manager {
            Some(config) => {
                if config.set_selected_player(player) {
                    tasks.push(Task::SaveConfig);
                }
            },
            None => {},
        }
        tasks.push(Task::FindPlayer);
        proof {
            assert(tasks_view(tasks@) =~= old(self)@.select_player(opt_str_view(player)).1);
        }
        tasks
    }

    /// Handles one message: changes the state and returns the tasks to
    /// carry out, in order.
    pub fn update(&mut self, message: Message) -> (tasks: Vec<Task>)
        ensures
            (final(self)@, tasks_view(tasks@)) == old(self)@.step(message@),
    {
        match message {
            Message::Tick => self.handle_tick(),
            Message::TogglePopup(new_id) => self.handle_toggle_popup(new_id),
            Message::PopupClosed(id) => self.handle_popup_closed(id),
            Message::SwitchTab(tab) => self.handle_switch_tab(tab),
            Message::PlayPause => self.handle_play_pause(),
            Message::Next => self.handle_next(),
            Message::Previous => self.handle_previous(),
            Message::UpdatePlayerInfo(info) => self.handle_update_player_info(info),
            Message::FindPlayer(listing) => self.handle_find_player(&listing),
            Message::UpdateStatus(status) => self.handle_update_status(status),
            Message::VolumeChanged(volume) => self.handle_volume_changed(volume),
            Message::ScrollUp => self.handle_next(),
            Message::ScrollDown => self.handle_previous(),
            Message::MiddleClick => self.handle_play_pause(),
            Message::LoadAlbumArt(url) => self.handle_load_album_art(url),
            Message::AlbumArtLoaded(url, result) => self.handle_album_art_loaded(url, result),
            Message::DiscoverPlayers(listing) => self.handle_discover_players(&listing),
            Message::TogglePlayerEnabled(player, enabled) => self.handle_toggle_player_enabled(
                player,
                enabled,
            ),
            Message::ToggleAutoDetect(enabled) => self.handle_toggle_auto_detect(enabled),
            Message::SelectPlayer(player) => self.handle_select_player(player),
        }
    }
}

/// While the selected player is not among those listed, a poll asks for
/// the default snapshot to be shown and binds nothing, whoever is playing.
pub proof fn lemma_unreachable_selection_shows_default(
    state: AppletView,
    name: Seq<char>,
    players: Seq<PlayerReportView>,
)
    requires
        selection(state.config) == Some(name),
        forall|i: int| 0 <= i < players.len() ==> (#[trigger] players[i]).identity != name,
    ensures
        state.find_player(players).0.bound is None,
        state.find_player(players).1 == seq![TaskView::UpdatePlayerInfo(default_snapshot())],
        state.find_player(players).0.skip(Command::Next).1 == seq![TaskView::FindPlayer],
{
    assert(state.find_player(players).0.skip(Command::Next).1 =~= seq![TaskView::FindPlayer]);
}

/// With no player selected and exactly one listed player playing, a poll
/// binds that player and asks for its snapshot to be shown.
pub proof fn lemma_only_playing_player_is_shown(
    state: AppletView,
    players: Seq<PlayerReportView>,
    i: int,
)
    requires
        selection(state.config) is None,
        0 <= i < players.len(),
        players[i].is_playing,
        forall|j: int| 0 <= j < players.len() && j != i ==> !(#[trigger] players[j]).is_playing,
    ensures
        state.find_player(players).0.bound == Some(players[i]),
        state.find_player(players).1 == seq![
            TaskView::UpdatePlayerInfo(snapshot_of(Some(players[i]))),
        ],
{
    lemma_single_playing_is_bound(players, i);
}

/// A volume between zero and one that the user sets is sent to the bound
/// player and is the volume on show, at once and again after the next poll,
/// provided the player reports back the level it was told.
pub proof fn lemma_volume_shown_after_poll(
    state: AppletView,
    volume: Volume,
    players: Seq<PlayerReportView>,
)
    requires
        volume.in_range(),
        state.bound is Some,
        resolve(selection(state.config), players) matches Some(report) && (report.reading matches Some(
            reading,
        ) && reading.volume == Some(volume)),
    ensures
        state.volume_changed(volume).1 == seq![
            TaskView::Send(
                PlayerCommandView {
                    identity: state.bound->0.identity,
                    bus_name: state.bound->0.bus_name,
                    command: Command::SetVolume(volume),
                },
            ),
            TaskView::FindPlayer,
        ],
        state.volume_changed(volume).0.player_info.volume == volume,
        state.volume_changed(volume).0.find_player(players).1 == seq![
            TaskView::UpdatePlayerInfo(snapshot_of(resolve(selection(state.config), players))),
        ],
        snapshot_of(resolve(selection(state.config), players)).volume == volume,
        state.volume_changed(volume).0.find_player(players).0.update_player_info(
            snapshot_of(resolve(selection(state.config), players)),
        ).0.player_info.volume == volume,
{
}

/// Whatever the message, the image held afterwards, if any, was fetched
/// from the art URL of the snapshot that was last taken over.
pub proof fn lemma_step_keeps_art_with_its_url(state: AppletView, message: MessageView)
    requires
        state.art.well_formed(),
    ensures
        state.step(message).0.art.well_formed(),
{
}

/// A snapshot with the art URL of the one before asks for no fetch; one
/// with a new art URL asks for exactly the fetch of that URL.
pub proof fn lemma_art_fetched_once_per_change(
    state: AppletView,
    first: PlayerInfoView,
    second: PlayerInfoView,
)
    requires
        first.art_url is Some,
        first.art_url != state.art.current_url,
        second.art_url == first.art_url,
    ensures
        state.update_player_info(first).1 == seq![TaskView::LoadAlbumArt(first.art_url->0)],
        state.update_player_info(first).0.update_player_info(second).1 == Seq::<TaskView>::empty(),
{
}

/// A status shown ahead of a poll is provisional: the snapshot of the next
/// poll replaces it, along with everything else on show.
pub proof fn lemma_poll_replaces_predicted_status(
    state: AppletView,
    predicted: PlaybackStatus,
    info: PlayerInfoView,
)
    ensures
        state.update_status(predicted).0.player_info.status == predicted,
        state.update_status(predicted).0.update_player_info(info).0.player_info == info,
{
}

/// The volume on show stays between zero and one as long as the levels
/// that messages bring lie there, and every snapshot that a poll asks to be
/// shown has its volume there whatever the players report.
pub proof fn lemma_volume_on_show_stays_in_range(state: AppletView, message: MessageView)
    requires
        state.player_info.volume.in_range(),
        message matches MessageView::VolumeChanged(volume) ==> volume.in_range(),
        message matches MessageView::UpdatePlayerInfo(info) ==> info.volume.in_range(),
    ensures
        state.step(message).0.player_info.volume.in_range(),
        forall|i: int|
            0 <= i < state.step(message).1.len() ==> (#[trigger] state.step(
                message,
            ).1[i] matches TaskView::UpdatePlayerInfo(info) ==> info.volume.in_range()),
{
}

} // verus!
