use music_player::app::{CosmicAppletMusic, Message, PopupTab, Task, POLL_INTERVAL_MS};
use music_player::config::{AppConfig, ConfigManager, PlayerSet};
use music_player::music::{
    Command, DiscoveredPlayer, Listing, PlaybackStatus, PlayerCommand, PlayerInfo, PlayerReading,
    PlayerReport, Volume,
};

fn volume(level: f64) -> Volume {
    Volume::from_bits(level.to_bits())
}

fn bus(identity: &str) -> String {
    format!("org.mpris.MediaPlayer2.{}", identity)
}

fn report(identity: &str, status: PlaybackStatus) -> PlayerReport {
    PlayerReport {
        identity: identity.to_string(),
        bus_name: bus(identity),
        is_playing: status == PlaybackStatus::Playing,
        reading: Some(PlayerReading {
            status,
            title: None,
            artists: None,
            volume: None,
            art_url: None,
        }),
    }
}

fn with_art(identity: &str, status: PlaybackStatus, art_url: &str) -> PlayerReport {
    let mut r = report(identity, status);
    if let Some(reading) = r.reading.as_mut() {
        reading.art_url = Some(art_url.to_string());
    }
    r
}

fn config(selected: Option<&str>, enabled: &[&str], auto_detect: bool) -> ConfigManager {
    let stored = AppConfig {
        enabled_players: PlayerSet::from_names(enabled.iter().map(|s| s.to_string()).collect()),
        auto_detect_new_players: auto_detect,
        selected_player: selected.map(|s| s.to_string()),
    };
    ConfigManager::new(Some(stored)).0
}

fn applet(manager: Option<ConfigManager>) -> CosmicAppletMusic {
    CosmicAppletMusic::init(manager).0
}

fn enabled(applet: &CosmicAppletMusic) -> Vec<String> {
    let mut names = applet.config_manager().unwrap().config().enabled_players.to_vec();
    names.sort();
    names
}

fn discovered(applet: &CosmicAppletMusic) -> Vec<(String, bool)> {
    let players: Vec<DiscoveredPlayer> = applet.music_controller().get_discovered_players();
    let mut pairs: Vec<(String, bool)> =
        players.into_iter().map(|p| (p.identity, p.is_active)).collect();
    pairs.sort();
    pairs
}

/// Hands the snapshot of a poll back to the applet, as the embedding program does.
fn poll(applet: &mut CosmicAppletMusic, listing: Listing) -> Vec<Task> {
    let tasks = applet.update(Message::FindPlayer(listing));
    assert_eq!(tasks.len(), 1);
    match tasks.into_iter().next() {
        Some(Task::UpdatePlayerInfo(info)) => applet.update(Message::UpdatePlayerInfo(info)),
        other => panic!("unexpected task {:?}", other),
    }
}

fn to_player(identity: &str, command: Command) -> Task {
    Task::Send(PlayerCommand { identity: identity.to_string(), bus_name: bus(identity), command })
}

#[test]
fn start_without_settings() {
    let applet = CosmicAppletMusic::default();
    assert_eq!(applet.popup(), None);
    assert_eq!(*applet.player_info(), PlayerInfo::default());
    assert!(applet.config_manager().is_none());
    assert_eq!(applet.active_tab(), PopupTab::Controls);
    assert_eq!(applet.album_art().current_url(), None);
    assert_eq!(applet.album_art().image(), None);
    assert!(applet.music_controller().get_discovered_players().is_empty());
    assert!(applet.no_player_selected());
}

#[test]
fn init_asks_for_discovery_and_a_poll() {
    let (applet, tasks) = CosmicAppletMusic::init(Some(config(Some("VLC"), &[], true)));
    assert_eq!(tasks, vec![Task::DiscoverPlayers, Task::FindPlayer]);
    assert_eq!(*applet.player_info(), PlayerInfo::default());
    assert_eq!(applet.active_tab(), PopupTab::Controls);
    assert_eq!(applet.popup(), None);
    assert!(!applet.no_player_selected());
    let (applet, tasks) = CosmicAppletMusic::init(None);
    assert_eq!(tasks, vec![Task::DiscoverPlayers, Task::FindPlayer]);
    assert!(applet.config_manager().is_none());
}

#[test]
fn popup_opens_and_closes() {
    let mut a = applet(None);
    assert_eq!(a.update(Message::TogglePopup(7)), vec![Task::GetPopup(7)]);
    assert_eq!(a.popup(), Some(7));
    assert_eq!(a.update(Message::TogglePopup(8)), vec![Task::DestroyPopup(7)]);
    assert_eq!(a.popup(), None);
    assert_eq!(a.update(Message::TogglePopup(9)), vec![Task::GetPopup(9)]);
    assert_eq!(a.popup(), Some(9));
}

#[test]
fn closing_the_popup_goes_back_to_the_controls_tab() {
    let mut a = applet(None);
    a.update(Message::TogglePopup(7));
    assert_eq!(a.update(Message::SwitchTab(PopupTab::Settings)), Vec::new());
    assert_eq!(a.active_tab(), PopupTab::Settings);
    assert_eq!(a.update(Message::PopupClosed(3)), Vec::new());
    assert_eq!(a.popup(), Some(7));
    assert_eq!(a.active_tab(), PopupTab::Settings);
    assert_eq!(a.update(Message::PopupClosed(7)), Vec::new());
    assert_eq!(a.popup(), None);
    assert_eq!(a.active_tab(), PopupTab::Controls);
}

#[test]
fn a_closed_window_with_no_popup_open_changes_nothing() {
    let mut a = applet(None);
    a.update(Message::SwitchTab(PopupTab::Settings));
    assert_eq!(a.update(Message::PopupClosed(0)), Vec::new());
    assert_eq!(a.active_tab(), PopupTab::Settings);
    assert_eq!(a.popup(), None);
}

#[test]
fn selected_spotify_is_bound_while_paused() {
    let mut a = applet(Some(config(Some("Spotify"), &["Spotify", "VLC"], true)));
    let listing = Listing::Players(vec![
        report("Spotify", PlaybackStatus::Paused),
        report("VLC", PlaybackStatus::Stopped),
    ]);
    let tasks = a.update(Message::FindPlayer(listing));
    match &tasks[..] {
        [Task::UpdatePlayerInfo(info)] => assert_eq!(info.status, PlaybackStatus::Paused),
        other => panic!("unexpected tasks {:?}", other),
    }
    assert_eq!(a.update(Message::Next), vec![to_player("Spotify", Command::Next), Task::FindPlayer]);
    let info = a.music_controller().get_player_info();
    assert_eq!(info.status, PlaybackStatus::Paused);
    assert_eq!(info.title, "Unknown");
}

#[test]
fn without_selection_the_playing_rhythmbox_is_bound() {
    let mut a = applet(Some(config(None, &[], true)));
    let listing = Listing::Players(vec![
        report("VLC", PlaybackStatus::Stopped),
        report("Rhythmbox", PlaybackStatus::Playing),
    ]);
    let tasks = a.update(Message::FindPlayer(listing));
    match &tasks[..] {
        [Task::UpdatePlayerInfo(info)] => assert_eq!(info.status, PlaybackStatus::Playing),
        other => panic!("unexpected tasks {:?}", other),
    }
    assert_eq!(
        a.update(Message::Previous),
        vec![to_player("Rhythmbox", Command::Previous), Task::FindPlayer]
    );
}

#[test]
fn without_settings_the_playing_player_is_bound() {
    let mut a = applet(None);
    poll(&mut a, Listing::Players(vec![report("mpv", PlaybackStatus::Playing)]));
    assert_eq!(a.player_info().status, PlaybackStatus::Playing);
    assert_eq!(a.update(Message::Next), vec![to_player("mpv", Command::Next), Task::FindPlayer]);
}

#[test]
fn an_unreachable_selection_shows_the_default_snapshot() {
    let mut a = applet(Some(config(Some("Spotify"), &[], true)));
    let listing = Listing::Players(vec![
        report("VLC", PlaybackStatus::Playing),
        report("Rhythmbox", PlaybackStatus::Playing),
    ]);
    assert_eq!(
        a.update(Message::FindPlayer(listing)),
        vec![Task::UpdatePlayerInfo(PlayerInfo::default())]
    );
    assert_eq!(a.update(Message::Next), vec![Task::FindPlayer]);
}

#[test]
fn the_snapshot_is_shown_only_when_it_is_handed_back() {
    let mut a = applet(None);
    let tasks = a.update(Message::FindPlayer(Listing::Players(vec![report(
        "mpv",
        PlaybackStatus::Playing,
    )])));
    assert_eq!(*a.player_info(), PlayerInfo::default());
    match tasks.into_iter().next() {
        Some(Task::UpdatePlayerInfo(info)) => {
            assert_eq!(a.update(Message::UpdatePlayerInfo(info)), Vec::new());
        }
        other => panic!("unexpected task {:?}", other),
    }
    assert_eq!(a.player_info().status, PlaybackStatus::Playing);
    assert_eq!(a.player_info().title, "Unknown");
}

#[test]
fn play_pause_predicts_the_status_and_polls() {
    let mut a = applet(None);
    assert_eq!(
        a.update(Message::PlayPause),
        vec![Task::UpdateStatus(PlaybackStatus::Playing), Task::FindPlayer]
    );
    poll(&mut a, Listing::Players(vec![report("mpv", PlaybackStatus::Playing)]));
    assert_eq!(
        a.update(Message::PlayPause),
        vec![
            to_player("mpv", Command::PlayPause),
            Task::UpdateStatus(PlaybackStatus::Paused),
            Task::FindPlayer
        ]
    );
    assert_eq!(a.player_info().status, PlaybackStatus::Playing);
    assert_eq!(a.update(Message::UpdateStatus(PlaybackStatus::Paused)), Vec::new());
    assert_eq!(a.player_info().status, PlaybackStatus::Paused);
    assert_eq!(
        a.update(Message::MiddleClick),
        vec![
            to_player("mpv", Command::PlayPause),
            Task::UpdateStatus(PlaybackStatus::Playing),
            Task::FindPlayer
        ]
    );
}

#[test]
fn the_predicted_status_is_overwritten_by_the_next_poll() {
    let mut a = applet(None);
    let playing = Listing::Players(vec![report("mpv", PlaybackStatus::Playing)]);
    poll(&mut a, playing.clone());
    a.update(Message::UpdateStatus(PlaybackStatus::Paused));
    assert_eq!(a.player_info().status, PlaybackStatus::Paused);
    poll(&mut a, playing);
    assert_eq!(a.player_info().status, PlaybackStatus::Playing);
}

#[test]
fn scrolling_skips_tracks() {
    let mut a = applet(None);
    assert_eq!(a.update(Message::ScrollUp), vec![Task::FindPlayer]);
    assert_eq!(a.update(Message::ScrollDown), vec![Task::FindPlayer]);
    poll(&mut a, Listing::Players(vec![report("mpv", PlaybackStatus::Playing)]));
    assert_eq!(a.update(Message::ScrollUp), vec![to_player("mpv", Command::Next), Task::FindPlayer]);
    assert_eq!(
        a.update(Message::ScrollDown),
        vec![to_player("mpv", Command::Previous), Task::FindPlayer]
    );
}

#[test]
fn a_volume_change_is_sent_and_shown_at_once() {
    let mut a = applet(None);
    assert_eq!(a.update(Message::VolumeChanged(volume(0.25))), vec![Task::FindPlayer]);
    assert_eq!(a.player_info().volume, volume(0.25));
    poll(&mut a, Listing::Players(vec![report("mpv", PlaybackStatus::Playing)]));
    assert_eq!(a.player_info().volume, volume(0.5));
    assert_eq!(
        a.update(Message::VolumeChanged(volume(0.75))),
        vec![to_player("mpv", Command::SetVolume(volume(0.75))), Task::FindPlayer]
    );
    assert_eq!(f64::from_bits(a.player_info().volume.to_bits()), 0.75);
    assert_eq!(a.player_info().status, PlaybackStatus::Playing);
}

#[test]
fn new_art_is_asked_for_once() {
    let mut a = applet(None);
    let listing = Listing::Players(vec![with_art("mpv", PlaybackStatus::Playing, "http://a/1.jpg")]);
    assert_eq!(
        poll(&mut a, listing.clone()),
        vec![Task::LoadAlbumArt("http://a/1.jpg".to_string())]
    );
    assert_eq!(poll(&mut a, listing), Vec::new());
    assert_eq!(a.album_art().current_url(), Some("http://a/1.jpg".to_string()));
    assert_eq!(
        a.update(Message::LoadAlbumArt("http://a/1.jpg".to_string())),
        vec![Task::FetchArt("http://a/1.jpg".to_string())]
    );
    assert_eq!(a.album_art().image(), None);
    assert_eq!(
        a.update(Message::AlbumArtLoaded("http://a/1.jpg".to_string(), Some(vec![1, 2]))),
        Vec::new()
    );
    assert_eq!(a.album_art().image(), Some(&vec![1, 2]));
}

#[test]
fn late_art_for_an_earlier_url_is_not_shown() {
    let mut a = applet(None);
    let first = Listing::Players(vec![with_art("mpv", PlaybackStatus::Playing, "http://a/1.jpg")]);
    let second = Listing::Players(vec![with_art("mpv", PlaybackStatus::Playing, "http://a/2.jpg")]);
    assert_eq!(poll(&mut a, first), vec![Task::LoadAlbumArt("http://a/1.jpg".to_string())]);
    assert_eq!(poll(&mut a, second), vec![Task::LoadAlbumArt("http://a/2.jpg".to_string())]);
    a.update(Message::AlbumArtLoaded("http://a/1.jpg".to_string(), Some(vec![1])));
    assert_eq!(a.album_art().image(), None);
    a.update(Message::AlbumArtLoaded("http://a/2.jpg".to_string(), Some(vec![2])));
    assert_eq!(a.album_art().image(), Some(&vec![2]));
}

#[test]
fn art_goes_away_with_the_player() {
    let mut a = applet(None);
    poll(&mut a, Listing::Players(vec![with_art("mpv", PlaybackStatus::Playing, "u")]));
    a.update(Message::AlbumArtLoaded("u".to_string(), Some(vec![1])));
    assert_eq!(poll(&mut a, Listing::Unavailable), Vec::new());
    assert_eq!(*a.player_info(), PlayerInfo::default());
    assert_eq!(a.album_art().current_url(), None);
    assert_eq!(a.album_art().image(), None);
}

#[test]
fn discovery_enables_what_it_finds() {
    let mut a = applet(Some(config(None, &["Old"], true)));
    let listing = Listing::Players(vec![
        report("VLC", PlaybackStatus::Playing),
        report("Spotify", PlaybackStatus::Paused),
    ]);
    assert_eq!(a.update(Message::DiscoverPlayers(listing)), vec![Task::SaveConfig]);
    assert_eq!(discovered(&a), vec![("Spotify".to_string(), false), ("VLC".to_string(), true)]);
    assert_eq!(enabled(&a), vec!["Old".to_string(), "Spotify".to_string(), "VLC".to_string()]);
}

#[test]
fn discovery_of_enabled_players_keeps_the_enabled_set() {
    let mut a = applet(Some(config(None, &["VLC"], true)));
    let listing = Listing::Players(vec![report("VLC", PlaybackStatus::Playing)]);
    assert_eq!(a.update(Message::DiscoverPlayers(listing.clone())), Vec::new());
    assert_eq!(enabled(&a), vec!["VLC".to_string()]);
    assert_eq!(a.update(Message::DiscoverPlayers(listing)), Vec::new());
    assert_eq!(enabled(&a), vec!["VLC".to_string()]);
}

#[test]
fn discovery_without_auto_detect_enables_nothing() {
    let mut a = applet(Some(config(None, &["Old"], false)));
    let listing = Listing::Players(vec![report("VLC", PlaybackStatus::Playing)]);
    assert_eq!(a.update(Message::DiscoverPlayers(listing)), Vec::new());
    assert_eq!(discovered(&a), vec![("VLC".to_string(), true)]);
    assert_eq!(enabled(&a), vec!["Old".to_string()]);
}

#[test]
fn discovery_that_finds_nothing_writes_nothing() {
    let mut a = applet(Some(config(None, &["Old"], true)));
    a.update(Message::DiscoverPlayers(Listing::Players(vec![report(
        "VLC",
        PlaybackStatus::Playing,
    )])));
    assert_eq!(a.update(Message::DiscoverPlayers(Listing::Players(Vec::new()))), Vec::new());
    assert!(discovered(&a).is_empty());
    assert_eq!(a.update(Message::DiscoverPlayers(Listing::Unavailable)), Vec::new());
    assert!(discovered(&a).is_empty());
    assert_eq!(enabled(&a), vec!["Old".to_string(), "VLC".to_string()]);
}

#[test]
fn discovery_without_settings_fills_the_registry() {
    let mut a = applet(None);
    let listing = Listing::Players(vec![report("VLC", PlaybackStatus::Paused)]);
    assert_eq!(a.update(Message::DiscoverPlayers(listing)), Vec::new());
    assert_eq!(discovered(&a), vec![("VLC".to_string(), false)]);
}

#[test]
fn selecting_a_player_is_written_and_followed_by_a_poll() {
    let mut a = applet(Some(config(None, &[], true)));
    assert!(a.no_player_selected());
    assert_eq!(
        a.update(Message::SelectPlayer(Some("VLC".to_string()))),
        vec![Task::SaveConfig, Task::FindPlayer]
    );
    assert!(!a.no_player_selected());
    assert_eq!(a.config_manager().unwrap().get_selected_player(), Some("VLC".to_string()));
    assert_eq!(a.update(Message::SelectPlayer(None)), vec![Task::SaveConfig, Task::FindPlayer]);
    assert!(a.no_player_selected());
}

#[test]
fn selecting_a_player_without_settings_only_polls() {
    let mut a = applet(None);
    assert_eq!(a.update(Message::SelectPlayer(Some("VLC".to_string()))), vec![Task::FindPlayer]);
    assert!(a.no_player_selected());
    poll(
        &mut a,
        Listing::Players(vec![
            report("VLC", PlaybackStatus::Paused),
            report("mpv", PlaybackStatus::Playing),
        ]),
    );
    assert_eq!(a.update(Message::Next), vec![to_player("mpv", Command::Next), Task::FindPlayer]);
}

#[test]
fn a_new_selection_rules_the_next_poll() {
    let mut a = applet(Some(config(None, &[], true)));
    let listing = Listing::Players(vec![
        report("VLC", PlaybackStatus::Paused),
        report("mpv", PlaybackStatus::Playing),
    ]);
    poll(&mut a, listing.clone());
    assert_eq!(a.player_info().status, PlaybackStatus::Playing);
    a.update(Message::SelectPlayer(Some("VLC".to_string())));
    poll(&mut a, listing.clone());
    assert_eq!(a.player_info().status, PlaybackStatus::Paused);
    a.update(Message::SelectPlayer(Some("Gone".to_string())));
    poll(&mut a, listing);
    assert_eq!(*a.player_info(), PlayerInfo::default());
}

#[test]
fn toggling_auto_detect_is_written() {
    let mut a = applet(Some(config(None, &[], true)));
    assert_eq!(a.update(Message::ToggleAutoDetect(false)), vec![Task::SaveConfig]);
    assert!(!a.config_manager().unwrap().get_auto_detect_new_players());
    assert_eq!(a.update(Message::ToggleAutoDetect(true)), vec![Task::SaveConfig]);
    assert!(a.config_manager().unwrap().get_auto_detect_new_players());
    let mut bare = applet(None);
    assert_eq!(bare.update(Message::ToggleAutoDetect(false)), Vec::new());
}

#[test]
fn toggling_a_player_is_written_and_followed_by_a_poll() {
    let mut a = applet(Some(config(None, &["VLC"], false)));
    assert_eq!(
        a.update(Message::TogglePlayerEnabled("mpv".to_string(), true)),
        vec![Task::SaveConfig, Task::FindPlayer]
    );
    assert_eq!(enabled(&a), vec!["VLC".to_string(), "mpv".to_string()]);
    assert_eq!(
        a.update(Message::TogglePlayerEnabled("VLC".to_string(), false)),
        vec![Task::SaveConfig, Task::FindPlayer]
    );
    assert_eq!(enabled(&a), vec!["mpv".to_string()]);
    let mut bare = applet(None);
    assert_eq!(
        bare.update(Message::TogglePlayerEnabled("mpv".to_string(), true)),
        vec![Task::FindPlayer]
    );
}

#[test]
fn handlers_can_be_called_directly() {
    let mut a = applet(None);
    assert_eq!(a.handle_toggle_popup(4), vec![Task::GetPopup(4)]);
    assert_eq!(a.handle_switch_tab(PopupTab::Settings), Vec::new());
    assert_eq!(a.handle_popup_closed(4), Vec::new());
    assert_eq!(a.active_tab(), PopupTab::Controls);
    let listing = Listing::Players(vec![with_art("mpv", PlaybackStatus::Playing, "u")]);
    let tasks = a.handle_find_player(&listing);
    assert_eq!(tasks.len(), 1);
    let info = a.music_controller().get_player_info();
    assert_eq!(a.handle_update_player_info(info), vec![Task::LoadAlbumArt("u".to_string())]);
    assert_eq!(a.handle_load_album_art("u".to_string()), vec![Task::FetchArt("u".to_string())]);
    assert_eq!(a.handle_album_art_loaded("u".to_string(), None), Vec::new());
    assert_eq!(
        a.handle_play_pause(),
        vec![
            to_player("mpv", Command::PlayPause),
            Task::UpdateStatus(PlaybackStatus::Paused),
            Task::FindPlayer
        ]
    );
    assert_eq!(a.handle_next(), vec![to_player("mpv", Command::Next), Task::FindPlayer]);
    assert_eq!(a.handle_previous(), vec![to_player("mpv", Command::Previous), Task::FindPlayer]);
    assert_eq!(a.handle_update_status(PlaybackStatus::Stopped), Vec::new());
    assert_eq!(
        a.handle_volume_changed(volume(1.0)),
        vec![to_player("mpv", Command::SetVolume(volume(1.0))), Task::FindPlayer]
    );
    assert_eq!(a.handle_discover_players(&listing), Vec::new());
    assert_eq!(a.handle_toggle_player_enabled("mpv".to_string(), true), vec![Task::FindPlayer]);
    assert_eq!(a.handle_toggle_auto_detect(true), Vec::new());
    assert_eq!(a.handle_select_player(None), vec![Task::FindPlayer]);
}

#[test]
fn the_bus_is_polled_twice_a_second() {
    assert_eq!(POLL_INTERVAL_MS, 500);
}

#[test]
fn discovery_writes_the_settings_only_when_a_player_was_newly_enabled() {
    let mut a = applet(Some(config(None, &["VLC"], true)));
    let both = Listing::Players(vec![
        report("VLC", PlaybackStatus::Playing),
        report("mpv", PlaybackStatus::Paused),
    ]);
    assert_eq!(a.update(Message::DiscoverPlayers(both.clone())), vec![Task::SaveConfig]);
    assert_eq!(enabled(&a), vec!["VLC".to_string(), "mpv".to_string()]);
    assert_eq!(a.update(Message::DiscoverPlayers(both)), Vec::new());
    assert_eq!(enabled(&a), vec!["VLC".to_string(), "mpv".to_string()]);
}

#[test]
fn a_tick_asks_for_discovery_and_a_poll() {
    let mut a = applet(Some(config(Some("VLC"), &[], true)));
    assert_eq!(a.update(Message::Tick), vec![Task::DiscoverPlayers, Task::FindPlayer]);
    assert_eq!(a.handle_tick(), vec![Task::DiscoverPlayers, Task::FindPlayer]);
    assert_eq!(*a.player_info(), PlayerInfo::default());
    assert!(a.music_controller().get_discovered_players().is_empty());
}

#[test]
fn a_playing_player_that_cannot_be_read_is_bound_and_shown_as_active() {
    let mut a = applet(None);
    let listing = Listing::Players(vec![
        report("mpv", PlaybackStatus::Paused),
        PlayerReport {
            identity: "VLC".to_string(),
            bus_name: bus("VLC"),
            is_playing: true,
            reading: None,
        },
    ]);
    a.update(Message::DiscoverPlayers(listing.clone()));
    assert_eq!(discovered(&a), vec![("VLC".to_string(), true), ("mpv".to_string(), false)]);
    poll(&mut a, listing);
    assert_eq!(*a.player_info(), PlayerInfo::default());
    assert_eq!(a.update(Message::Next), vec![to_player("VLC", Command::Next), Task::FindPlayer]);
}

#[test]
fn a_poll_never_asks_to_show_a_volume_outside_zero_to_one() {
    let mut a = applet(None);
    let mut loud = report("mpv", PlaybackStatus::Playing);
    if let Some(reading) = loud.reading.as_mut() {
        reading.volume = Some(volume(2.0));
    }
    poll(&mut a, Listing::Players(vec![loud]));
    assert_eq!(f64::from_bits(a.player_info().volume.to_bits()), 0.5);
    assert_eq!(a.player_info().status, PlaybackStatus::Playing);
}
