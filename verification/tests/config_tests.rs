use music_player::config::{
    AppConfig, ConfigManager, PlayerSet, APP_ID, CONFIG_KEY, CONFIG_VERSION,
};

fn names(set: &PlayerSet) -> Vec<String> {
    let mut v = set.to_vec();
    v.sort();
    v
}

fn enabled(manager: &ConfigManager) -> Vec<String> {
    names(&manager.config().enabled_players)
}

#[test]
fn the_record_is_stored_under_fixed_names() {
    assert_eq!(APP_ID, "com.cosmic.MusicPlayer");
    assert_eq!(CONFIG_KEY, "config");
    assert_eq!(CONFIG_VERSION, 1);
}

#[test]
fn default_config_enables_nothing_selects_nothing_and_detects() {
    let config = AppConfig::default();
    assert!(names(&config.enabled_players).is_empty());
    assert!(config.auto_detect_new_players);
    assert_eq!(config.selected_player, None);
}

#[test]
fn a_missing_record_gives_defaults_to_be_written_at_once() {
    let (manager, rewrite) = ConfigManager::new(None);
    assert!(rewrite);
    assert!(enabled(&manager).is_empty());
    assert!(manager.get_auto_detect_new_players());
    assert_eq!(manager.get_selected_player(), None);
}

#[test]
fn a_stored_record_is_taken_as_it_is() {
    let stored = AppConfig {
        enabled_players: PlayerSet::from_names(vec!["Spotify".to_string(), "VLC".to_string()]),
        auto_detect_new_players: false,
        selected_player: Some("Spotify".to_string()),
    };
    let (manager, rewrite) = ConfigManager::new(Some(stored));
    assert!(!rewrite);
    assert_eq!(enabled(&manager), vec!["Spotify".to_string(), "VLC".to_string()]);
    assert!(!manager.get_auto_detect_new_players());
    assert_eq!(manager.get_selected_player(), Some("Spotify".to_string()));
}

#[test]
fn selection_can_be_set_and_cleared() {
    let (mut manager, _) = ConfigManager::new(None);
    assert!(manager.set_selected_player(Some("VLC".to_string())));
    assert_eq!(manager.get_selected_player(), Some("VLC".to_string()));
    assert!(manager.set_selected_player(Some("mpv".to_string())));
    assert_eq!(manager.get_selected_player(), Some("mpv".to_string()));
    assert!(manager.set_selected_player(None));
    assert_eq!(manager.get_selected_player(), None);
    assert!(manager.get_auto_detect_new_players());
    assert!(enabled(&manager).is_empty());
}

#[test]
fn auto_detect_can_be_switched() {
    let (mut manager, _) = ConfigManager::new(None);
    assert!(manager.set_auto_detect_new_players(false));
    assert!(!manager.get_auto_detect_new_players());
    assert!(manager.set_auto_detect_new_players(true));
    assert!(manager.get_auto_detect_new_players());
}

#[test]
fn discovered_players_are_enabled_while_auto_detect_is_on() {
    let (mut manager, _) = ConfigManager::new(None);
    assert!(manager.add_discovered_player("VLC".to_string()));
    assert!(manager.add_discovered_player("Spotify".to_string()));
    assert_eq!(enabled(&manager), vec!["Spotify".to_string(), "VLC".to_string()]);
    assert!(manager.is_player_enabled(&"VLC".to_string()));
    assert!(!manager.is_player_enabled(&"mpv".to_string()));
}

#[test]
fn discovering_an_enabled_player_again_changes_nothing() {
    let (mut manager, _) = ConfigManager::new(None);
    assert!(manager.add_discovered_player("VLC".to_string()));
    assert!(!manager.add_discovered_player("VLC".to_string()));
    assert_eq!(enabled(&manager), vec!["VLC".to_string()]);
}

#[test]
fn discovered_players_are_left_out_while_auto_detect_is_off() {
    let (mut manager, _) = ConfigManager::new(None);
    manager.set_auto_detect_new_players(false);
    assert!(!manager.add_discovered_player("VLC".to_string()));
    assert!(enabled(&manager).is_empty());
}

#[test]
fn players_can_be_enabled_and_disabled_by_hand() {
    let (mut manager, _) = ConfigManager::new(None);
    manager.set_auto_detect_new_players(false);
    assert!(manager.set_player_enabled("VLC".to_string(), true));
    assert!(manager.set_player_enabled("mpv".to_string(), true));
    assert_eq!(enabled(&manager), vec!["VLC".to_string(), "mpv".to_string()]);
    assert!(manager.set_player_enabled("VLC".to_string(), false));
    assert_eq!(enabled(&manager), vec!["mpv".to_string()]);
    assert!(manager.set_player_enabled("absent".to_string(), false));
    assert_eq!(enabled(&manager), vec!["mpv".to_string()]);
}

#[test]
fn player_set_insert_contains_remove() {
    let mut set = PlayerSet::new();
    assert!(!set.contains(&"a".to_string()));
    assert!(set.insert("a".to_string()));
    assert!(!set.insert("a".to_string()));
    assert!(set.insert("b".to_string()));
    assert!(set.insert("c".to_string()));
    assert!(set.contains(&"a".to_string()));
    assert_eq!(names(&set), vec!["a".to_string(), "b".to_string(), "c".to_string()]);
    assert!(set.remove(&"b".to_string()));
    assert!(!set.remove(&"b".to_string()));
    assert!(!set.contains(&"b".to_string()));
    assert_eq!(names(&set), vec!["a".to_string(), "c".to_string()]);
    assert!(set.remove(&"a".to_string()));
    assert!(set.remove(&"c".to_string()));
    assert!(set.to_vec().is_empty());
}

#[test]
fn player_set_from_names_holds_each_name_once() {
    let set = PlayerSet::from_names(vec![
        "b".to_string(),
        "a".to_string(),
        "b".to_string(),
        "".to_string(),
    ]);
    assert_eq!(names(&set), vec!["".to_string(), "a".to_string(), "b".to_string()]);
    assert_eq!(names(&set.duplicate()), names(&set));
    assert!(PlayerSet::from_names(Vec::new()).to_vec().is_empty());
}

#[test]
fn config_copy_has_the_same_fields() {
    let config = AppConfig {
        enabled_players: PlayerSet::from_names(vec!["VLC".to_string()]),
        auto_detect_new_players: false,
        selected_player: Some("VLC".to_string()),
    };
    let copy = config.duplicate();
    assert_eq!(names(&copy.enabled_players), vec!["VLC".to_string()]);
    assert!(!copy.auto_detect_new_players);
    assert_eq!(copy.selected_player, Some("VLC".to_string()));
}
