use music_player::art::AlbumArtState;
use music_player::music::{DiscoveredPlayer, PlaybackStatus, PlayerInfo};
use music_player::app::PopupTab;
use music_player::view::{
    album_cover, radio_label, selected_index, tab_label, AlbumCover, AppIcon,
};

fn player(identity: &str, is_active: bool) -> DiscoveredPlayer {
    DiscoveredPlayer { identity: identity.to_string(), is_active }
}

#[test]
fn icon_names() {
    assert_eq!(AppIcon::Playing.to_str(), "media-playback-start-symbolic");
    assert_eq!(AppIcon::Paused.to_str(), "media-playback-pause-symbolic");
}

#[test]
fn icon_shows_the_action_not_the_state() {
    assert_eq!(AppIcon::for_status(PlaybackStatus::Playing), AppIcon::Paused);
    assert_eq!(AppIcon::for_status(PlaybackStatus::Paused), AppIcon::Playing);
    assert_eq!(AppIcon::for_status(PlaybackStatus::Stopped), AppIcon::Playing);
}

#[test]
fn cover_is_image_loading_or_placeholder() {
    let mut art = AlbumArtState::new();
    let mut info = PlayerInfo::default();
    assert_eq!(album_cover(&art, &info), AlbumCover::Placeholder);
    info.art_url = Some("u".to_string());
    art.observe(&info.art_url);
    assert_eq!(album_cover(&art, &info), AlbumCover::Loading);
    art.deliver("u".to_string(), Some(vec![1]));
    assert_eq!(album_cover(&art, &info), AlbumCover::Image);
    art.deliver("u".to_string(), None);
    assert_eq!(album_cover(&art, &info), AlbumCover::Loading);
}

#[test]
fn no_selection_turns_on_the_none_button() {
    assert_eq!(selected_index(&None, &Vec::new()), Some(0));
    assert_eq!(selected_index(&None, &vec![player("VLC", true)]), Some(0));
}

#[test]
fn a_listed_selection_turns_on_its_own_button() {
    let players = vec![player("VLC", false), player("mpv", true), player("Spotify", false)];
    assert_eq!(selected_index(&Some("VLC".to_string()), &players), Some(1));
    assert_eq!(selected_index(&Some("mpv".to_string()), &players), Some(2));
    assert_eq!(selected_index(&Some("Spotify".to_string()), &players), Some(3));
}

#[test]
fn an_unlisted_selection_turns_on_no_button() {
    let players = vec![player("VLC", false)];
    assert_eq!(selected_index(&Some("Spotify".to_string()), &players), None);
    assert_eq!(selected_index(&Some("Spotify".to_string()), &Vec::new()), None);
}

#[test]
fn a_selection_listed_twice_turns_on_the_first_button() {
    let players = vec![player("a", false), player("VLC", false), player("VLC", true)];
    assert_eq!(selected_index(&Some("VLC".to_string()), &players), Some(2));
}

#[test]
fn radio_label_marks_the_playing_player() {
    assert_eq!(radio_label(&player("VLC", false)), "VLC");
    assert_eq!(radio_label(&player("VLC", true)), "VLC (\u{266a} currently playing)");
    assert_eq!(radio_label(&player("", true)), " (\u{266a} currently playing)");
}

#[test]
fn tab_labels_mark_the_current_tab() {
    assert_eq!(tab_label(PopupTab::Controls, PopupTab::Controls), "\u{25cf} Controls");
    assert_eq!(tab_label(PopupTab::Controls, PopupTab::Settings), "\u{25cb} Controls");
    assert_eq!(tab_label(PopupTab::Settings, PopupTab::Settings), "\u{25cf} Settings");
    assert_eq!(tab_label(PopupTab::Settings, PopupTab::Controls), "\u{25cb} Settings");
}
