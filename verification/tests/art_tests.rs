use music_player::art::AlbumArtState;

fn url(s: &str) -> Option<String> {
    Some(s.to_string())
}

#[test]
fn a_new_state_tracks_nothing() {
    let state = AlbumArtState::new();
    assert_eq!(state.current_url(), None);
    assert_eq!(state.image(), None);
}

#[test]
fn a_first_url_is_fetched() {
    let mut state = AlbumArtState::new();
    assert_eq!(state.observe(&url("http://a/1.jpg")), url("http://a/1.jpg"));
    assert_eq!(state.current_url(), url("http://a/1.jpg"));
    assert_eq!(state.image(), None);
}

#[test]
fn no_url_after_no_url_does_nothing() {
    let mut state = AlbumArtState::new();
    assert_eq!(state.observe(&None), None);
    assert_eq!(state.current_url(), None);
    assert_eq!(state.image(), None);
}

#[test]
fn the_same_url_twice_is_fetched_once() {
    let mut state = AlbumArtState::new();
    let first = state.observe(&url("http://a/1.jpg"));
    let second = state.observe(&url("http://a/1.jpg"));
    assert_eq!(first, url("http://a/1.jpg"));
    assert_eq!(second, None);
    assert_eq!(state.current_url(), url("http://a/1.jpg"));
}

#[test]
fn the_same_url_again_keeps_the_image() {
    let mut state = AlbumArtState::new();
    state.observe(&url("u"));
    state.deliver("u".to_string(), Some(vec![1, 2, 3]));
    assert_eq!(state.observe(&url("u")), None);
    assert_eq!(state.image(), Some(&vec![1, 2, 3]));
}

#[test]
fn a_changed_url_is_fetched_and_drops_the_image() {
    let mut state = AlbumArtState::new();
    state.observe(&url("http://a/1.jpg"));
    state.deliver("http://a/1.jpg".to_string(), Some(vec![1]));
    assert_eq!(state.image(), Some(&vec![1]));
    assert_eq!(state.observe(&url("http://a/2.jpg")), url("http://a/2.jpg"));
    assert_eq!(state.current_url(), url("http://a/2.jpg"));
    assert_eq!(state.image(), None);
}

#[test]
fn a_vanished_url_clears_url_and_image_without_a_fetch() {
    let mut state = AlbumArtState::new();
    state.observe(&url("http://a/1.jpg"));
    state.deliver("http://a/1.jpg".to_string(), Some(vec![1]));
    assert_eq!(state.observe(&None), None);
    assert_eq!(state.current_url(), None);
    assert_eq!(state.image(), None);
}

#[test]
fn a_url_that_comes_back_is_fetched_again() {
    let mut state = AlbumArtState::new();
    state.observe(&url("u"));
    state.observe(&None);
    assert_eq!(state.observe(&url("u")), url("u"));
}

#[test]
fn a_stale_result_is_dropped_and_the_newer_one_taken() {
    let mut state = AlbumArtState::new();
    assert_eq!(state.observe(&url("http://a/1.jpg")), url("http://a/1.jpg"));
    assert_eq!(state.observe(&url("http://a/2.jpg")), url("http://a/2.jpg"));
    state.deliver("http://a/1.jpg".to_string(), Some(vec![1, 1, 1]));
    assert_eq!(state.image(), None);
    assert_eq!(state.current_url(), url("http://a/2.jpg"));
    state.deliver("http://a/2.jpg".to_string(), Some(vec![2, 2]));
    assert_eq!(state.image(), Some(&vec![2, 2]));
    assert_eq!(state.current_url(), url("http://a/2.jpg"));
}

#[test]
fn a_stale_result_does_not_replace_an_image() {
    let mut state = AlbumArtState::new();
    state.observe(&url("a"));
    state.observe(&url("b"));
    state.deliver("b".to_string(), Some(vec![2]));
    state.deliver("a".to_string(), Some(vec![1]));
    assert_eq!(state.image(), Some(&vec![2]));
    state.deliver("a".to_string(), None);
    assert_eq!(state.image(), Some(&vec![2]));
}

#[test]
fn a_result_with_nothing_tracked_is_dropped() {
    let mut state = AlbumArtState::new();
    state.deliver("a".to_string(), Some(vec![1]));
    assert_eq!(state.image(), None);
    assert_eq!(state.current_url(), None);
}

#[test]
fn a_failed_fetch_leaves_no_image_and_keeps_the_url() {
    let mut state = AlbumArtState::new();
    state.observe(&url("u"));
    state.deliver("u".to_string(), None);
    assert_eq!(state.image(), None);
    assert_eq!(state.current_url(), url("u"));
    assert_eq!(state.observe(&url("u")), None);
}

#[test]
fn a_failed_fetch_of_the_current_url_drops_an_earlier_image() {
    let mut state = AlbumArtState::new();
    state.observe(&url("u"));
    state.deliver("u".to_string(), Some(vec![9]));
    state.deliver("u".to_string(), None);
    assert_eq!(state.image(), None);
    assert_eq!(state.current_url(), url("u"));
}

#[test]
fn an_empty_image_is_an_image() {
    let mut state = AlbumArtState::new();
    state.observe(&url("u"));
    state.deliver("u".to_string(), Some(Vec::new()));
    assert_eq!(state.image(), Some(&Vec::new()));
}
