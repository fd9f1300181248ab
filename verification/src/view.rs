//! What the presentation layer shows: the choices that depend on the state,
//! without the widgets that draw them.

use crate::app::PopupTab;
use crate::art::AlbumArtState;
use crate::music::{opt_str_view, DiscoveredPlayer, PlaybackStatus, PlayerInfo};
use vstd::prelude::*;
use vstd::string::*;

verus! {

/// The icon of the panel button and of the play/pause control. It names the
/// action that a press would take, not the state.
#[derive(Clone, Copy, Debug, PartialEq, Eq, Structural)]
pub enum AppIcon {
    Playing,
    Paused,
}

impl AppIcon {
    /// The name of the icon in the icon theme.
    pub open spec fn name(self) -> Seq<char> {
        match self {
            AppIcon::Playing => "media-playback-start-symbolic"@,
            AppIcon::Paused => "media-playback-pause-symbolic"@,
        }
    }

    /// The name of the icon in the icon theme.
    pub fn to_str(&self) -> (name: &'static str)
        ensures
            name@ == self.name(),
    {
        match self {
            AppIcon::Playing => "media-playback-start-symbolic",
            AppIcon::Paused => "media-playback-pause-symbolic",
        }
    }

    /// The icon to show for `status`: the pause icon while playing, the play
    /// icon while paused or stopped.
    pub open spec fn spec_for_status(status: PlaybackStatus) -> AppIcon {
        match status {
            PlaybackStatus::Playing => AppIcon::Paused,
            PlaybackStatus::Paused => AppIcon::Playing,
            PlaybackStatus::Stopped => AppIcon::Playing,
        }
    }

    /// The icon to show for `status`.
    #[verifier::when_used_as_spec(spec_for_status)]
    pub fn for_status(status: PlaybackStatus) -> (icon: AppIcon)
        ensures
            icon == AppIcon::spec_for_status(status),
    {
        match status {
            PlaybackStatus::Playing => AppIcon::Paused,
            PlaybackStatus::Paused => AppIcon::Playing,
            PlaybackStatus::Stopped => AppIcon::Playing,
        }
    }
}

/// What stands in the place of the album cover.
#[derive(Clone, Copy, Debug, PartialEq, Eq, Structural)]
pub enum AlbumCover {
    /// The image that was fetched.
    Image,
    /// The snapshot names art that has not arrived.
    Loading,
    /// The snapshot names no art.
    Placeholder,
}

/// What to show as the album cover: the image if one is held, else a
/// loading mark if the snapshot names art, else the placeholder.
pub fn album_cover(art: &AlbumArtState, info: &PlayerInfo) -> (cover: AlbumCover)
    ensures
        cover == (if art@.decoded_handle is Some {
            AlbumCover::Image
        } else if info@.art_url is Some {
            AlbumCover::Loading
        } else {
            AlbumCover::Placeholder
        }),
{
    if art.image().is_some() {
        AlbumCover::Image
    } else if info.art_url.is_some() {
        AlbumCover::Loading
    } else {
        AlbumCover::Placeholder
    }
}

/// Whether `i` is the first place in `players` with identity `name`.
pub open spec fn first_listed_at(players: Seq<DiscoveredPlayer>, name: Seq<char>, i: int) -> bool {
    &&& 0 <= i < players.len()
    &&& players[i].identity@ == name
    &&& forall|j: int| 0 <= j < i ==> (#[trigger] players[j]).identity@ != name
}

/// The radio button that is on in the player selection, where button 0 is
/// "none" and button `i + 1` is the player at place `i`: button 0 when no
/// player is selected, the button of the selected player when it is listed,
/// and no button when it is not.
pub fn selected_index(current_selected: &Option<String>, players: &Vec<DiscoveredPlayer>) -> (index:
    Option<usize>)
    ensures
        match (opt_str_view(*current_selected), index) {
            (None, shown) => shown == Some(0usize),
            (Some(name), Some(shown)) => shown >= 1 && first_listed_at(
                players@,
                name,
                shown - 1,
            ),
            (Some(name), None) => forall|i: int|
                0 <= i < players.len() ==> (#[trigger] players@[i]).identity@ != name,
        },
{
    match current_selected {
        None => Some(0),
        Some(selected) => {
            let mut i: usize = 0;
            while i < players.len()
                invariant
                    i <= players.len(),
                    opt_str_view(*current_selected) == Some(selected@),
                    forall|j: int| 0 <= j < i ==> (#[trigger] players@[j]).identity@ != selected@,
                decreases players.len() - i,
            {
                if players[i].identity == *selected {
                    return Some(i + 1);
                }
                i = i + 1;
            }
            None
        },
    }
}

/// The text beside a player's radio button: its identity, followed by a
/// note if it is playing.
pub open spec fn radio_text(identity: Seq<char>, is_active: bool) -> Seq<char> {
    if is_active {
        identity + " (\u{266a} currently playing)"@
    } else {
        identity
    }
}

/// The text beside a player's radio button.
pub fn radio_label(player: &DiscoveredPlayer) -> (text: String)
    ensures
        text@ == radio_text(player@.identity, player@.is_active),
{
    let mut text = player.identity.clone();
    if player.is_active {
        text.append(" (\u{266a} currently playing)");
    }
    text
}

/// The text on the button of `tab`, marked as current or not.
pub open spec fn tab_text(tab: PopupTab, current: bool) -> Seq<char> {
    match (tab, current) {
        (PopupTab::Controls, true) => "\u{25cf} Controls"@,
        (PopupTab::Controls, false) => "\u{25cb} Controls"@,
        (PopupTab::Settings, true) => "\u{25cf} Settings"@,
        (PopupTab::Settings, false) => "\u{25cb} Settings"@,
    }
}

/// The text on the button of `tab` while `active_tab` is the current tab: a
/// filled circle before the name of the current tab, an empty one before
/// the other.
pub fn tab_label(tab: PopupTab, active_tab: PopupTab) -> (text: &'static str)
    ensures
        text@ == tab_text(tab, tab == active_tab),
{
    match tab {
        PopupTab::Controls => if active_tab == PopupTab::Controls {
            "\u{25cf} Controls"
        } else {
            "\u{25cb} Controls"
        },
        PopupTab::Settings => if active_tab == PopupTab::Settings {
            "\u{25cf} Settings"
        } else {
            "\u{25cb} Settings"
        },
    }
}

} // verus!
