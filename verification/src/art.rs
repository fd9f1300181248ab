//! Album art: which URL is tracked, when a fetch is due, and which fetch
//! results are taken.

use crate::music::{clone_opt_string, opt_str_view};
use vstd::prelude::*;

verus! {

/// Mathematical form of an [`AlbumArt`].
pub struct AlbumArtView {
    pub url: Seq<char>,
    pub bytes: Seq<u8>,
}

/// The bytes of an image and the URL they were fetched from.
#[derive(Debug, Clone, PartialEq, Eq)]
pub struct AlbumArt {
    pub url: String,
    pub bytes: Vec<u8>,
}

impl View for AlbumArt {
    type V = AlbumArtView;

    open spec fn view(&self) -> AlbumArtView {
        AlbumArtView { url: self.url@, bytes: self.bytes@ }
    }
}

/// Mathematical form of an [`AlbumArtState`].
pub struct AlbumArtStateView {
    pub current_url: Option<Seq<char>>,
    pub decoded_handle: Option<AlbumArtView>,
}

impl AlbumArtStateView {
    /// The image held, if any, was fetched from the URL that is tracked.
    pub open spec fn well_formed(self) -> bool {
        self.decoded_handle matches Some(art) ==> self.current_url == Some(art.url)
    }

    /// Nothing tracked and no image.
    pub open spec fn empty() -> AlbumArtStateView {
        AlbumArtStateView { current_url: None, decoded_handle: None }
    }

    /// The state after a snapshot with art URL `new_url` was seen. A URL
    /// that differs from the tracked one is tracked in its place and the
    /// image is dropped; no URL drops both; the same URL changes nothing.
    pub open spec fn observe(self, new_url: Option<Seq<char>>) -> AlbumArtStateView {
        if new_url == self.current_url {
            self
        } else {
            AlbumArtStateView { current_url: new_url, decoded_handle: None }
        }
    }

    /// The URL to fetch after a snapshot with art URL `new_url` was seen:
    /// the new URL if it differs from the tracked one, else none.
    pub open spec fn fetch_due(self, new_url: Option<Seq<char>>) -> Option<Seq<char>> {
        if new_url == self.current_url {
            None
        } else {
            new_url
        }
    }

    /// The state after the fetch of `url` ended with `result` (`None` for a
    /// failed download). A result for the tracked URL replaces the image; a
    /// result for any other URL is dropped.
    pub open spec fn deliver(self, url: Seq<char>, result: Option<Seq<u8>>) -> AlbumArtStateView {
        if self.current_url == Some(url) {
            AlbumArtStateView {
                current_url: self.current_url,
                decoded_handle: match result {
                    Some(bytes) => Some(AlbumArtView { url, bytes }),
                    None => None,
                },
            }
        } else {
            self
        }
    }
}

/// The tracked art URL and the image fetched from it, if it has arrived.
pub struct AlbumArtState {
    current_url: Option<String>,
    decoded_handle: Option<AlbumArt>,
}

/// View of an optional image.
pub open spec fn opt_art_view(art: Option<AlbumArt>) -> Option<AlbumArtView> {
    match art {
        Some(a) => Some(a@),
        None => None,
    }
}

/// View of optional bytes.
pub open spec fn opt_bytes_view(bytes: Option<Vec<u8>>) -> Option<Seq<u8>> {
    match bytes {
        Some(b) => Some(b@),
        None => None,
    }
}

impl View for AlbumArtState {
    type V = AlbumArtStateView;

    closed spec fn view(&self) -> AlbumArtStateView {
        AlbumArtStateView {
            current_url: opt_str_view(self.current_url),
            decoded_handle: opt_art_view(self.decoded_handle),
        }
    }
}

impl AlbumArtState {
    #[verifier::type_invariant]
    spec fn consistent(&self) -> bool {
        self@.well_formed()
    }

    /// The state with nothing tracked and no image.
    pub fn new() -> (state: AlbumArtState)
        ensures
            state@ == AlbumArtStateView::empty(),
    {
        AlbumArtState { current_url: None, decoded_handle: None }
    }

    /// The tracked URL.
    pub fn current_url(&self) -> (url: Option<String>)
        ensures
            opt_str_view(url) == self@.current_url,
            self@.well_formed(),
    {
        proof {
            use_type_invariant(self);
        }
        clone_opt_string(&self.current_url)
    }

    /// The bytes of the image held.
    pub fn image(&self) -> (bytes: Option<&Vec<u8>>)
        ensures
            match bytes {
                Some(b) => self@.decoded_handle matches Some(art) && art.bytes == b@,
                None => self@.decoded_handle is None,
            },
            self@.well_formed(),
    {
        proof {
            use_type_invariant(self);
        }
        match &self.decoded_handle {
            Some(art) => Some(&art.bytes),
            None => None,
        }
    }

    /// Whether `url` is the tracked URL.
    fn tracks(&self, url: &Option<String>) -> (same: bool)
        ensures
            same == (opt_str_view(*url) == self@.current_url),
    {
        match (&self.current_url, url) {
            (Some(old_url), Some(new_url)) => *old_url == *new_url,
            (None, None) => true,
            _ => false,
        }
    }

    /// Takes note of the art URL of a new snapshot and returns the URL to
    /// fetch, if a fetch is due.
    pub fn observe(&mut self, new_url: &Option<String>) -> (fetch: Option<String>)
        ensures
            final(self)@ == old(self)@.observe(opt_str_view(*new_url)),
            opt_str_view(fetch) == old(self)@.fetch_due(opt_str_view(*new_url)),
    {
        if self.tracks(new_url) {
            None
        } else {
            *self = AlbumArtState { current_url: clone_opt_string(new_url), decoded_handle: None };
            clone_opt_string(new_url)
        }
    }

    /// Takes the result of the fetch of `url`, unless another URL is tracked
    /// by now.
    pub fn deliver(&mut self, url: String, result: Option<Vec<u8>>)
        ensures
            final(self)@ == old(self)@.deliver(url@, opt_bytes_view(result)),
    {
        let current = match &self.current_url {
            Some(held) => *held == url,
            None => false,
        };
        if current {
            let decoded_handle = match result {
                Some(bytes) => Some(AlbumArt { url: url.clone(), bytes }),
                None => None,
            };
            *self = AlbumArtState { current_url: Some(url), decoded_handle };
        }
    }
}

/// Observing and delivering keep the image, if any, with the tracked URL.
pub proof fn lemma_art_stays_well_formed(
    state: AlbumArtStateView,
    new_url: Option<Seq<char>>,
    url: Seq<char>,
    result: Option<Seq<u8>>,
)
    requires
        state.well_formed(),
    ensures
        state.observe(new_url).well_formed(),
        state.deliver(url, result).well_formed(),
{
}

/// The same art URL seen twice in a row is fetched once: the first sight of
/// a URL that is not yet tracked asks for its fetch, the second asks for
/// nothing and changes nothing.
pub proof fn lemma_same_url_fetched_once(state: AlbumArtStateView, url: Seq<char>)
    requires
        state.current_url != Some(url),
    ensures
        state.fetch_due(Some(url)) == Some(url),
        state.observe(Some(url)).fetch_due(Some(url)) is None,
        state.observe(Some(url)).observe(Some(url)) == state.observe(Some(url)),
{
}

/// Seeing the URL that is tracked already asks for no fetch and changes
/// nothing, whatever the state.
pub proof fn lemma_tracked_url_not_fetched(state: AlbumArtStateView)
    ensures
        state.fetch_due(state.current_url) is None,
        state.observe(state.current_url) == state,
{
}

/// A result that arrives for a URL that is no longer tracked is dropped.
pub proof fn lemma_stale_result_dropped(
    state: AlbumArtStateView,
    stale: Seq<char>,
    result: Option<Seq<u8>>,
)
    requires
        state.current_url != Some(stale),
    ensures
        state.deliver(stale, result) == state,
{
}

/// When the URL changes before the first fetch has ended, the late result
/// for the first URL leaves no image, and the result for the second URL is
/// the image held from then on.
pub proof fn lemma_newer_url_supersedes(
    state: AlbumArtStateView,
    first: Seq<char>,
    second: Seq<char>,
    first_bytes: Seq<u8>,
    second_bytes: Seq<u8>,
)
    requires
        first != second,
    ensures
        state.observe(Some(first)).observe(Some(second)).deliver(
            first,
            Some(first_bytes),
        ).decoded_handle is None,
        state.observe(Some(first)).observe(Some(second)).deliver(first, Some(first_bytes)).deliver(
            second,
            Some(second_bytes),
        ).decoded_handle == Some(AlbumArtView { url: second, bytes: second_bytes }),
{
}

} // verus!
