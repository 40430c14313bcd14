//! The platform adapters' own logic: how each platform's raw session fields
//! become a snapshot, and which session a transport command may go to. The
//! native calls themselves are made outside the library.
use vstd::prelude::*;
use crate::identifiers::{app_display_name, bundle_display_name, clean_app_name, clean_bundle_id};
use crate::snapshot::{art_view, MediaTrackInfo, TrackView};
use crate::text::text_views;

verus! {

/// A native playback state.
#[derive(Clone, Copy, Debug, PartialEq, Eq, Structural)]
pub enum PlaybackStatus {
    Playing,
    Paused,
    Stopped,
}

/// A transport command sent to the current session.
#[derive(Clone, Copy, Debug, PartialEq, Eq, Structural)]
pub enum TransportCommand {
    PlayPause,
    Next,
    Previous,
}

impl TransportCommand {
    /// Whether the command may go to the first listed session when no session
    /// is active. Skipping tracks on a session that is not active is
    /// ambiguous, so only play/pause does.
    pub fn falls_back_to_first_session(&self) -> (r: bool)
        ensures
            r == (*self == TransportCommand::PlayPause),
    {
        match self {
            TransportCommand::PlayPause => true,
            _ => false,
        }
    }
}

/// Playing exactly when the state was read and is `Playing`.
pub open spec fn playing(status: Option<PlaybackStatus>) -> bool {
    status == Some(PlaybackStatus::Playing)
}

fn is_playing(status: Option<PlaybackStatus>) -> (r: bool)
    ensures
        r == playing(status),
{
    match status {
        Some(PlaybackStatus::Playing) => true,
        _ => false,
    }
}

/// The text held, or `default` when there is none.
pub open spec fn text_or(t: Option<String>, default: Seq<char>) -> Seq<char> {
    match t {
        Some(s) => s@,
        None => default,
    }
}

fn take_or_empty(t: Option<String>) -> (r: String)
    ensures
        r@ == text_or(t, Seq::empty()),
{
    match t {
        Some(s) => s,
        None => String::new(),
    }
}

fn take_or(t: Option<String>, default: &str) -> (r: String)
    ensures
        r@ == text_or(t, default@),
{
    match t {
        Some(s) => s,
        None => default.to_owned(),
    }
}

/// The parts written one after another with `sep` between two neighbours.
pub open spec fn joined(parts: Seq<Seq<char>>, sep: Seq<char>) -> Seq<char>
    decreases parts.len(),
{
    if parts.len() == 0 {
        Seq::empty()
    } else if parts.len() == 1 {
        parts[0]
    } else {
        joined(parts.drop_last(), sep) + sep + parts.last()
    }
}

fn join(parts: &Vec<String>, sep: &str) -> (r: String)
    ensures
        r@ == joined(text_views(parts@), sep@),
{
    if parts.len() == 0 {
        return String::new();
    }
    let mut r = parts[0].clone();
    let mut i: usize = 1;
    assert(text_views(parts@).take(1).drop_last() =~= Seq::<Seq<char>>::empty());
    while i < parts.len()
        invariant
            1 <= i <= parts@.len(),
            r@ == joined(text_views(parts@).take(i as int), sep@),
        decreases parts@.len() - i,
    {
        r.append(sep);
        r.append(parts[i].as_str());
        assert(text_views(parts@).take(i + 1).drop_last() =~= text_views(parts@).take(i as int));
        i = i + 1;
    }
    assert(text_views(parts@).take(parts@.len() as int) =~= text_views(parts@));
    r
}

/// Adapter for the bus-based media-player protocol.
pub struct LinuxMediaManager;

impl LinuxMediaManager {
    pub fn new() -> Self {
        LinuxMediaManager
    }

    /// The snapshot for one player: missing title and artists read as
    /// `"Unknown Title"` and `"Unknown Artist"`, several artists are joined
    /// with `", "`, a missing album is empty.
    pub fn snapshot(
        identity: String,
        status: Option<PlaybackStatus>,
        title: Option<String>,
        artists: Option<Vec<String>>,
        album: Option<String>,
        album_art: Option<Vec<u8>>,
    ) -> (r: MediaTrackInfo)
        ensures
            r@ == (TrackView {
                title: text_or(title, "Unknown Title"@),
                artist: match artists {
                    Some(a) => joined(text_views(a@), ", "@),
                    None => "Unknown Artist"@,
                },
                album: text_or(album, Seq::empty()),
                is_playing: playing(status),
                source_app: identity@,
                album_art: art_view(album_art),
            }),
    {
        let artist = match &artists {
            Some(a) => join(a, ", "),
            None => "Unknown Artist".to_owned(),
        };
        MediaTrackInfo {
            title: take_or(title, "Unknown Title"),
            artist,
            album: take_or_empty(album),
            is_playing: is_playing(status),
            source_app: identity,
            album_art,
        }
    }
}

/// Adapter for the private, versioned media-remote service.
pub struct MacMediaManager;

impl MacMediaManager {
    pub fn new() -> Self {
        MacMediaManager
    }

    /// The snapshot for the now-playing record: missing texts read as empty,
    /// the bundle id is cleaned into a display name, the artwork bytes are
    /// kept as they came.
    pub fn snapshot(
        title: Option<String>,
        artist: Option<String>,
        album: Option<String>,
        bundle_id: Option<String>,
        artwork: Option<Vec<u8>>,
        is_playing: bool,
    ) -> (r: MediaTrackInfo)
        ensures
            r@ == (TrackView {
                title: text_or(title, Seq::empty()),
                artist: text_or(artist, Seq::empty()),
                album: text_or(album, Seq::empty()),
                is_playing,
                source_app: bundle_display_name(text_or(bundle_id, Seq::empty())),
                album_art: art_view(artwork),
            }),
    {
        let id = take_or_empty(bundle_id);
        MediaTrackInfo {
            title: take_or_empty(title),
            artist: take_or_empty(artist),
            album: take_or_empty(album),
            is_playing,
            source_app: clean_bundle_id(id.as_str()),
            album_art: artwork,
        }
    }
}

/// Adapter for the asynchronous OS session manager.
#[derive(Clone, Copy)]
pub struct WindowsMediaManager;

impl WindowsMediaManager {
    pub fn new() -> Self {
        WindowsMediaManager
    }

    /// The snapshot for the current session: missing texts read as empty, the
    /// application id is cleaned into a display name, and there is no
    /// artwork.
    pub fn snapshot(
        app_id: Option<String>,
        status: Option<PlaybackStatus>,
        title: Option<String>,
        artist: Option<String>,
        album: Option<String>,
    ) -> (r: MediaTrackInfo)
        ensures
            r@ == (TrackView {
                title: text_or(title, Seq::empty()),
                artist: text_or(artist, Seq::empty()),
                album: text_or(album, Seq::empty()),
                is_playing: playing(status),
                source_app: app_display_name(text_or(app_id, Seq::empty())),
                album_art: None,
            }),
    {
        let id = take_or_empty(app_id);
        MediaTrackInfo {
            title: take_or_empty(title),
            artist: take_or_empty(artist),
            album: take_or_empty(album),
            is_playing: is_playing(status),
            source_app: clean_app_name(id.as_str()),
            album_art: None,
        }
    }
}

} // verus!
