use vstd::prelude::*;

verus! {

/// Mathematical model of a [`MediaTrackInfo`].
pub struct TrackView {
    pub title: Seq<char>,
    pub artist: Seq<char>,
    pub album: Seq<char>,
    pub is_playing: bool,
    pub source_app: Seq<char>,
    pub album_art: Option<Seq<u8>>,
}

/// One normalised observation of what is currently playing.
#[derive(Debug)]
pub struct MediaTrackInfo {
    pub title: String,
    pub artist: String,
    pub album: String,
    pub is_playing: bool,
    pub source_app: String,
    pub album_art: Option<Vec<u8>>,
}

pub open spec fn art_view(art: Option<Vec<u8>>) -> Option<Seq<u8>> {
    match art {
        Some(bytes) => Some(bytes@),
        None => None,
    }
}

impl View for MediaTrackInfo {
    type V = TrackView;

    open spec fn view(&self) -> TrackView {
        TrackView {
            title: self.title@,
            artist: self.artist@,
            album: self.album@,
            is_playing: self.is_playing,
            source_app: self.source_app@,
            album_art: art_view(self.album_art),
        }
    }
}

/// Byte-for-byte comparison of two artwork buffers.
fn same_bytes(a: &Vec<u8>, b: &Vec<u8>) -> (r: bool)
    ensures
        r == (a@ == b@),
{
    if a.len() != b.len() {
        return false;
    }
    let mut i: usize = 0;
    while i < a.len()
        invariant
            a@.len() == b@.len(),
            i <= a@.len(),
            forall|k: int| 0 <= k < i ==> a@[k] == b@[k],
        decreases a@.len() - i,
    {
        if a[i] != b[i] {
            return false;
        }
        i = i + 1;
    }
    assert(a@ =~= b@);
    true
}

fn same_art(a: &Option<Vec<u8>>, b: &Option<Vec<u8>>) -> (r: bool)
    ensures
        r == (art_view(*a) == art_view(*b)),
{
    match (a, b) {
        (Some(x), Some(y)) => same_bytes(x, y),
        (None, None) => true,
        _ => false,
    }
}

fn copy_bytes(a: &Vec<u8>) -> (r: Vec<u8>)
    ensures
        r@ == a@,
{
    let r = a.clone();
    assert(r@ =~= a@);
    r
}

impl MediaTrackInfo {
    /// An independent copy with the same fields.
    pub fn duplicate(&self) -> (r: MediaTrackInfo)
        ensures
            r@ == self@,
    {
        let album_art = match &self.album_art {
            Some(bytes) => Some(copy_bytes(bytes)),
            None => None,
        };
        MediaTrackInfo {
            title: self.title.clone(),
            artist: self.artist.clone(),
            album: self.album.clone(),
            is_playing: self.is_playing,
            source_app: self.source_app.clone(),
            album_art,
        }
    }
}

impl Clone for MediaTrackInfo {
    fn clone(&self) -> Self {
        self.duplicate()
    }
}

impl PartialEq for MediaTrackInfo {
    fn eq(&self, other: &MediaTrackInfo) -> (r: bool) {
        self.title == other.title && self.artist == other.artist && self.album == other.album
            && self.is_playing == other.is_playing && self.source_app == other.source_app
            && same_art(&self.album_art, &other.album_art)
    }
}

impl vstd::std_specs::cmp::PartialEqSpecImpl for MediaTrackInfo {
    open spec fn obeys_eq_spec() -> bool {
        true
    }

    open spec fn eq_spec(&self, other: &MediaTrackInfo) -> bool {
        self@ == other@
    }
}

} // verus!
