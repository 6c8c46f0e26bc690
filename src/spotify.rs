//! The Spotify provider. Its remote API and its OAuth flow are reached
//! outside the library; what they return is described here as plain records,
//! turned into catalog entities and merged into the catalog.

use crate::entity::{Album, Artist, Provider, Track};
use crate::library::InMemoryLibrary;
use crate::provider::{ProviderFolder, ProviderItem, SyncError, SyncResult};
use crate::text::prefixed;
use vstd::prelude::*;

verus! {

#[derive(Debug, Clone)]
pub struct Image {
    pub url: String,
}

#[derive(Debug, Clone)]
pub struct SpotifyArtist {
    pub id: String,
    pub name: String,
    pub images: Vec<Image>,
}

#[derive(Debug, Clone)]
pub struct SpotifyTrack {
    pub id: String,
    pub name: String,
    pub duration_ms: u32,
    /// The images of the track's album, when the API includes them.
    pub album_images: Vec<Image>,
}

#[derive(Debug, Clone)]
pub struct SpotifyAlbum {
    pub id: String,
    pub name: String,
    pub images: Vec<Image>,
    pub tracks: Vec<SpotifyTrack>,
}

/// The first image's url, if there is an image.
pub open spec fn first_image(images: Seq<Image>) -> Option<Seq<char>> {
    if images.len() == 0 {
        None
    } else {
        Some(images[0].url@)
    }
}

pub open spec fn opt_view(s: Option<String>) -> Option<Seq<char>> {
    match s {
        Some(v) => Some(v@),
        None => None,
    }
}

pub fn convert_images(images: &Vec<Image>) -> (r: Option<String>)
    ensures
        opt_view(r) == first_image(images@),
{
    if images.len() == 0 {
        None
    } else {
        Some(images[0].url.clone())
    }
}

pub fn album_from_spotify(album: &SpotifyAlbum) -> (r: Album)
    ensures
        r.id is None,
        r.title@ == album.name@,
        r.artist_id is None,
        r.artist is None,
        r.provider == Provider::Spotify,
        opt_view(r.image_url) == first_image(album.images@),
        r.uri@ == "spotify://album/"@ + album.id@,
{
    Album {
        id: None,
        title: album.name.clone(),
        artist_id: None,
        artist: None,
        provider: Provider::Spotify,
        image_url: convert_images(&album.images),
        uri: prefixed("spotify://album/", album.id.as_str()),
    }
}

pub fn artist_from_spotify(artist: &SpotifyArtist) -> (r: Artist)
    ensures
        r.id is None,
        r.name@ == artist.name@,
        opt_view(r.image_url) == first_image(artist.images@),
        r.uri@ == "spotify://artist/"@ + artist.id@,
{
    Artist {
        id: None,
        name: artist.name.clone(),
        image_url: convert_images(&artist.images),
        uri: prefixed("spotify://artist/", artist.id.as_str()),
    }
}

/// Spotify streams are not reachable by url, so the stream location stays
/// empty.
pub fn track_from_spotify(track: &SpotifyTrack) -> (r: Track)
    ensures
        r.id is None,
        r.title@ == track.name@,
        r.artist_id is None,
        r.album_id is None,
        r.stream_url@ == Seq::<char>::empty(),
        r.provider == Provider::Spotify,
        opt_view(r.image_url) == first_image(track.album_images@),
        r.uri@ == "spotify://track/"@ + track.id@,
        r.duration == Some(track.duration_ms as u64),
{
    Track {
        id: None,
        title: track.name.clone(),
        artist_id: None,
        album_id: None,
        stream_url: String::new(),
        provider: Provider::Spotify,
        image_url: convert_images(&track.album_images),
        uri: prefixed("spotify://track/", track.id.as_str()),
        duration: Some(track.duration_ms as u64),
    }
}

/// Total number of tracks over all albums.
pub open spec fn track_count(albums: Seq<SpotifyAlbum>) -> int
    decreases albums.len(),
{
    if albums.len() == 0 {
        0
    } else {
        track_count(albums.drop_last()) + albums.last().tracks@.len()
    }
}

proof fn lemma_track_count_prefix(s: Seq<SpotifyAlbum>, n: int)
    requires
        0 <= n <= s.len(),
    ensures
        track_count(s.subrange(0, n)) <= track_count(s),
    decreases s.len(),
{
    if n < s.len() {
        assert(s.drop_last().subrange(0, n) =~= s.subrange(0, n));
        lemma_track_count_prefix(s.drop_last(), n);
    } else {
        assert(s.subrange(0, n) =~= s);
    }
}

/// Reaches Spotify with an application's client credentials.
#[derive(Debug, Clone)]
pub struct SpotifyProvider {
    pub client_id: String,
    pub client_secret: String,
}

impl SpotifyProvider {
    pub fn title(&self) -> (r: String)
        ensures
            r@ == "Spotify"@,
    {
        String::from_str("Spotify")
    }

    pub fn uri_scheme(&self) -> (r: String)
        ensures
            r@ == "spotify"@,
    {
        String::from_str("spotify")
    }

    /// The root folder is empty: Spotify content is reached by search.
    pub fn root(&self) -> (r: ProviderFolder)
        ensures
            r.folders@.len() == 0,
            r.items@.len() == 0,
    {
        ProviderFolder { folders: Vec::new(), items: Vec::new() }
    }

    /// Merges the user's saved albums: each album is upserted, its tracks are
    /// linked to it, and all tracks are upserted last, together.
    pub fn merge_saved_albums(&self, library: &mut InMemoryLibrary, albums: &Vec<SpotifyAlbum>) -> (r: Result<
        SyncResult,
        SyncError,
    >)
        requires
            old(library).wf(),
            track_count(albums@) <= usize::MAX,
        ensures
            final(library).wf(),
            r matches Ok(res) ==> res == (SyncResult {
                tracks: track_count(albums@) as usize,
                albums: albums@.len() as usize,
                artists: 0,
                playlists: 0,
            }),
            r matches Err(e) ==> e == SyncError::LibraryAccessError,
            old(library).albums().len() + albums@.len() < usize::MAX && old(library).tracks().len()
                + track_count(albums@) < usize::MAX ==> r is Ok,
    {
        let mut tracks: Vec<Track> = Vec::new();
        let mut i: usize = 0;
        while i < albums.len()
            invariant
                library.wf(),
                library.albums().len() <= old(library).albums().len() + i,
                library.tracks() == old(library).tracks(),
                i <= albums@.len(),
                track_count(albums@) <= usize::MAX,
                tracks@.len() == track_count(albums@.subrange(0, i as int)),
            decreases albums@.len() - i,
        {
            let album = &albums[i];
            let mut entity = album_from_spotify(album);
            if library.sync_album(&mut entity).is_err() {
                return Err(SyncError::LibraryAccessError);
            }
            proof {
                assert(albums@.subrange(0, i + 1).drop_last() =~= albums@.subrange(0, i as int));
                lemma_track_count_prefix(albums@, i + 1);
            }
            let mut k: usize = 0;
            while k < album.tracks.len()
                invariant
                    library.wf(),
                    library.albums().len() <= old(library).albums().len() + i + 1,
                    library.tracks() == old(library).tracks(),
                    k <= album.tracks@.len(),
                    tracks@.len() == track_count(albums@.subrange(0, i as int)) + k,
                    track_count(albums@.subrange(0, i + 1)) <= usize::MAX,
                    track_count(albums@.subrange(0, i + 1)) == track_count(albums@.subrange(0, i as int))
                        + album.tracks@.len(),
                decreases album.tracks@.len() - k,
            {
                let mut track = track_from_spotify(&album.tracks[k]);
                track.album_id = entity.id;
                tracks.push(track);
                k = k + 1;
            }
            i = i + 1;
        }
        assert(albums@.subrange(0, albums@.len() as int) =~= albums@);
        let count = tracks.len();
        match library.sync_tracks(&mut tracks) {
            Ok(()) => Ok(SyncResult { tracks: count, albums: albums.len(), artists: 0, playlists: 0 }),
            Err(_) => Err(SyncError::LibraryAccessError),
        }
    }
}

/// Search results as listing items: the albums, then the artists, then the
/// tracks, each group in the order the API returned it.
pub fn search_items(albums: &Vec<SpotifyAlbum>, artists: &Vec<SpotifyArtist>, tracks: &Vec<SpotifyTrack>) -> (r: Vec<
    ProviderItem,
>)
    requires
        albums@.len() + artists@.len() + tracks@.len() <= usize::MAX,
    ensures
        r@.len() == albums@.len() + artists@.len() + tracks@.len(),
        forall|i: int| 0 <= i < albums@.len() ==> (#[trigger] r@[i]).label@ == albums@[i].name@ && r@[i].album is Some,
        forall|i: int|
            albums@.len() <= i < albums@.len() + artists@.len() ==> (#[trigger] r@[i]).label@ == artists@[i
                - albums@.len()].name@ && r@[i].artist is Some,
        forall|i: int|
            albums@.len() + artists@.len() <= i < r@.len() ==> (#[trigger] r@[i]).label@ == tracks@[i
                - albums@.len() - artists@.len()].name@ && r@[i].track is Some,
{
    let mut out: Vec<ProviderItem> = Vec::new();
    let mut i: usize = 0;
    while i < albums.len()
        invariant
            i <= albums@.len(),
            out@.len() == i,
            forall|j: int| 0 <= j < i ==> (#[trigger] out@[j]).label@ == albums@[j].name@ && out@[j].album is Some,
        decreases albums@.len() - i,
    {
        out.push(ProviderItem::from_album(album_from_spotify(&albums[i])));
        i = i + 1;
    }
    let mut i: usize = 0;
    while i < artists.len()
        invariant
            i <= artists@.len(),
            out@.len() == albums@.len() + i,
            forall|j: int| 0 <= j < albums@.len() ==> (#[trigger] out@[j]).label@ == albums@[j].name@ && out@[j].album is Some,
            forall|j: int|
                albums@.len() <= j < albums@.len() + i ==> (#[trigger] out@[j]).label@ == artists@[j
                    - albums@.len()].name@ && out@[j].artist is Some,
        decreases artists@.len() - i,
    {
        out.push(ProviderItem::from_artist(artist_from_spotify(&artists[i])));
        i = i + 1;
    }
    let mut i: usize = 0;
    while i < tracks.len()
        invariant
            albums@.len() + artists@.len() + tracks@.len() <= usize::MAX,
            i <= tracks@.len(),
            out@.len() == albums@.len() + artists@.len() + i,
            forall|j: int| 0 <= j < albums@.len() ==> (#[trigger] out@[j]).label@ == albums@[j].name@ && out@[j].album is Some,
            forall|j: int|
                albums@.len() <= j < albums@.len() + artists@.len() ==> (#[trigger] out@[j]).label@
                    == artists@[j - albums@.len()].name@ && out@[j].artist is Some,
            forall|j: int|
                albums@.len() + artists@.len() <= j < albums@.len() + artists@.len() + i ==> (
                #[trigger] out@[j]).label@ == tracks@[j - albums@.len() - artists@.len()].name@
                    && out@[j].track is Some,
        decreases tracks@.len() - i,
    {
        out.push(ProviderItem::from_track(track_from_spotify(&tracks[i])));
        i = i + 1;
    }
    out
}

} // verus!
