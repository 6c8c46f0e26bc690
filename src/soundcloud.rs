//! The SoundCloud provider. Its remote API is reached outside the library;
//! what it returns is described here as plain records, turned into catalog
//! entities and merged into the catalog.

use crate::entity::{Playlist, Provider, Track};
use crate::library::InMemoryLibrary;
use crate::provider::{NavigationError, ProviderFolder, ProviderItem, SyncError, SyncResult};
use crate::text::{copy_opt, decimal, push_decimal};
use vstd::prelude::*;

verus! {

/// A track, as the remote API returns it.
#[derive(Debug, Clone)]
pub struct RemoteTrack {
    pub id: u64,
    pub title: String,
    pub stream_url: Option<String>,
    pub artwork_url: Option<String>,
    pub duration: u64,
}

/// A playlist, as the remote API returns it.
#[derive(Debug, Clone)]
pub struct RemotePlaylist {
    pub id: u64,
    pub title: String,
    pub tracks: Vec<RemoteTrack>,
}

pub open spec fn track_uri(id: u64) -> Seq<char> {
    "soundcloud://track/"@ + decimal(id as nat)
}

pub open spec fn playlist_uri(id: u64) -> Seq<char> {
    "soundcloud://playlist/"@ + decimal(id as nat)
}

/// A stream location with the client id that authorizes it.
pub open spec fn authorized(url: Seq<char>, client_id: Seq<char>) -> Seq<char> {
    url + "?client_id="@ + client_id
}

/// A streamable remote track, as a catalog track.
pub fn track_from_remote(track: &RemoteTrack) -> (r: Track)
    requires
        track.stream_url is Some,
    ensures
        r.id is None,
        r.title@ == track.title@,
        r.stream_url@ == track.stream_url.unwrap()@,
        r.provider == Provider::Soundcloud,
        r.uri@ == track_uri(track.id),
        r.image_url == track.artwork_url,
        r.duration == Some(track.duration),
        r.artist_id is None,
        r.album_id is None,
{
    let mut uri = String::from_str("soundcloud://track/");
    push_decimal(&mut uri, track.id);
    let stream_url = match &track.stream_url {
        Some(u) => u.clone(),
        None => String::new(),
    };
    Track {
        id: None,
        title: track.title.clone(),
        artist_id: None,
        album_id: None,
        stream_url,
        provider: Provider::Soundcloud,
        uri,
        image_url: copy_opt(&track.artwork_url),
        duration: Some(track.duration),
    }
}

/// The remote tracks that can be streamed.
pub open spec fn streamable(tracks: Seq<RemoteTrack>) -> Seq<RemoteTrack> {
    tracks.filter(|t: RemoteTrack| t.stream_url is Some)
}

/// A playlist with its streamable tracks converted and authorized.
#[derive(Debug)]
pub struct SoundcloudPlaylist {
    pub id: u64,
    pub title: String,
    pub tracks: Vec<Track>,
}

impl SoundcloudPlaylist {
    /// Keeps the streamable tracks, in order, with `client_id` appended to
    /// each stream location.
    pub fn from(playlist: &RemotePlaylist, client_id: &str) -> (r: SoundcloudPlaylist)
        ensures
            r.id == playlist.id,
            r.title@ == playlist.title@,
            r.tracks@.len() == streamable(playlist.tracks@).len(),
            forall|i: int|
                0 <= i < r.tracks@.len() ==> {
                    let src = streamable(playlist.tracks@)[i];
                    &&& (#[trigger] r.tracks@[i]).uri@ == track_uri(src.id)
                    &&& r.tracks@[i].title@ == src.title@
                    &&& r.tracks@[i].stream_url@ == authorized(src.stream_url.unwrap()@, client_id@)
                },
    {
        let ghost pred = |t: RemoteTrack| t.stream_url is Some;
        let mut tracks: Vec<Track> = Vec::new();
        let mut i: usize = 0;
        while i < playlist.tracks.len()
            invariant
                i <= playlist.tracks@.len(),
                pred == (|t: RemoteTrack| t.stream_url is Some),
                tracks@.len() == playlist.tracks@.subrange(0, i as int).filter(pred).len(),
                forall|j: int|
                    0 <= j < tracks@.len() ==> {
                        let src = playlist.tracks@.subrange(0, i as int).filter(pred)[j];
                        &&& (#[trigger] tracks@[j]).uri@ == track_uri(src.id)
                        &&& tracks@[j].title@ == src.title@
                        &&& tracks@[j].stream_url@ == authorized(src.stream_url.unwrap()@, client_id@)
                    },
            decreases playlist.tracks@.len() - i,
        {
            let ghost prev = playlist.tracks@.subrange(0, i as int).filter(pred);
            proof {
                reveal(Seq::filter);
                assert(playlist.tracks@.subrange(0, i + 1).drop_last() =~= playlist.tracks@.subrange(0, i as int));
                assert(playlist.tracks@.subrange(0, i + 1).last() == playlist.tracks@[i as int]);
            }
            let remote = &playlist.tracks[i];
            if remote.stream_url.is_some() {
                let mut track = track_from_remote(remote);
                track.stream_url.append("?client_id=");
                track.stream_url.append(client_id);
                let ghost before = tracks@;
                tracks.push(track);
                proof {
                    let now = playlist.tracks@.subrange(0, i + 1).filter(pred);
                    assert(now == prev.push(*remote));
                    assert forall|j: int| 0 <= j < tracks@.len() implies {
                        let src = now[j];
                        &&& (#[trigger] tracks@[j]).uri@ == track_uri(src.id)
                        &&& tracks@[j].title@ == src.title@
                        &&& tracks@[j].stream_url@ == authorized(src.stream_url.unwrap()@, client_id@)
                    } by {
                        if j < before.len() {
                            assert(tracks@[j] == before[j]);
                            assert(now[j] == prev[j]);
                        }
                    }
                }
            }
            i = i + 1;
        }
        assert(playlist.tracks@.subrange(0, playlist.tracks@.len() as int) =~= playlist.tracks@);
        SoundcloudPlaylist { id: playlist.id, title: playlist.title.clone(), tracks }
    }

    /// The catalog playlist.
    pub fn into_playlist(self) -> (r: Playlist)
        ensures
            r.id is None,
            r.title == self.title,
            r.tracks@ == self.tracks@,
            r.provider == Provider::Soundcloud,
            r.uri@ == playlist_uri(self.id),
    {
        let mut uri = String::from_str("soundcloud://playlist/");
        push_decimal(&mut uri, self.id);
        Playlist { id: None, title: self.title, tracks: self.tracks, provider: Provider::Soundcloud, uri }
    }
}

/// One of the user's likes: a track, a playlist, or neither.
#[derive(Debug, Clone)]
pub struct RemoteLike {
    pub track: Option<RemoteTrack>,
    pub playlist: Option<RemotePlaylist>,
}

/// A like is listed when it holds a streamable track, or no track but a
/// playlist.
pub open spec fn listed(l: RemoteLike) -> bool {
    ||| (l.track matches Some(t) && t.stream_url is Some)
    ||| (l.track is None && l.playlist is Some)
}

/// The label of a listed like: its track's title, else its playlist's.
pub open spec fn like_label(l: RemoteLike) -> Seq<char> {
    match l.track {
        Some(t) => t.title@,
        None => l.playlist.unwrap().title@,
    }
}

pub open spec fn listed_likes(likes: Seq<RemoteLike>) -> Seq<RemoteLike> {
    likes.filter(|l: RemoteLike| listed(l))
}

/// Reaches SoundCloud with an application id and, optionally, a user token.
#[derive(Debug, Clone)]
pub struct SoundcloudProvider {
    pub client_id: String,
    pub auth_token: Option<String>,
}

impl SoundcloudProvider {
    pub fn title(&self) -> (r: String)
        ensures
            r@ == "Soundcloud"@,
    {
        String::from_str("Soundcloud")
    }

    pub fn uri_scheme(&self) -> (r: String)
        ensures
            r@ == "soundcloud"@,
    {
        String::from_str("soundcloud")
    }

    /// The root folder.
    pub fn root(&self) -> (r: ProviderFolder)
        ensures
            r.folders@.len() == 1,
            r.folders@[0]@ == "Likes"@,
            r.items@.len() == 0,
    {
        let mut folders: Vec<String> = Vec::new();
        folders.push(String::from_str("Likes"));
        ProviderFolder { folders, items: Vec::new() }
    }

    /// Whether a navigation path names the likes listing; any other path is
    /// not found.
    pub fn check_path(&self, path: &Vec<String>) -> (r: Result<(), NavigationError>)
        ensures
            r is Ok <==> path@.len() >= 1 && path@[0]@ == "Likes"@,
            r is Err ==> r == Err::<(), NavigationError>(NavigationError::PathNotFound),
    {
        if path.len() >= 1 && path[0].eq(&String::from_str("Likes")) {
            Ok(())
        } else {
            Err(NavigationError::PathNotFound)
        }
    }

    /// The likes listing: one item per listed like, in order, labelled by
    /// its track or, failing that, its playlist.
    pub fn likes_folder(&self, likes: &Vec<RemoteLike>) -> (r: ProviderFolder)
        ensures
            r.folders@.len() == 0,
            r.items@.len() == listed_likes(likes@).len(),
            forall|i: int|
                0 <= i < r.items@.len() ==> (#[trigger] r.items@[i]).label@ == like_label(listed_likes(likes@)[i]),
    {
        let mut items: Vec<ProviderItem> = Vec::new();
        let mut i: usize = 0;
        while i < likes.len()
            invariant
                i <= likes@.len(),
                items@.len() == listed_likes(likes@.subrange(0, i as int)).len(),
                forall|j: int|
                    0 <= j < items@.len() ==> (#[trigger] items@[j]).label@ == like_label(
                        listed_likes(likes@.subrange(0, i as int))[j],
                    ),
            decreases likes@.len() - i,
        {
            let ghost prev = listed_likes(likes@.subrange(0, i as int));
            proof {
                reveal(Seq::filter);
                assert(likes@.subrange(0, i + 1).drop_last() =~= likes@.subrange(0, i as int));
                assert(likes@.subrange(0, i + 1).last() == likes@[i as int]);
            }
            let like = &likes[i];
            let ghost before = items@;
            let item = match &like.track {
                Some(t) => {
                    if t.stream_url.is_some() {
                        Some(ProviderItem::from_track(track_from_remote(t)))
                    } else {
                        None
                    }
                },
                None => match &like.playlist {
                    Some(p) => {
                        let converted = SoundcloudPlaylist::from(p, self.client_id.as_str());
                        Some(ProviderItem::from_playlist(converted.into_playlist()))
                    },
                    None => None,
                },
            };
            match item {
                Some(it) => {
                    proof {
                        assert(listed(*like));
                        assert(it.label@ == like_label(*like));
                    }
                    items.push(it);
                    proof {
                        let now = listed_likes(likes@.subrange(0, i + 1));
                        assert(now == prev.push(*like));
                        assert forall|j: int| 0 <= j < items@.len() implies (#[trigger] items@[j]).label@
                            == like_label(now[j]) by {
                            if j < before.len() {
                                assert(items@[j] == before[j]);
                                assert(now[j] == prev[j]);
                            }
                        }
                    }
                },
                None => {
                    proof {
                        assert(!listed(*like));
                    }
                },
            }
            i = i + 1;
        }
        assert(likes@.subrange(0, likes@.len() as int) =~= likes@);
        ProviderFolder { folders: Vec::new(), items }
    }

    /// Upserts the user's playlists into the catalog and counts them.
    pub fn merge_playlists(&self, library: &mut InMemoryLibrary, remote: &Vec<RemotePlaylist>) -> (r: Result<
        SyncResult,
        SyncError,
    >)
        requires
            old(library).wf(),
        ensures
            final(library).wf(),
            r is Ok <==> old(library).playlists().len() + remote@.len() < usize::MAX,
            r matches Ok(res) ==> res == (SyncResult {
                tracks: 0,
                albums: 0,
                artists: 0,
                playlists: remote@.len() as usize,
            }),
            r matches Err(e) ==> e == SyncError::LibraryAccessError,
    {
        let mut playlists: Vec<Playlist> = Vec::new();
        let mut i: usize = 0;
        while i < remote.len()
            invariant
                i <= remote@.len(),
                playlists@.len() == i,
            decreases remote@.len() - i,
        {
            let converted = SoundcloudPlaylist::from(&remote[i], self.client_id.as_str());
            playlists.push(converted.into_playlist());
            i = i + 1;
        }
        let count = playlists.len();
        match library.sync_playlists(&mut playlists) {
            Ok(()) => Ok(SyncResult { tracks: 0, albums: 0, artists: 0, playlists: count }),
            Err(_) => Err(SyncError::LibraryAccessError),
        }
    }
}

} // verus!
