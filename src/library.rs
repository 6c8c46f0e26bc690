//! The catalog: four collections (tracks, albums, artists, playlists),
//! each an append-only `Store` whose ids are insertion positions counted
//! from 1. Every operation is stated over the collections it reads or
//! changes. Callers that share the catalog between threads serialize writes
//! with a lock around it.

use crate::entity::{Album, Artist, CatalogEntry, Playlist, Track};
use crate::provider::NavigationError;
use crate::store::{
    appended, first_in, first_with_key, has_key, keys_of, matching_tracks, synced, upserted, Store,
};
use vstd::prelude::*;

verus! {

#[derive(Debug, Clone, Copy, PartialEq, Eq, Structural)]
pub enum LibraryError {
    /// The collection has no ids left for the entries: it would reach
    /// `usize::MAX` entries.
    IdsExhausted,
}

/// Every entry of `s`, copied in order into `r`.
pub open spec fn copied<T: CatalogEntry>(s: Seq<T>, r: Seq<T>) -> bool {
    &&& r.len() == s.len()
    &&& forall|i: int| 0 <= i < r.len() ==> (#[trigger] r[i]).same(&s[i]) && r[i].key() == s[i].key()
}

/// What a search found. Only track titles are searched; the other lists are
/// empty.
#[derive(Debug)]
pub struct SearchResults {
    pub tracks: Vec<Track>,
    pub albums: Vec<Album>,
    pub artists: Vec<Artist>,
    pub playlists: Vec<Playlist>,
}

#[derive(Debug, Clone, Copy, PartialEq, Eq, Structural)]
pub enum ResolveError {
    /// No stored track has the uri.
    NotFound,
    /// The uri does not parse as a URL, so no provider owns it.
    InvalidUri,
    /// The provider that owns the uri's scheme failed.
    Provider(NavigationError),
}

pub struct InMemoryLibrary {
    tracks: Store<Track>,
    albums: Store<Album>,
    artists: Store<Artist>,
    playlists: Store<Playlist>,
}

impl InMemoryLibrary {
    pub closed spec fn track_store(&self) -> Store<Track> {
        self.tracks
    }

    /// The stored tracks, in insertion order.
    pub open spec fn tracks(&self) -> Seq<Track> {
        self.track_store()@
    }

    pub closed spec fn album_store(&self) -> Store<Album> {
        self.albums
    }

    /// The stored albums, in insertion order.
    pub open spec fn albums(&self) -> Seq<Album> {
        self.album_store()@
    }

    pub closed spec fn artist_store(&self) -> Store<Artist> {
        self.artists
    }

    /// The stored artists, in insertion order.
    pub open spec fn artists(&self) -> Seq<Artist> {
        self.artist_store()@
    }

    pub closed spec fn playlist_store(&self) -> Store<Playlist> {
        self.playlists
    }

    /// The stored playlists, in insertion order.
    pub open spec fn playlists(&self) -> Seq<Playlist> {
        self.playlist_store()@
    }

    pub open spec fn wf(&self) -> bool {
        &&& self.track_store().wf()
        &&& self.album_store().wf()
        &&& self.artist_store().wf()
        &&& self.playlist_store().wf()
    }

    pub fn new() -> (r: InMemoryLibrary)
        ensures
            r.wf(),
            r.tracks() == Seq::<Track>::empty(),
            r.albums() == Seq::<Album>::empty(),
            r.artists() == Seq::<Artist>::empty(),
            r.playlists() == Seq::<Playlist>::empty(),
    {
        InMemoryLibrary { tracks: Store::new(), albums: Store::new(), artists: Store::new(), playlists: Store::new() }
    }

    /// A copy of the track with the given id.
    pub fn get_track(&self, id: usize) -> (r: Option<Track>)
        requires
            self.wf(),
        ensures
            r is Some <==> 1 <= id <= self.tracks().len(),
            r matches Some(e) ==> e.same(&self.tracks()[id - 1]) && e.id == Some(id),
    {
        self.tracks.get(id)
    }

    /// A copy of every stored track, in insertion order.
    pub fn get_tracks(&self) -> (r: Vec<Track>)
        ensures
            copied(self.tracks(), r@),
    {
        self.tracks.all()
    }

    /// Stores the track unconditionally under the next id, which is written
    /// into `track`.
    pub fn add_track(&mut self, track: &mut Track) -> (r: Result<(), LibraryError>)
        requires
            old(self).wf(),
        ensures
            final(self).wf(),
            final(self).album_store() == old(self).album_store(),
            final(self).artist_store() == old(self).artist_store(),
            final(self).playlist_store() == old(self).playlist_store(),
            r is Ok <==> old(self).tracks().len() < usize::MAX,
            r is Ok ==> {
                &&& *final(track) == old(track).with_id(Some((old(self).tracks().len() + 1) as usize))
                &&& appended(old(self).tracks(), old(track).uri@, final(self).tracks(), old(self).tracks().len() + 1int)
                &&& final(self).tracks().last().same(&*final(track))
            },
            r is Err ==> *final(track) == *old(track) && final(self).tracks() == old(self).tracks(),
    {
        if self.tracks.len() == usize::MAX {
            return Err(LibraryError::IdsExhausted);
        }
        self.tracks.add(track);
        Ok(())
    }

    /// Stores every track, in order, under consecutive ids following the
    /// stored ones; the ids are written back into `tracks`.
    pub fn add_tracks(&mut self, tracks: &mut Vec<Track>) -> (r: Result<(), LibraryError>)
        requires
            old(self).wf(),
        ensures
            final(self).wf(),
            final(self).album_store() == old(self).album_store(),
            final(self).artist_store() == old(self).artist_store(),
            final(self).playlist_store() == old(self).playlist_store(),
            final(tracks)@.len() == old(tracks)@.len(),
            r is Ok <==> old(self).tracks().len() + old(tracks)@.len() < usize::MAX,
            r is Ok ==> {
                &&& final(self).tracks().len() == old(self).tracks().len() + old(tracks)@.len()
                &&& final(self).tracks().subrange(0, old(self).tracks().len() as int) == old(self).tracks()
                &&& forall|i: int|
                    0 <= i < old(tracks)@.len() ==> #[trigger] final(tracks)@[i] == old(tracks)@[i].with_id(
                        Some((old(self).tracks().len() + 1 + i) as usize),
                    )
                &&& forall|i: int|
                    0 <= i < old(tracks)@.len() ==> (#[trigger] final(self).tracks()[old(self).tracks().len() + i]).same(
                        &final(tracks)@[i],
                    )
            },
            r is Err ==> final(tracks)@ == old(tracks)@ && final(self).tracks() == old(self).tracks(),
    {
        if self.tracks.len() >= usize::MAX - tracks.len() {
            return Err(LibraryError::IdsExhausted);
        }
        self.tracks.add_all(tracks);
        Ok(())
    }

    /// Upserts the track by uri: an entry already stored under its uri keeps
    /// its fields and lends its id; otherwise the track is stored under the
    /// next id. Either way `track` receives the id.
    pub fn sync_track(&mut self, track: &mut Track) -> (r: Result<(), LibraryError>)
        requires
            old(self).wf(),
        ensures
            final(self).wf(),
            final(self).album_store() == old(self).album_store(),
            final(self).artist_store() == old(self).artist_store(),
            final(self).playlist_store() == old(self).playlist_store(),
            r is Ok <==> old(self).tracks().len() < usize::MAX || has_key(old(self).tracks(), old(track).uri@),
            r is Ok ==> {
                &&& final(track).id is Some
                &&& *final(track) == old(track).with_id(final(track).id)
                &&& synced(old(self).tracks(), old(track).uri@, final(self).tracks(), final(track).id.unwrap() as int)
                &&& !has_key(old(self).tracks(), old(track).uri@) ==> final(self).tracks().last().same(&*final(track))
            },
            r is Err ==> *final(track) == *old(track) && final(self).tracks() == old(self).tracks(),
    {
        if self.tracks.len() == usize::MAX && self.tracks.find(&track.uri).is_none() {
            return Err(LibraryError::IdsExhausted);
        }
        let id = self.tracks.sync(track);
        proof {
            old(track).lemma_with_id(Some(id));
        }
        Ok(())
    }

    /// Upserts every track, in order. Uris not stored yet are appended in
    /// input order, each once even when it repeats in the input; each
    /// caller's entry receives the id of the first stored entry with its uri.
    pub fn sync_tracks(&mut self, tracks: &mut Vec<Track>) -> (r: Result<(), LibraryError>)
        requires
            old(self).wf(),
        ensures
            final(self).wf(),
            final(self).album_store() == old(self).album_store(),
            final(self).artist_store() == old(self).artist_store(),
            final(self).playlist_store() == old(self).playlist_store(),
            final(tracks)@.len() == old(tracks)@.len(),
            r is Ok <==> old(self).tracks().len() + old(tracks)@.len() < usize::MAX,
            r is Ok ==> {
                &&& keys_of(final(self).tracks()) == upserted(keys_of(old(self).tracks()), old(tracks)@)
                &&& final(self).tracks().subrange(0, old(self).tracks().len() as int) == old(self).tracks()
                &&& forall|i: int|
                    0 <= i < old(tracks)@.len() ==> {
                        &&& (#[trigger] final(tracks)@[i]).id is Some
                        &&& final(tracks)@[i] == old(tracks)@[i].with_id(final(tracks)@[i].id)
                        &&& first_with_key(final(self).tracks(), old(tracks)@[i].uri@, final(tracks)@[i].id.unwrap() as int - 1)
                    }
                &&& forall|i: int|
                    0 <= i < old(tracks)@.len() && first_in(old(tracks)@, i) && !has_key(old(self).tracks(), old(tracks)@[i].uri@)
                        ==> final(self).tracks()[(#[trigger] final(tracks)@[i]).id.unwrap() as int - 1].same(&final(tracks)@[i])
            },
            r is Err ==> final(tracks)@ == old(tracks)@ && final(self).tracks() == old(self).tracks(),
    {
        if self.tracks.len() >= usize::MAX - tracks.len() {
            return Err(LibraryError::IdsExhausted);
        }
        self.tracks.sync_all(tracks);
        Ok(())
    }

    /// A copy of the album with the given id.
    pub fn get_album(&self, id: usize) -> (r: Option<Album>)
        requires
            self.wf(),
        ensures
            r is Some <==> 1 <= id <= self.albums().len(),
            r matches Some(e) ==> e.same(&self.albums()[id - 1]) && e.id == Some(id),
    {
        self.albums.get(id)
    }

    /// A copy of every stored album, in insertion order.
    pub fn get_albums(&self) -> (r: Vec<Album>)
        ensures
            copied(self.albums(), r@),
    {
        self.albums.all()
    }

    /// Stores the album unconditionally under the next id, which is written
    /// into `album`.
    pub fn add_album(&mut self, album: &mut Album) -> (r: Result<(), LibraryError>)
        requires
            old(self).wf(),
        ensures
            final(self).wf(),
            final(self).track_store() == old(self).track_store(),
            final(self).artist_store() == old(self).artist_store(),
            final(self).playlist_store() == old(self).playlist_store(),
            r is Ok <==> old(self).albums().len() < usize::MAX,
            r is Ok ==> {
                &&& *final(album) == old(album).with_id(Some((old(self).albums().len() + 1) as usize))
                &&& appended(old(self).albums(), old(album).uri@, final(self).albums(), old(self).albums().len() + 1int)
                &&& final(self).albums().last().same(&*final(album))
            },
            r is Err ==> *final(album) == *old(album) && final(self).albums() == old(self).albums(),
    {
        if self.albums.len() == usize::MAX {
            return Err(LibraryError::IdsExhausted);
        }
        self.albums.add(album);
        Ok(())
    }

    /// Stores every album, in order, under consecutive ids following the
    /// stored ones; the ids are written back into `albums`.
    pub fn add_albums(&mut self, albums: &mut Vec<Album>) -> (r: Result<(), LibraryError>)
        requires
            old(self).wf(),
        ensures
            final(self).wf(),
            final(self).track_store() == old(self).track_store(),
            final(self).artist_store() == old(self).artist_store(),
            final(self).playlist_store() == old(self).playlist_store(),
            final(albums)@.len() == old(albums)@.len(),
            r is Ok <==> old(self).albums().len() + old(albums)@.len() < usize::MAX,
            r is Ok ==> {
                &&& final(self).albums().len() == old(self).albums().len() + old(albums)@.len()
                &&& final(self).albums().subrange(0, old(self).albums().len() as int) == old(self).albums()
                &&& forall|i: int|
                    0 <= i < old(albums)@.len() ==> #[trigger] final(albums)@[i] == old(albums)@[i].with_id(
                        Some((old(self).albums().len() + 1 + i) as usize),
                    )
                &&& forall|i: int|
                    0 <= i < old(albums)@.len() ==> (#[trigger] final(self).albums()[old(self).albums().len() + i]).same(
                        &final(albums)@[i],
                    )
            },
            r is Err ==> final(albums)@ == old(albums)@ && final(self).albums() == old(self).albums(),
    {
        if self.albums.len() >= usize::MAX - albums.len() {
            return Err(LibraryError::IdsExhausted);
        }
        self.albums.add_all(albums);
        Ok(())
    }

    /// Upserts the album by uri: an entry already stored under its uri keeps
    /// its fields and lends its id; otherwise the album is stored under the
    /// next id. Either way `album` receives the id.
    pub fn sync_album(&mut self, album: &mut Album) -> (r: Result<(), LibraryError>)
        requires
            old(self).wf(),
        ensures
            final(self).wf(),
            final(self).track_store() == old(self).track_store(),
            final(self).artist_store() == old(self).artist_store(),
            final(self).playlist_store() == old(self).playlist_store(),
            r is Ok <==> old(self).albums().len() < usize::MAX || has_key(old(self).albums(), old(album).uri@),
            r is Ok ==> {
                &&& final(album).id is Some
                &&& *final(album) == old(album).with_id(final(album).id)
                &&& synced(old(self).albums(), old(album).uri@, final(self).albums(), final(album).id.unwrap() as int)
                &&& !has_key(old(self).albums(), old(album).uri@) ==> final(self).albums().last().same(&*final(album))
            },
            r is Err ==> *final(album) == *old(album) && final(self).albums() == old(self).albums(),
    {
        if self.albums.len() == usize::MAX && self.albums.find(&album.uri).is_none() {
            return Err(LibraryError::IdsExhausted);
        }
        let id = self.albums.sync(album);
        proof {
            old(album).lemma_with_id(Some(id));
        }
        Ok(())
    }

    /// Upserts every album, in order. Uris not stored yet are appended in
    /// input order, each once even when it repeats in the input; each
    /// caller's entry receives the id of the first stored entry with its uri.
    pub fn sync_albums(&mut self, albums: &mut Vec<Album>) -> (r: Result<(), LibraryError>)
        requires
            old(self).wf(),
        ensures
            final(self).wf(),
            final(self).track_store() == old(self).track_store(),
            final(self).artist_store() == old(self).artist_store(),
            final(self).playlist_store() == old(self).playlist_store(),
            final(albums)@.len() == old(albums)@.len(),
            r is Ok <==> old(self).albums().len() + old(albums)@.len() < usize::MAX,
            r is Ok ==> {
                &&& keys_of(final(self).albums()) == upserted(keys_of(old(self).albums()), old(albums)@)
                &&& final(self).albums().subrange(0, old(self).albums().len() as int) == old(self).albums()
                &&& forall|i: int|
                    0 <= i < old(albums)@.len() ==> {
                        &&& (#[trigger] final(albums)@[i]).id is Some
                        &&& final(albums)@[i] == old(albums)@[i].with_id(final(albums)@[i].id)
                        &&& first_with_key(final(self).albums(), old(albums)@[i].uri@, final(albums)@[i].id.unwrap() as int - 1)
                    }
                &&& forall|i: int|
                    0 <= i < old(albums)@.len() && first_in(old(albums)@, i) && !has_key(old(self).albums(), old(albums)@[i].uri@)
                        ==> final(self).albums()[(#[trigger] final(albums)@[i]).id.unwrap() as int - 1].same(&final(albums)@[i])
            },
            r is Err ==> final(albums)@ == old(albums)@ && final(self).albums() == old(self).albums(),
    {
        if self.albums.len() >= usize::MAX - albums.len() {
            return Err(LibraryError::IdsExhausted);
        }
        self.albums.sync_all(albums);
        Ok(())
    }

    /// A copy of the artist with the given id.
    pub fn get_artist(&self, id: usize) -> (r: Option<Artist>)
        requires
            self.wf(),
        ensures
            r is Some <==> 1 <= id <= self.artists().len(),
            r matches Some(e) ==> e.same(&self.artists()[id - 1]) && e.id == Some(id),
    {
        self.artists.get(id)
    }

    /// A copy of every stored artist, in insertion order.
    pub fn get_artists(&self) -> (r: Vec<Artist>)
        ensures
            copied(self.artists(), r@),
    {
        self.artists.all()
    }

    /// Stores the artist unconditionally under the next id, which is written
    /// into `artist`.
    pub fn add_artist(&mut self, artist: &mut Artist) -> (r: Result<(), LibraryError>)
        requires
            old(self).wf(),
        ensures
            final(self).wf(),
            final(self).track_store() == old(self).track_store(),
            final(self).album_store() == old(self).album_store(),
            final(self).playlist_store() == old(self).playlist_store(),
            r is Ok <==> old(self).artists().len() < usize::MAX,
            r is Ok ==> {
                &&& *final(artist) == old(artist).with_id(Some((old(self).artists().len() + 1) as usize))
                &&& appended(old(self).artists(), old(artist).uri@, final(self).artists(), old(self).artists().len() + 1int)
                &&& final(self).artists().last().same(&*final(artist))
            },
            r is Err ==> *final(artist) == *old(artist) && final(self).artists() == old(self).artists(),
    {
        if self.artists.len() == usize::MAX {
            return Err(LibraryError::IdsExhausted);
        }
        self.artists.add(artist);
        Ok(())
    }

    /// Stores every artist, in order, under consecutive ids following the
    /// stored ones; the ids are written back into `artists`.
    pub fn add_artists(&mut self, artists: &mut Vec<Artist>) -> (r: Result<(), LibraryError>)
        requires
            old(self).wf(),
        ensures
            final(self).wf(),
            final(self).track_store() == old(self).track_store(),
            final(self).album_store() == old(self).album_store(),
            final(self).playlist_store() == old(self).playlist_store(),
            final(artists)@.len() == old(artists)@.len(),
            r is Ok <==> old(self).artists().len() + old(artists)@.len() < usize::MAX,
            r is Ok ==> {
                &&& final(self).artists().len() == old(self).artists().len() + old(artists)@.len()
                &&& final(self).artists().subrange(0, old(self).artists().len() as int) == old(self).artists()
                &&& forall|i: int|
                    0 <= i < old(artists)@.len() ==> #[trigger] final(artists)@[i] == old(artists)@[i].with_id(
                        Some((old(self).artists().len() + 1 + i) as usize),
                    )
                &&& forall|i: int|
                    0 <= i < old(artists)@.len() ==> (#[trigger] final(self).artists()[old(self).artists().len() + i]).same(
                        &final(artists)@[i],
                    )
            },
            r is Err ==> final(artists)@ == old(artists)@ && final(self).artists() == old(self).artists(),
    {
        if self.artists.len() >= usize::MAX - artists.len() {
            return Err(LibraryError::IdsExhausted);
        }
        self.artists.add_all(artists);
        Ok(())
    }

    /// Upserts the artist by uri: an entry already stored under its uri keeps
    /// its fields and lends its id; otherwise the artist is stored under the
    /// next id. Either way `artist` receives the id.
    pub fn sync_artist(&mut self, artist: &mut Artist) -> (r: Result<(), LibraryError>)
        requires
            old(self).wf(),
        ensures
            final(self).wf(),
            final(self).track_store() == old(self).track_store(),
            final(self).album_store() == old(self).album_store(),
            final(self).playlist_store() == old(self).playlist_store(),
            r is Ok <==> old(self).artists().len() < usize::MAX || has_key(old(self).artists(), old(artist).uri@),
            r is Ok ==> {
                &&& final(artist).id is Some
                &&& *final(artist) == old(artist).with_id(final(artist).id)
                &&& synced(old(self).artists(), old(artist).uri@, final(self).artists(), final(artist).id.unwrap() as int)
                &&& !has_key(old(self).artists(), old(artist).uri@) ==> final(self).artists().last().same(&*final(artist))
            },
            r is Err ==> *final(artist) == *old(artist) && final(self).artists() == old(self).artists(),
    {
        if self.artists.len() == usize::MAX && self.artists.find(&artist.uri).is_none() {
            return Err(LibraryError::IdsExhausted);
        }
        let id = self.artists.sync(artist);
        proof {
            old(artist).lemma_with_id(Some(id));
        }
        Ok(())
    }

    /// Upserts every artist, in order. Uris not stored yet are appended in
    /// input order, each once even when it repeats in the input; each
    /// caller's entry receives the id of the first stored entry with its uri.
    pub fn sync_artists(&mut self, artists: &mut Vec<Artist>) -> (r: Result<(), LibraryError>)
        requires
            old(self).wf(),
        ensures
            final(self).wf(),
            final(self).track_store() == old(self).track_store(),
            final(self).album_store() == old(self).album_store(),
            final(self).playlist_store() == old(self).playlist_store(),
            final(artists)@.len() == old(artists)@.len(),
            r is Ok <==> old(self).artists().len() + old(artists)@.len() < usize::MAX,
            r is Ok ==> {
                &&& keys_of(final(self).artists()) == upserted(keys_of(old(self).artists()), old(artists)@)
                &&& final(self).artists().subrange(0, old(self).artists().len() as int) == old(self).artists()
                &&& forall|i: int|
                    0 <= i < old(artists)@.len() ==> {
                        &&& (#[trigger] final(artists)@[i]).id is Some
                        &&& final(artists)@[i] == old(artists)@[i].with_id(final(artists)@[i].id)
                        &&& first_with_key(final(self).artists(), old(artists)@[i].uri@, final(artists)@[i].id.unwrap() as int - 1)
                    }
                &&& forall|i: int|
                    0 <= i < old(artists)@.len() && first_in(old(artists)@, i) && !has_key(old(self).artists(), old(artists)@[i].uri@)
                        ==> final(self).artists()[(#[trigger] final(artists)@[i]).id.unwrap() as int - 1].same(&final(artists)@[i])
            },
            r is Err ==> final(artists)@ == old(artists)@ && final(self).artists() == old(self).artists(),
    {
        if self.artists.len() >= usize::MAX - artists.len() {
            return Err(LibraryError::IdsExhausted);
        }
        self.artists.sync_all(artists);
        Ok(())
    }

    /// A copy of the playlist with the given id.
    pub fn get_playlist(&self, id: usize) -> (r: Option<Playlist>)
        requires
            self.wf(),
        ensures
            r is Some <==> 1 <= id <= self.playlists().len(),
            r matches Some(e) ==> e.same(&self.playlists()[id - 1]) && e.id == Some(id),
    {
        self.playlists.get(id)
    }

    /// A copy of every stored playlist, in insertion order.
    pub fn get_playlists(&self) -> (r: Vec<Playlist>)
        ensures
            copied(self.playlists(), r@),
    {
        self.playlists.all()
    }

    /// Stores the playlist unconditionally under the next id, which is written
    /// into `playlist`.
    pub fn add_playlist(&mut self, playlist: &mut Playlist) -> (r: Result<(), LibraryError>)
        requires
            old(self).wf(),
        ensures
            final(self).wf(),
            final(self).track_store() == old(self).track_store(),
            final(self).album_store() == old(self).album_store(),
            final(self).artist_store() == old(self).artist_store(),
            r is Ok <==> old(self).playlists().len() < usize::MAX,
            r is Ok ==> {
                &&& *final(playlist) == old(playlist).with_id(Some((old(self).playlists().len() + 1) as usize))
                &&& appended(old(self).playlists(), old(playlist).uri@, final(self).playlists(), old(self).playlists().len() + 1int)
                &&& final(self).playlists().last().same(&*final(playlist))
            },
            r is Err ==> *final(playlist) == *old(playlist) && final(self).playlists() == old(self).playlists(),
    {
        if self.playlists.len() == usize::MAX {
            return Err(LibraryError::IdsExhausted);
        }
        self.playlists.add(playlist);
        Ok(())
    }

    /// Stores every playlist, in order, under consecutive ids following the
    /// stored ones; the ids are written back into `playlists`.
    pub fn add_playlists(&mut self, playlists: &mut Vec<Playlist>) -> (r: Result<(), LibraryError>)
        requires
            old(self).wf(),
        ensures
            final(self).wf(),
            final(self).track_store() == old(self).track_store(),
            final(self).album_store() == old(self).album_store(),
            final(self).artist_store() == old(self).artist_store(),
            final(playlists)@.len() == old(playlists)@.len(),
            r is Ok <==> old(self).playlists().len() + old(playlists)@.len() < usize::MAX,
            r is Ok ==> {
                &&& final(self).playlists().len() == old(self).playlists().len() + old(playlists)@.len()
                &&& final(self).playlists().subrange(0, old(self).playlists().len() as int) == old(self).playlists()
                &&& forall|i: int|
                    0 <= i < old(playlists)@.len() ==> #[trigger] final(playlists)@[i] == old(playlists)@[i].with_id(
                        Some((old(self).playlists().len() + 1 + i) as usize),
                    )
                &&& forall|i: int|
                    0 <= i < old(playlists)@.len() ==> (#[trigger] final(self).playlists()[old(self).playlists().len() + i]).same(
                        &final(playlists)@[i],
                    )
            },
            r is Err ==> final(playlists)@ == old(playlists)@ && final(self).playlists() == old(self).playlists(),
    {
        if self.playlists.len() >= usize::MAX - playlists.len() {
            return Err(LibraryError::IdsExhausted);
        }
        self.playlists.add_all(playlists);
        Ok(())
    }

    /// Upserts the playlist by uri: an entry already stored under its uri keeps
    /// its fields and lends its id; otherwise the playlist is stored under the
    /// next id. Either way `playlist` receives the id.
    pub fn sync_playlist(&mut self, playlist: &mut Playlist) -> (r: Result<(), LibraryError>)
        requires
            old(self).wf(),
        ensures
            final(self).wf(),
            final(self).track_store() == old(self).track_store(),
            final(self).album_store() == old(self).album_store(),
            final(self).artist_store() == old(self).artist_store(),
            r is Ok <==> old(self).playlists().len() < usize::MAX || has_key(old(self).playlists(), old(playlist).uri@),
            r is Ok ==> {
                &&& final(playlist).id is Some
                &&& *final(playlist) == old(playlist).with_id(final(playlist).id)
                &&& synced(old(self).playlists(), old(playlist).uri@, final(self).playlists(), final(playlist).id.unwrap() as int)
                &&& !has_key(old(self).playlists(), old(playlist).uri@) ==> final(self).playlists().last().same(&*final(playlist))
            },
            r is Err ==> *final(playlist) == *old(playlist) && final(self).playlists() == old(self).playlists(),
    {
        if self.playlists.len() == usize::MAX && self.playlists.find(&playlist.uri).is_none() {
            return Err(LibraryError::IdsExhausted);
        }
        let id = self.playlists.sync(playlist);
        proof {
            old(playlist).lemma_with_id(Some(id));
        }
        Ok(())
    }

    /// Upserts every playlist, in order. Uris not stored yet are appended in
    /// input order, each once even when it repeats in the input; each
    /// caller's entry receives the id of the first stored entry with its uri.
    pub fn sync_playlists(&mut self, playlists: &mut Vec<Playlist>) -> (r: Result<(), LibraryError>)
        requires
            old(self).wf(),
        ensures
            final(self).wf(),
            final(self).track_store() == old(self).track_store(),
            final(self).album_store() == old(self).album_store(),
            final(self).artist_store() == old(self).artist_store(),
            final(playlists)@.len() == old(playlists)@.len(),
            r is Ok <==> old(self).playlists().len() + old(playlists)@.len() < usize::MAX,
            r is Ok ==> {
                &&& keys_of(final(self).playlists()) == upserted(keys_of(old(self).playlists()), old(playlists)@)
                &&& final(self).playlists().subrange(0, old(self).playlists().len() as int) == old(self).playlists()
                &&& forall|i: int|
                    0 <= i < old(playlists)@.len() ==> {
                        &&& (#[trigger] final(playlists)@[i]).id is Some
                        &&& final(playlists)@[i] == old(playlists)@[i].with_id(final(playlists)@[i].id)
                        &&& first_with_key(final(self).playlists(), old(playlists)@[i].uri@, final(playlists)@[i].id.unwrap() as int - 1)
                    }
                &&& forall|i: int|
                    0 <= i < old(playlists)@.len() && first_in(old(playlists)@, i) && !has_key(old(self).playlists(), old(playlists)@[i].uri@)
                        ==> final(self).playlists()[(#[trigger] final(playlists)@[i]).id.unwrap() as int - 1].same(&final(playlists)@[i])
            },
            r is Err ==> final(playlists)@ == old(playlists)@ && final(self).playlists() == old(self).playlists(),
    {
        if self.playlists.len() >= usize::MAX - playlists.len() {
            return Err(LibraryError::IdsExhausted);
        }
        self.playlists.sync_all(playlists);
        Ok(())
    }

    /// The stored tracks whose title contains `query` (case-sensitive), in
    /// insertion order.
    pub fn search(&self, query: String) -> (r: SearchResults)
        ensures
            r.tracks@ == matching_tracks(self.tracks(), query@),
            r.albums@.len() == 0,
            r.artists@.len() == 0,
            r.playlists@.len() == 0,
    {
        let tracks = self.tracks.search(&query);
        SearchResults { tracks, albums: Vec::new(), artists: Vec::new(), playlists: Vec::new() }
    }

    /// The first stored track with the given uri; nothing when no stored
    /// track has it.
    pub fn find_track(&self, uri: &String) -> (r: Option<Track>)
        requires
            self.wf(),
        ensures
            r is None <==> !has_key(self.tracks(), uri@),
            r matches Some(t) ==> exists|i: int| first_with_key(self.tracks(), uri@, i) && t == self.tracks()[i],
    {
        let _n = self.tracks.len();
        match self.tracks.find(uri) {
            Some(i) => {
                let r = self.tracks.get(i + 1);
                proof {
                    assert(first_with_key(self.tracks(), uri@, i as int));
                }
                r
            },
            None => None,
        }
    }

    /// The first stored track with the given uri. A uri that no stored
    /// track has is not found; asking its provider is left to the caller
    /// (see `provider::ask_owner`).
    pub fn resolve_track(&self, uri: &String) -> (r: Result<Track, ResolveError>)
        requires
            self.wf(),
        ensures
            has_key(self.tracks(), uri@) ==> (r matches Ok(t) && exists|i: int|
                first_with_key(self.tracks(), uri@, i) && t == self.tracks()[i]),
            !has_key(self.tracks(), uri@) ==> r == Err::<Track, ResolveError>(ResolveError::NotFound),
    {
        match self.find_track(uri) {
            Some(t) => Ok(t),
            None => Err(ResolveError::NotFound),
        }
    }
}

} // verus!
