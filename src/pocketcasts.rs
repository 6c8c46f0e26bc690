//! The podcast provider. Its remote API is reached outside the library;
//! what it returns is described here as plain records, turned into catalog
//! entities and merged into the catalog.

use crate::entity::{Album, Artist, Provider, Track};
use crate::library::InMemoryLibrary;
use crate::provider::{NavigationError, ProviderFolder, ProviderItem, SyncError, SyncResult};
use crate::text::{copy_opt, prefixed};
use vstd::prelude::*;

verus! {

/// A subscribed podcast, as the remote API lists it.
#[derive(Debug, Clone)]
pub struct Podcast {
    pub uuid: String,
    pub title: String,
    pub author: String,
    pub thumbnail_url: Option<String>,
}

/// One episode of a podcast.
#[derive(Debug, Clone)]
pub struct Episode {
    pub uuid: String,
    pub title: String,
    pub url: String,
    pub duration: Option<u64>,
}

pub open spec fn episode_uri(uuid: Seq<char>) -> Seq<char> {
    "pocketcasts://episode/"@ + uuid
}

pub open spec fn podcast_uri(uuid: Seq<char>) -> Seq<char> {
    "pocketcasts://podcast/"@ + uuid
}

pub open spec fn author_uri(author: Seq<char>) -> Seq<char> {
    "pocketcasts://interpret/"@ + author
}

/// The author of a podcast, as an artist.
pub fn artist_from_podcast(podcast: &Podcast) -> (r: Artist)
    ensures
        r.id is None,
        r.name@ == podcast.author@,
        r.uri@ == author_uri(podcast.author@),
        r.image_url is None,
{
    Artist {
        id: None,
        name: podcast.author.clone(),
        uri: prefixed("pocketcasts://interpret/", podcast.author.as_str()),
        image_url: None,
    }
}

/// A podcast, as an album by its author.
pub fn album_from_podcast(podcast: &Podcast) -> (r: Album)
    ensures
        r.id is None,
        r.title@ == podcast.title@,
        r.artist_id is None,
        r.artist matches Some(a) && a.name@ == podcast.author@ && a.uri@ == author_uri(podcast.author@),
        r.provider == Provider::Pocketcasts,
        r.image_url == podcast.thumbnail_url,
        r.uri@ == podcast_uri(podcast.uuid@),
{
    Album {
        id: None,
        title: podcast.title.clone(),
        artist_id: None,
        artist: Some(artist_from_podcast(podcast)),
        provider: Provider::Pocketcasts,
        image_url: copy_opt(&podcast.thumbnail_url),
        uri: prefixed("pocketcasts://podcast/", podcast.uuid.as_str()),
    }
}

/// An episode, as a track.
pub fn track_from_episode(episode: &Episode) -> (r: Track)
    ensures
        r.id is None,
        r.title@ == episode.title@,
        r.artist_id is None,
        r.album_id is None,
        r.stream_url@ == episode.url@,
        r.provider == Provider::Pocketcasts,
        r.uri@ == episode_uri(episode.uuid@),
        r.image_url is None,
        r.duration == episode.duration,
{
    Track {
        id: None,
        title: episode.title.clone(),
        artist_id: None,
        album_id: None,
        stream_url: episode.url.clone(),
        provider: Provider::Pocketcasts,
        uri: prefixed("pocketcasts://episode/", episode.uuid.as_str()),
        image_url: None,
        duration: episode.duration,
    }
}

/// Total number of episodes over all podcasts.
pub open spec fn episode_count(fetched: Seq<(Podcast, Vec<Episode>)>) -> int
    decreases fetched.len(),
{
    if fetched.len() == 0 {
        0
    } else {
        episode_count(fetched.drop_last()) + fetched.last().1@.len()
    }
}

/// The podcast listings the provider offers at its root.
#[derive(Debug, Clone, Copy, PartialEq, Eq, Structural)]
pub enum Listing {
    Subscriptions,
    TopCharts,
    Featured,
    Trending,
}

/// What a navigation path asks for.
#[derive(Debug, Clone, PartialEq, Eq)]
pub enum Route {
    /// The titles of the podcasts of a listing.
    Podcasts(Listing),
    /// The episodes of the podcast titled so in a listing.
    Episodes(Listing, String),
}

pub open spec fn listing_named(name: Seq<char>) -> Option<Listing> {
    if name == "Subscriptions"@ {
        Some(Listing::Subscriptions)
    } else if name == "Top Charts"@ {
        Some(Listing::TopCharts)
    } else if name == "Featured"@ {
        Some(Listing::Featured)
    } else if name == "Trending"@ {
        Some(Listing::Trending)
    } else {
        None
    }
}

fn listing_of(name: &String) -> (r: Option<Listing>)
    ensures
        r == listing_named(name@),
{
    if name.eq(&String::from_str("Subscriptions")) {
        Some(Listing::Subscriptions)
    } else if name.eq(&String::from_str("Top Charts")) {
        Some(Listing::TopCharts)
    } else if name.eq(&String::from_str("Featured")) {
        Some(Listing::Featured)
    } else if name.eq(&String::from_str("Trending")) {
        Some(Listing::Trending)
    } else {
        None
    }
}

/// Reads a path below the root: a listing, optionally followed by a podcast
/// title. Anything else is not found.
pub fn route(path: &Vec<String>) -> (r: Result<Route, NavigationError>)
    ensures
        path@.len() == 0 || path@.len() > 2 || listing_named(path@[0]@) is None ==> r == Err::<
            Route,
            NavigationError,
        >(NavigationError::PathNotFound),
        path@.len() == 1 && listing_named(path@[0]@) is Some ==> r == Ok::<Route, NavigationError>(
            Route::Podcasts(listing_named(path@[0]@).unwrap()),
        ),
        path@.len() == 2 && listing_named(path@[0]@) is Some ==> (r matches Ok(Route::Episodes(l, t)) && l
            == listing_named(path@[0]@).unwrap() && t@ == path@[1]@),
{
    if path.len() == 0 || path.len() > 2 {
        return Err(NavigationError::PathNotFound);
    }
    match listing_of(&path[0]) {
        None => Err(NavigationError::PathNotFound),
        Some(l) => {
            if path.len() == 1 {
                Ok(Route::Podcasts(l))
            } else {
                Ok(Route::Episodes(l, path[1].clone()))
            }
        },
    }
}

/// A listing's podcasts, as sub-folders named by their titles.
pub fn podcast_folder(podcasts: &Vec<Podcast>) -> (r: ProviderFolder)
    ensures
        r.folders@.len() == podcasts@.len(),
        forall|i: int| 0 <= i < podcasts@.len() ==> (#[trigger] r.folders@[i])@ == podcasts@[i].title@,
        r.items@.len() == 0,
{
    let mut folders: Vec<String> = Vec::new();
    let mut i: usize = 0;
    while i < podcasts.len()
        invariant
            i <= podcasts@.len(),
            folders@.len() == i,
            forall|j: int| 0 <= j < i ==> (#[trigger] folders@[j])@ == podcasts@[j].title@,
        decreases podcasts@.len() - i,
    {
        folders.push(podcasts[i].title.clone());
        i = i + 1;
    }
    ProviderFolder { folders, items: Vec::new() }
}

/// Position of the first podcast with the given title.
pub fn podcast_titled(podcasts: &Vec<Podcast>, title: &String) -> (r: Option<usize>)
    ensures
        r matches Some(i) ==> i < podcasts@.len() && podcasts@[i as int].title@ == title@ && forall|j: int|
            0 <= j < i ==> #[trigger] podcasts@[j].title@ != title@,
        r is None ==> forall|j: int| 0 <= j < podcasts@.len() ==> #[trigger] podcasts@[j].title@ != title@,
{
    let mut i: usize = 0;
    while i < podcasts.len()
        invariant
            i <= podcasts@.len(),
            forall|j: int| 0 <= j < i ==> #[trigger] podcasts@[j].title@ != title@,
        decreases podcasts@.len() - i,
    {
        if podcasts[i].title.eq(title) {
            return Some(i);
        }
        i = i + 1;
    }
    None
}

/// A podcast's episodes, as track items.
pub fn episode_folder(episodes: &Vec<Episode>) -> (r: ProviderFolder)
    ensures
        r.folders@.len() == 0,
        r.items@.len() == episodes@.len(),
        forall|i: int|
            0 <= i < episodes@.len() ==> (#[trigger] r.items@[i]).label@ == episodes@[i].title@ && (r.items@[i].track matches Some(t)
                && t.uri@ == episode_uri(episodes@[i].uuid@)),
{
    let mut items: Vec<ProviderItem> = Vec::new();
    let mut i: usize = 0;
    while i < episodes.len()
        invariant
            i <= episodes@.len(),
            items@.len() == i,
            forall|j: int|
                0 <= j < i ==> (#[trigger] items@[j]).label@ == episodes@[j].title@ && (items@[j].track matches Some(t)
                    && t.uri@ == episode_uri(episodes@[j].uuid@)),
        decreases episodes@.len() - i,
    {
        items.push(ProviderItem::from_track(track_from_episode(&episodes[i])));
        i = i + 1;
    }
    ProviderFolder { folders: Vec::new(), items }
}

/// Reaches Pocket Casts with the user's credentials.
#[derive(Debug, Clone)]
pub struct PocketcastsProvider {
    pub email: String,
    pub password: String,
}

impl PocketcastsProvider {
    pub fn title(&self) -> (r: String)
        ensures
            r@ == "Pocketcasts"@,
    {
        String::from_str("Pocketcasts")
    }

    pub fn uri_scheme(&self) -> (r: String)
        ensures
            r@ == "pocketcasts"@,
    {
        String::from_str("pocketcasts")
    }

    /// The root folder: one sub-folder per listing.
    pub fn root(&self) -> (r: ProviderFolder)
        ensures
            r.folders@.len() == 4,
            r.folders@[0]@ == "Subscriptions"@,
            r.folders@[1]@ == "Top Charts"@,
            r.folders@[2]@ == "Featured"@,
            r.folders@[3]@ == "Trending"@,
            r.items@.len() == 0,
    {
        let mut folders: Vec<String> = Vec::new();
        folders.push(String::from_str("Subscriptions"));
        folders.push(String::from_str("Top Charts"));
        folders.push(String::from_str("Featured"));
        folders.push(String::from_str("Trending"));
        ProviderFolder { folders, items: Vec::new() }
    }

    /// Merges what a sync fetched into the catalog: for each podcast its author
    /// (as an artist) and the podcast itself (as an album linked to the author)
    /// are upserted, and its episodes become tracks linked to both and showing
    /// the podcast's thumbnail; the tracks are upserted last, all together.
    pub fn merge_subscriptions(&self, library: &mut InMemoryLibrary, fetched: &Vec<(Podcast, Vec<Episode>)>) -> (r: Result<
        SyncResult,
        SyncError,
    >)
        requires
            old(library).wf(),
            episode_count(fetched@) <= usize::MAX,
        ensures
            final(library).wf(),
            r matches Ok(res) ==> res == (SyncResult {
                tracks: episode_count(fetched@) as usize,
                albums: fetched@.len() as usize,
                artists: fetched@.len() as usize,
                playlists: 0,
            }),
            r matches Err(e) ==> e == SyncError::LibraryAccessError,
            old(library).artists().len() + fetched@.len() < usize::MAX && old(library).albums().len()
                + fetched@.len() < usize::MAX && old(library).tracks().len() + episode_count(fetched@)
                < usize::MAX ==> r is Ok,
    {
        let mut tracks: Vec<Track> = Vec::new();
        let mut i: usize = 0;
        while i < fetched.len()
            invariant
                library.wf(),
                library.artists().len() <= old(library).artists().len() + i,
                library.albums().len() <= old(library).albums().len() + i,
                library.tracks() == old(library).tracks(),
                i <= fetched@.len(),
                episode_count(fetched@) <= usize::MAX,
                tracks@.len() == episode_count(fetched@.subrange(0, i as int)),
            decreases fetched@.len() - i,
        {
            let (podcast, episodes) = &fetched[i];
            let mut artist = artist_from_podcast(podcast);
            if library.sync_artist(&mut artist).is_err() {
                return Err(SyncError::LibraryAccessError);
            }
            let mut album = album_from_podcast(podcast);
            album.artist_id = artist.id;
            if library.sync_album(&mut album).is_err() {
                return Err(SyncError::LibraryAccessError);
            }
            proof {
                assert(fetched@.subrange(0, i + 1).drop_last() =~= fetched@.subrange(0, i as int));
                lemma_count_prefix(fetched@, i + 1);
            }
            let mut k: usize = 0;
            while k < episodes.len()
                invariant
                    library.wf(),
                    library.artists().len() <= old(library).artists().len() + i + 1,
                    library.albums().len() <= old(library).albums().len() + i + 1,
                    library.tracks() == old(library).tracks(),
                    k <= episodes@.len(),
                    tracks@.len() == episode_count(fetched@.subrange(0, i as int)) + k,
                    episode_count(fetched@.subrange(0, i + 1)) <= usize::MAX,
                    episode_count(fetched@.subrange(0, i + 1)) == episode_count(fetched@.subrange(0, i as int))
                        + episodes@.len(),
                decreases episodes@.len() - k,
            {
                let mut track = track_from_episode(&episodes[k]);
                track.album_id = album.id;
                track.artist_id = artist.id;
                track.image_url = copy_opt(&album.image_url);
                tracks.push(track);
                k = k + 1;
            }
            i = i + 1;
        }
        assert(fetched@.subrange(0, fetched@.len() as int) =~= fetched@);
        let count = tracks.len();
        match library.sync_tracks(&mut tracks) {
            Ok(()) => Ok(SyncResult { tracks: count, albums: fetched.len(), artists: fetched.len(), playlists: 0 }),
            Err(_) => Err(SyncError::LibraryAccessError),
        }
    }
}

proof fn lemma_count_prefix(s: Seq<(Podcast, Vec<Episode>)>, n: int)
    requires
        0 <= n <= s.len(),
    ensures
        episode_count(s.subrange(0, n)) <= episode_count(s),
    decreases s.len(),
{
    if n < s.len() {
        assert(s.drop_last().subrange(0, n) =~= s.subrange(0, n));
        lemma_count_prefix(s.drop_last(), n);
    } else {
        assert(s.subrange(0, n) =~= s);
    }
}

} // verus!
