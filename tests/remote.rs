use rustic_core::library::InMemoryLibrary;
use rustic_core::pocketcasts::{
    album_from_podcast, episode_folder, podcast_folder, route, track_from_episode, Episode, Listing,
    PocketcastsProvider, Podcast, Route,
};
use rustic_core::provider::NavigationError;
use rustic_core::soundcloud::{
    track_from_remote, RemoteLike, RemotePlaylist, RemoteTrack, SoundcloudPlaylist, SoundcloudProvider,
};
use rustic_core::spotify::{
    convert_images, search_items, Image, SpotifyAlbum, SpotifyArtist, SpotifyProvider, SpotifyTrack,
};
use rustic_core::Provider;

fn podcast(uuid: &str, title: &str) -> Podcast {
    Podcast {
        uuid: uuid.to_string(),
        title: title.to_string(),
        author: "Author".to_string(),
        thumbnail_url: Some("http://thumb".to_string()),
    }
}

fn episode(uuid: &str) -> Episode {
    Episode { uuid: uuid.to_string(), title: format!("ep {}", uuid), url: format!("http://{}", uuid), duration: Some(60) }
}

#[test]
fn podcast_conversions() {
    let p = podcast("pod-a", "Show");
    let album = album_from_podcast(&p);
    assert_eq!(album.uri, "pocketcasts://podcast/pod-a");
    assert_eq!(album.artist.as_ref().unwrap().uri, "pocketcasts://interpret/Author");
    assert_eq!(album.provider, Provider::Pocketcasts);
    let t = track_from_episode(&episode("e1"));
    assert_eq!(t.uri, "pocketcasts://episode/e1");
    assert_eq!(t.stream_url, "http://e1");
    assert_eq!(t.duration, Some(60));
}

#[test]
fn podcast_merge_links_episodes() {
    let mut library = InMemoryLibrary::new();
    let fetched = vec![
        (podcast("pod-a", "One"), vec![episode("a"), episode("b")]),
        (podcast("pod-b", "Two"), vec![episode("c")]),
    ];
    let provider = PocketcastsProvider { email: "e".to_string(), password: "p".to_string() };
    let result = provider.merge_subscriptions(&mut library, &fetched).unwrap();
    assert_eq!((result.tracks, result.albums, result.artists, result.playlists), (3, 2, 2, 0));
    // both podcasts share their author
    assert_eq!(library.get_artists().len(), 1);
    assert_eq!(library.get_albums().len(), 2);
    let tracks = library.get_tracks();
    assert_eq!(tracks.len(), 3);
    assert_eq!(tracks[0].album_id, Some(1));
    assert_eq!(tracks[2].album_id, Some(2));
    assert_eq!(tracks[2].artist_id, Some(1));
    assert_eq!(tracks[0].image_url, Some("http://thumb".to_string()));
    // a second merge stores nothing new
    provider.merge_subscriptions(&mut library, &fetched).unwrap();
    assert_eq!(library.get_tracks().len(), 3);
}

#[test]
fn podcast_navigation_routes() {
    let provider = PocketcastsProvider { email: "e".to_string(), password: "p".to_string() };
    assert_eq!(provider.root().folders, vec!["Subscriptions", "Top Charts", "Featured", "Trending"]);
    assert_eq!(provider.uri_scheme(), "pocketcasts");
    assert_eq!(route(&vec!["Top Charts".to_string()]), Ok(Route::Podcasts(Listing::TopCharts)));
    assert_eq!(
        route(&vec!["Featured".to_string(), "Show".to_string()]),
        Ok(Route::Episodes(Listing::Featured, "Show".to_string()))
    );
    assert_eq!(route(&vec!["Nope".to_string()]), Err(NavigationError::PathNotFound));
    assert_eq!(route(&vec![]), Err(NavigationError::PathNotFound));
    let folder = podcast_folder(&vec![podcast("pod-a", "One"), podcast("pod-b", "Two")]);
    assert_eq!(folder.folders, vec!["One", "Two"]);
    let eps = episode_folder(&vec![episode("a")]);
    assert_eq!(eps.items[0].label, "ep a");
    assert_eq!(eps.items[0].track.as_ref().unwrap().uri, "pocketcasts://episode/a");
}

fn remote(id: u64, stream: bool) -> RemoteTrack {
    RemoteTrack {
        id,
        title: format!("track {}", id),
        stream_url: if stream { Some(format!("http://stream/{}", id)) } else { None },
        artwork_url: None,
        duration: 1234,
    }
}

#[test]
fn soundcloud_conversions() {
    let t = track_from_remote(&remote(120034, true));
    assert_eq!(t.uri, "soundcloud://track/120034");
    assert_eq!(t.duration, Some(1234));
    assert_eq!(track_from_remote(&remote(0, true)).uri, "soundcloud://track/0");
    let playlist = RemotePlaylist { id: 7, title: "Mix".to_string(), tracks: vec![remote(1, true), remote(2, false), remote(3, true)] };
    let converted = SoundcloudPlaylist::from(&playlist, "CID");
    assert_eq!(converted.tracks.len(), 2);
    assert_eq!(converted.tracks[1].stream_url, "http://stream/3?client_id=CID");
    let p = converted.into_playlist();
    assert_eq!(p.uri, "soundcloud://playlist/7");
    assert_eq!(p.provider, Provider::Soundcloud);
}

#[test]
fn soundcloud_likes_and_playlists() {
    let provider = SoundcloudProvider { client_id: "CID".to_string(), auth_token: None };
    assert_eq!(provider.root().folders, vec!["Likes"]);
    assert!(provider.check_path(&vec!["Likes".to_string()]).is_ok());
    assert_eq!(provider.check_path(&vec!["Other".to_string()]), Err(NavigationError::PathNotFound));
    let likes = vec![
        RemoteLike { track: Some(remote(1, true)), playlist: None },
        RemoteLike { track: None, playlist: None },
        RemoteLike { track: None, playlist: Some(RemotePlaylist { id: 9, title: "P".to_string(), tracks: vec![] }) },
    ];
    let folder = provider.likes_folder(&likes);
    assert_eq!(folder.items.len(), 2);
    assert_eq!(folder.items[0].label, "track 1");
    assert_eq!(folder.items[1].playlist.as_ref().unwrap().uri, "soundcloud://playlist/9");
    let mut library = InMemoryLibrary::new();
    let lists = vec![RemotePlaylist { id: 9, title: "P".to_string(), tracks: vec![] }];
    assert_eq!(provider.merge_playlists(&mut library, &lists).unwrap().playlists, 1);
    provider.merge_playlists(&mut library, &lists).unwrap();
    assert_eq!(library.get_playlists().len(), 1);
}

#[test]
fn spotify_search_items_are_grouped() {
    let img = |u: &str| Image { url: u.to_string() };
    assert_eq!(convert_images(&vec![img("a"), img("b")]), Some("a".to_string()));
    assert_eq!(convert_images(&vec![]), None);
    let albums = vec![SpotifyAlbum { id: "al".to_string(), name: "Album".to_string(), images: vec![], tracks: vec![] }];
    let artists = vec![SpotifyArtist { id: "ar".to_string(), name: "Artist".to_string(), images: vec![img("i")] }];
    let tracks = vec![SpotifyTrack { id: "tr".to_string(), name: "Track".to_string(), duration_ms: 5, album_images: vec![] }];
    let items = search_items(&albums, &artists, &tracks);
    let labels: Vec<&str> = items.iter().map(|i| i.label.as_str()).collect();
    assert_eq!(labels, vec!["Album", "Artist", "Track"]);
    assert_eq!(items[0].album.as_ref().unwrap().uri, "spotify://album/al");
    assert_eq!(items[1].artist.as_ref().unwrap().image_url, Some("i".to_string()));
    assert_eq!(items[2].track.as_ref().unwrap().uri, "spotify://track/tr");
}

#[test]
fn spotify_saved_albums_merge() {
    let provider = SpotifyProvider { client_id: "id".to_string(), client_secret: "secret".to_string() };
    assert!(provider.root().folders.is_empty());
    let track = |id: &str| SpotifyTrack { id: id.to_string(), name: id.to_string(), duration_ms: 1000, album_images: vec![] };
    let albums = vec![
        SpotifyAlbum { id: "a1".to_string(), name: "One".to_string(), images: vec![], tracks: vec![track("t1"), track("t2")] },
        SpotifyAlbum { id: "a2".to_string(), name: "Two".to_string(), images: vec![], tracks: vec![track("t3")] },
    ];
    let mut library = InMemoryLibrary::new();
    let result = provider.merge_saved_albums(&mut library, &albums).unwrap();
    assert_eq!((result.tracks, result.albums), (3, 2));
    let tracks = library.get_tracks();
    assert_eq!(tracks[1].album_id, Some(1));
    assert_eq!(tracks[2].album_id, Some(2));
    assert_eq!(tracks[2].duration, Some(1000));
}
