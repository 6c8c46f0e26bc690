use rustic_core::explorer::Explorer;
use rustic_core::library::{InMemoryLibrary, ResolveError};
use rustic_core::provider::{
    ask_owner, owner_of, NavigationError, ProviderFolder, ProviderInstance, ProviderItem, SyncError, SyncResult,
};
use rustic_core::sync::SyncScheduler;
use rustic_core::{Provider, Track};

fn track(title: &str, uri: &str) -> Track {
    Track {
        id: None,
        title: title.to_string(),
        artist_id: None,
        album_id: None,
        stream_url: String::new(),
        provider: Provider::Soundcloud,
        uri: uri.to_string(),
        image_url: None,
        duration: None,
    }
}

struct Fake {
    name: &'static str,
    scheme: &'static str,
    uris: Vec<&'static str>,
    fail: bool,
}

impl ProviderInstance for Fake {
    fn setup(&mut self) -> Result<(), SyncError> {
        Ok(())
    }
    fn title(&self) -> String {
        self.name.to_string()
    }
    fn uri_scheme(&self) -> String {
        self.scheme.to_string()
    }
    fn sync(&mut self, library: &mut InMemoryLibrary) -> Result<SyncResult, SyncError> {
        if self.fail {
            return Err(SyncError::ConfigurationError);
        }
        let mut tracks: Vec<Track> = self.uris.iter().map(|u| track(u, u)).collect();
        library.sync_tracks(&mut tracks).map_err(|_| SyncError::LibraryAccessError)?;
        Ok(SyncResult { tracks: tracks.len(), albums: 0, artists: 0, playlists: 0 })
    }
    fn root(&self) -> ProviderFolder {
        ProviderFolder { folders: vec![format!("{} root", self.name)], items: vec![] }
    }
    fn navigate(&self, path: Vec<String>) -> Result<ProviderFolder, NavigationError> {
        Ok(ProviderFolder { folders: path, items: vec![] })
    }
    fn search(&self, _query: String) -> Result<Vec<ProviderItem>, NavigationError> {
        Ok(vec![])
    }
    fn resolve_track(&self, uri: &String) -> Result<Option<Track>, NavigationError> {
        if self.fail {
            return Err(NavigationError::FetchError);
        }
        Ok(Some(track("resolved", uri)))
    }
}

fn fake(name: &'static str, scheme: &'static str, uris: Vec<&'static str>) -> Fake {
    Fake { name, scheme, uris, fail: false }
}

#[test]
fn navigate_absolute_splits_on_slashes() {
    let mut explorer = Explorer::new(vec![fake("Local", "file", vec![])]);
    explorer.navigate_absolute("Local/Albums/".to_string());
    assert_eq!(explorer.path, vec!["Local".to_string(), "Albums".to_string()]);
    assert_eq!(explorer.path(), "Local/Albums/");
    explorer.navigate_absolute("a//b".to_string());
    assert_eq!(explorer.path, vec!["a".to_string(), "".to_string(), "b".to_string()]);
    explorer.navigate_absolute(String::new());
    assert!(explorer.path.is_empty());
    assert_eq!(explorer.path(), "");
}

#[test]
fn navigate_and_go_up() {
    let mut explorer = Explorer::new(vec![fake("Local", "file", vec![])]);
    explorer.navigate("Local".to_string());
    explorer.navigate("x".to_string());
    explorer.go_up();
    assert_eq!(explorer.path(), "Local/");
    explorer.go_up();
    explorer.go_up();
    assert_eq!(explorer.path(), "");
}

#[test]
fn items_dispatch_to_the_named_provider() {
    let mut explorer =
        Explorer::new(vec![fake("Local", "file", vec![]), fake("Soundcloud", "soundcloud", vec![])]);
    let root = explorer.items().unwrap();
    assert_eq!(root.folders, vec!["Local".to_string(), "Soundcloud".to_string()]);
    explorer.navigate_absolute("Soundcloud".to_string());
    assert_eq!(explorer.items().unwrap().folders, vec!["Soundcloud root".to_string()]);
    explorer.navigate_absolute("Soundcloud/Likes/more".to_string());
    assert_eq!(explorer.items().unwrap().folders, vec!["Likes".to_string(), "more".to_string()]);
    explorer.navigate_absolute("Spotify".to_string());
    assert!(matches!(explorer.items(), Err(NavigationError::PathNotFound)));
}

#[test]
fn resolve_finds_stored_tracks_only() {
    let mut library = InMemoryLibrary::new();
    let mut known = track("known", "soundcloud://track/1");
    library.add_track(&mut known).unwrap();
    let hit = library.resolve_track(&"soundcloud://track/1".to_string()).unwrap();
    assert_eq!(hit.title, "known");
    assert_eq!(hit.id, Some(1));
    assert_eq!(library.resolve_track(&"soundcloud://track/2".to_string()).unwrap_err(), ResolveError::NotFound);
    assert_eq!(library.resolve_track(&"not a uri".to_string()).unwrap_err(), ResolveError::NotFound);
}

#[test]
fn the_owning_provider_is_picked_by_scheme() {
    let schemes = vec!["file".to_string(), "soundcloud".to_string(), "soundcloud".to_string()];
    assert_eq!(owner_of(&schemes, &"soundcloud://track/2".to_string()), Ok(Some(1)));
    assert_eq!(owner_of(&schemes, &"spotify://track/3".to_string()), Ok(None));
    assert_eq!(owner_of(&schemes, &"not a uri".to_string()), Err(ResolveError::InvalidUri));
}

#[test]
fn asking_the_owner_resolves_unstored_uris() {
    let providers = vec![fake("Local", "file", vec![]), fake("Soundcloud", "soundcloud", vec![])];
    let asked = ask_owner(&providers, &"soundcloud://track/2".to_string()).unwrap().unwrap();
    assert_eq!(asked.title, "resolved");
    assert_eq!(asked.id, None);
    assert!(ask_owner(&providers, &"spotify://track/3".to_string()).unwrap().is_none());
    assert_eq!(ask_owner(&providers, &"not a uri".to_string()).unwrap_err(), ResolveError::InvalidUri);
}

#[test]
fn resolve_reports_a_failing_provider() {
    let providers = vec![Fake { name: "Local", scheme: "file", uris: vec![], fail: true }];
    let r = ask_owner(&providers, &"file:///a.mp3".to_string());
    assert_eq!(r.unwrap_err(), ResolveError::Provider(NavigationError::FetchError));
}

#[test]
fn a_failing_provider_does_not_stop_the_cycle() {
    let mut library = InMemoryLibrary::new();
    let mut scheduler = SyncScheduler::new(vec![
        fake("A", "a", vec!["a://1", "a://2"]),
        Fake { name: "B", scheme: "b", uris: vec!["b://1"], fail: true },
        fake("C", "c", vec!["c://1"]),
    ]);
    let outcomes = scheduler.run_cycle(&mut library);
    assert_eq!(outcomes.len(), 3);
    assert_eq!(outcomes[0].unwrap().tracks, 2);
    assert_eq!(outcomes[1], Err(SyncError::ConfigurationError));
    assert_eq!(outcomes[2].unwrap().tracks, 1);
    assert_eq!(library.get_tracks().len(), 3);
}

#[test]
fn interleaved_syncs_collapse_duplicates() {
    let mut library = InMemoryLibrary::new();
    let first: Vec<String> = (0..50).map(|i| format!("x://{}", i)).collect();
    let second: Vec<String> = (25..100).map(|i| format!("x://{}", i)).collect();
    for i in 0..75 {
        for uris in [&first, &second] {
            if let Some(u) = uris.get(i) {
                let mut t = track(u, u);
                library.sync_track(&mut t).unwrap();
                assert!(t.id.unwrap() >= 1);
            }
        }
    }
    let stored = library.get_tracks();
    assert_eq!(stored.len(), 100);
    for (i, t) in stored.iter().enumerate() {
        assert_eq!(t.id, Some(i + 1));
    }
    let mut uris: Vec<String> = stored.iter().map(|t| t.uri.clone()).collect();
    uris.sort();
    uris.dedup();
    assert_eq!(uris.len(), 100);
}

#[test]
fn interleaved_syncs_with_disjoint_uris_sum_up() {
    let mut library = InMemoryLibrary::new();
    let mut scheduler = SyncScheduler::new(vec![
        fake("A", "a", vec!["a://1", "a://2", "a://3"]),
        fake("B", "b", vec!["b://1", "b://2"]),
    ]);
    scheduler.run_cycle(&mut library);
    assert_eq!(library.get_tracks().len(), 5);
    let mut overlapping =
        SyncScheduler::new(vec![fake("A", "a", vec!["a://1", "x://9"]), fake("B", "b", vec!["x://9", "b://1"])]);
    overlapping.run_cycle(&mut library);
    assert_eq!(library.get_tracks().len(), 6);
}

#[test]
fn sync_errors_describe_themselves() {
    assert_eq!(SyncError::ConfigurationError.message(), "Configuration Error");
    assert_eq!(SyncError::LibraryAccessError.message(), "Library Access Error");
}
