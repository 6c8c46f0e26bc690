use rustic_core::library::{InMemoryLibrary, LibraryError};
use rustic_core::{Provider, Track};

fn track(title: &str, uri: &str) -> Track {
    Track {
        id: None,
        title: title.to_string(),
        artist_id: None,
        album_id: None,
        stream_url: format!("{}/stream", uri),
        provider: Provider::LocalMedia,
        uri: uri.to_string(),
        image_url: None,
        duration: None,
    }
}

#[test]
fn insert_two_tracks_gets_ids_one_and_two() {
    let mut library = InMemoryLibrary::new();
    let mut a = track("A", "file://a");
    let mut b = track("B", "file://b");
    library.add_track(&mut a).unwrap();
    library.add_track(&mut b).unwrap();
    assert_eq!(a.id, Some(1));
    assert_eq!(b.id, Some(2));
    let stored = library.get_tracks();
    assert_eq!(stored.len(), 2);
    assert_eq!(stored[0].id, Some(1));
    assert_eq!(stored[1].id, Some(2));
    assert_eq!(library.get_track(2).unwrap().title, "B");
    assert!(library.get_track(0).is_none());
    assert!(library.get_track(3).is_none());
}

#[test]
fn add_appends_even_for_a_known_uri() {
    let mut library = InMemoryLibrary::new();
    let mut a = track("A", "x");
    let mut again = track("A again", "x");
    library.add_track(&mut a).unwrap();
    library.add_track(&mut again).unwrap();
    assert_eq!(again.id, Some(2));
    assert_eq!(library.get_tracks().len(), 2);
}

#[test]
fn sync_same_uri_twice_stores_one_track() {
    let mut library = InMemoryLibrary::new();
    let mut first = track("first", "x");
    let mut second = track("second", "x");
    library.sync_track(&mut first).unwrap();
    library.sync_track(&mut second).unwrap();
    assert_eq!(first.id, Some(1));
    assert_eq!(second.id, Some(1));
    let stored = library.get_tracks();
    assert_eq!(stored.len(), 1);
    assert_eq!(stored[0].uri, "x");
    // the stored fields are not refreshed
    assert_eq!(stored[0].title, "first");
}

#[test]
fn batch_add_assigns_consecutive_ids() {
    let mut library = InMemoryLibrary::new();
    let mut one = track("one", "u1");
    library.add_track(&mut one).unwrap();
    let mut batch = vec![track("two", "u2"), track("three", "u3")];
    library.add_tracks(&mut batch).unwrap();
    assert_eq!(batch[0].id, Some(2));
    assert_eq!(batch[1].id, Some(3));
    assert_eq!(library.get_tracks().len(), 3);
}

#[test]
fn batch_sync_reuses_known_ids() {
    let mut library = InMemoryLibrary::new();
    let mut batch = vec![track("a", "u1"), track("b", "u2"), track("a twice", "u1")];
    library.sync_tracks(&mut batch).unwrap();
    assert_eq!(batch[0].id, Some(1));
    assert_eq!(batch[1].id, Some(2));
    assert_eq!(batch[2].id, Some(1));
    assert_eq!(library.get_tracks().len(), 2);
}

#[test]
fn search_is_a_case_sensitive_substring_match() {
    let mut library = InMemoryLibrary::new();
    let mut batch = vec![
        track("Ukulele", "u1"),
        track("ukulele remix", "u2"),
        track("Piano", "u3"),
        track("Electric Ukulele", "u4"),
    ];
    library.add_tracks(&mut batch).unwrap();
    let found = library.search("Ukulele".to_string());
    let titles: Vec<String> = found.tracks.iter().map(|t| t.title.clone()).collect();
    assert_eq!(titles, vec!["Ukulele".to_string(), "Electric Ukulele".to_string()]);
    assert!(found.albums.is_empty());
    assert!(library.search("".to_string()).tracks.len() == 4);
    assert!(library.search("Drums".to_string()).tracks.is_empty());
}

#[test]
fn library_error_is_comparable() {
    assert_eq!(LibraryError::IdsExhausted, LibraryError::IdsExhausted);
}

#[test]
fn tracks_sort_by_title() {
    let mut tracks = vec![track("b", "u1"), track("B", "u2"), track("ab", "u3"), track("a", "u4")];
    tracks.sort_by(|x, y| x.partial_cmp(y).unwrap());
    let titles: Vec<&str> = tracks.iter().map(|t| t.title.as_str()).collect();
    assert_eq!(titles, vec!["B", "a", "ab", "b"]);
    // equality goes by uri alone
    assert!(track("same", "u") == track("other title", "u"));
    assert!(track("same", "u") != track("same", "v"));
}
