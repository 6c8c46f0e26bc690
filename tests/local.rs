use rustic_core::library::InMemoryLibrary;
use rustic_core::local::{track_from_local, LocalProvider, LocalTrack};
use rustic_core::Provider;

#[test]
fn test_scan() {
    let provider = LocalProvider { path: "assets".into() };
    let scanned = vec![LocalTrack {
        path: "assets/bensound-ukulele.mp3".into(),
        title: "Ukulele".into(),
        artist: Some("Bensound".into()),
        album: None,
    }];
    let mut library = InMemoryLibrary::new();
    let result = provider.import(&mut library, &scanned).unwrap();
    assert_eq!(result.tracks, 1);
    let tracks = library.get_tracks();
    assert_eq!(tracks.len(), 1);
    assert_eq!(tracks[0].title, "Ukulele");
    assert_eq!(tracks[0].uri, "file://assets/bensound-ukulele.mp3");
    assert_eq!(tracks[0].stream_url, "file://assets/bensound-ukulele.mp3");
    assert_eq!(tracks[0].provider, Provider::LocalMedia);
    assert_eq!(tracks[0].id, Some(1));
}

#[test]
fn local_track_conversion() {
    let file = LocalTrack {
        path: "/music/a.flac".into(),
        title: "A".into(),
        artist: None,
        album: Some("Album".into()),
    };
    let track = track_from_local(&file);
    assert_eq!(track.uri, "file:///music/a.flac");
    assert_eq!(track.title, "A");
    assert_eq!(track.id, None);
}
