use rustic_core::cache::{coverart_filename, Cache, CoverartStep};
use rustic_core::{Provider, Track};

#[test]
fn coverart_file_is_the_md5_hex_of_the_uri() {
    assert_eq!(coverart_filename(&"abc".to_string()), "900150983cd24fb0d6963f7d28e17f72.png");
    assert_eq!(coverart_filename(&String::new()), "d41d8cd98f00b204e9800998ecf8427e.png");
}

#[test]
fn cache_aside_lookup_and_record() {
    let mut cache = Cache::new();
    let uri = "abc".to_string();
    assert_eq!(
        cache.fetch_coverart(&uri),
        CoverartStep::Download("900150983cd24fb0d6963f7d28e17f72.png".to_string())
    );
    let path = cache.record(uri.clone(), "900150983cd24fb0d6963f7d28e17f72.png".to_string());
    assert_eq!(path, "/cache/coverart/900150983cd24fb0d6963f7d28e17f72.png");
    assert_eq!(cache.fetch_coverart(&uri), CoverartStep::Cached(path.clone()));
    // a second record keeps the first file
    assert_eq!(cache.record(uri.clone(), "other.png".to_string()), path);
}

#[test]
fn missing_coverart_lists_uncached_images() {
    let mut cache = Cache::new();
    cache.record("http://img/1".to_string(), "one.png".to_string());
    let make = |image: Option<&str>| Track {
        id: None,
        title: "t".to_string(),
        artist_id: None,
        album_id: None,
        stream_url: String::new(),
        provider: Provider::Spotify,
        uri: "spotify://track/1".to_string(),
        image_url: image.map(|s| s.to_string()),
        duration: None,
    };
    let tracks = vec![make(Some("http://img/1")), make(None), make(Some("http://img/2"))];
    assert_eq!(cache.missing_coverart(&tracks), vec!["http://img/2".to_string()]);
}
