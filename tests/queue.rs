use rustic_core::queue::Queue;
use rustic_core::{Provider, Track};

fn track(title: &str) -> Track {
    Track {
        id: None,
        title: title.to_string(),
        artist_id: None,
        album_id: None,
        stream_url: String::new(),
        provider: Provider::Soundcloud,
        uri: format!("soundcloud://track/{}", title),
        image_url: None,
        duration: Some(1000),
    }
}

#[test]
fn queue_walks_forward_and_back() {
    let mut queue = Queue::new();
    queue.add_multiple(vec![track("A"), track("B"), track("C")]);
    assert_eq!(queue.current().unwrap().title, "A");
    assert_eq!(queue.next().unwrap().title, "B");
    assert_eq!(queue.next().unwrap().title, "C");
    assert!(queue.next().is_none());
    assert_eq!(queue.current().unwrap().title, "C");
    assert_eq!(queue.prev().unwrap().title, "B");
}

#[test]
fn prev_at_start_keeps_cursor() {
    let mut queue = Queue::new();
    queue.add_track(track("A"));
    queue.add_track(track("B"));
    assert!(queue.prev().is_none());
    assert_eq!(queue.current().unwrap().title, "A");
}

#[test]
fn empty_queue_has_no_current_track() {
    let mut queue = Queue::new();
    assert!(queue.current().is_none());
    assert!(queue.next().is_none());
    assert!(queue.prev().is_none());
    assert_eq!(queue.size(), 0);
}

#[test]
fn clear_resets_the_cursor() {
    let mut queue = Queue::new();
    queue.add_multiple(vec![track("A"), track("B")]);
    queue.next();
    queue.clear();
    assert_eq!(queue.size(), 0);
    assert!(queue.current().is_none());
    queue.add_track(track("C"));
    assert_eq!(queue.current().unwrap().title, "C");
}
