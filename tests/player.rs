use rustic_core::bus::{Message, MessageBus, PlayerState, Subscriber};
use rustic_core::player::{BackendError, PlayerEvent, LoopControl, Player, PlayerBackend};
use rustic_core::{Provider, Track};
use std::cell::RefCell;
use std::rc::Rc;

fn track(title: &str) -> Track {
    Track {
        id: None,
        title: title.to_string(),
        artist_id: None,
        album_id: None,
        stream_url: format!("file:///{}.mp3", title),
        provider: Provider::LocalMedia,
        uri: format!("file:///{}.mp3", title),
        image_url: None,
        duration: None,
    }
}

#[derive(Debug, Clone, PartialEq)]
enum Call {
    SetTrack(String, PlayerState),
    Play,
    Pause,
    Stop,
    Volume(u32),
}

#[derive(Clone, Default)]
struct Recorder {
    calls: Rc<RefCell<Vec<Call>>>,
    events: Rc<RefCell<Vec<PlayerEvent>>>,
}

impl PlayerBackend for Recorder {
    fn set_track(&mut self, track: &Track, state: PlayerState) -> Result<(), BackendError> {
        self.calls.borrow_mut().push(Call::SetTrack(track.title.clone(), state));
        Ok(())
    }
    fn play(&mut self) -> Result<(), BackendError> {
        self.calls.borrow_mut().push(Call::Play);
        Ok(())
    }
    fn pause(&mut self) -> Result<(), BackendError> {
        self.calls.borrow_mut().push(Call::Pause);
        Ok(())
    }
    fn stop(&mut self) -> Result<(), BackendError> {
        self.calls.borrow_mut().push(Call::Stop);
        Ok(())
    }
    fn set_volume(&mut self, volume: u32) -> Result<(), BackendError> {
        self.calls.borrow_mut().push(Call::Volume(volume));
        Ok(())
    }
    fn poll_event(&mut self) -> Option<PlayerEvent> {
        self.events.borrow_mut().pop()
    }
}

#[derive(Clone)]
struct Listener {
    name: &'static str,
    seen: Rc<RefCell<Vec<(String, String)>>>,
}

fn describe(message: &Message) -> String {
    match message {
        Message::VolumeChanged => "volume".to_string(),
        Message::PlayerStateChanged(s) => format!("state {:?}", s),
        Message::CurrentlyPlaying(Some(t)) => format!("playing {}", t.title),
        Message::CurrentlyPlaying(None) => "playing nothing".to_string(),
        Message::QueueChanged => "queue".to_string(),
        Message::PlaylistChanged => "playlist".to_string(),
    }
}

impl Subscriber for Listener {
    fn notify(&self, message: Message) {
        self.seen.borrow_mut().push((self.name.to_string(), describe(&message)));
    }
}

fn setup() -> (Player<Recorder, Listener>, Recorder, Rc<RefCell<Vec<(String, String)>>>) {
    let backend = Recorder::default();
    let seen = Rc::new(RefCell::new(Vec::new()));
    let mut player = Player::new(backend.clone(), MessageBus::new());
    player.subscribe(Listener { name: "ui", seen: seen.clone() });
    (player, backend, seen)
}

fn heard(seen: &Rc<RefCell<Vec<(String, String)>>>) -> Vec<String> {
    seen.borrow().iter().map(|(_, m)| m.clone()).collect()
}

#[test]
fn play_on_empty_queue_stays_stopped_and_silent() {
    let (mut player, backend, seen) = setup();
    player.play().unwrap();
    assert_eq!(player.state(), PlayerState::Stop);
    assert!(seen.borrow().is_empty());
    assert!(backend.calls.borrow().is_empty());
}

#[test]
fn play_from_stop_selects_the_current_track() {
    let (mut player, backend, seen) = setup();
    player.add_multiple(vec![track("A"), track("B")]);
    player.play().unwrap();
    assert_eq!(player.state(), PlayerState::Play);
    assert_eq!(heard(&seen), vec!["state Play", "playing A"]);
    assert_eq!(*backend.calls.borrow(), vec![Call::SetTrack("A".into(), PlayerState::Play)]);
    // playing again changes nothing
    player.play().unwrap();
    assert_eq!(heard(&seen).len(), 2);
}

#[test]
fn stop_always_clears_and_announces() {
    let (mut player, backend, seen) = setup();
    player.add_track(track("A"));
    player.play().unwrap();
    seen.borrow_mut().clear();
    player.stop().unwrap();
    assert_eq!(player.state(), PlayerState::Stop);
    assert_eq!(player.queue().size(), 0);
    assert_eq!(heard(&seen), vec!["state Stop", "playing nothing"]);
    assert_eq!(backend.calls.borrow().last(), Some(&Call::Stop));
}

#[test]
fn next_past_the_last_track_stops() {
    let (mut player, backend, seen) = setup();
    player.add_multiple(vec![track("A"), track("B")]);
    player.play().unwrap();
    player.next().unwrap();
    assert_eq!(player.queue().current().unwrap().title, "B");
    seen.borrow_mut().clear();
    backend.calls.borrow_mut().clear();
    player.next().unwrap();
    assert_eq!(player.state(), PlayerState::Stop);
    assert_eq!(heard(&seen), vec!["state Stop", "playing nothing"]);
    assert_eq!(*backend.calls.borrow(), vec![Call::Stop]);
    assert_eq!(player.queue().current().unwrap().title, "B");
}

#[test]
fn next_while_playing_selects_the_next_track() {
    let (mut player, backend, seen) = setup();
    player.add_multiple(vec![track("A"), track("B")]);
    player.play().unwrap();
    player.next().unwrap();
    assert_eq!(heard(&seen), vec!["state Play", "playing A", "playing B"]);
    assert_eq!(backend.calls.borrow().last(), Some(&Call::SetTrack("B".into(), PlayerState::Play)));
    player.prev().unwrap();
    assert_eq!(player.queue().current().unwrap().title, "A");
    player.prev().unwrap();
    assert_eq!(player.state(), PlayerState::Stop);
}

#[test]
fn next_while_paused_only_moves_the_cursor() {
    let (mut player, backend, seen) = setup();
    player.add_multiple(vec![track("A"), track("B")]);
    player.pause().unwrap();
    assert_eq!(player.state(), PlayerState::Pause);
    player.next().unwrap();
    assert_eq!(player.queue().current().unwrap().title, "B");
    assert_eq!(heard(&seen), vec!["state Pause"]);
    assert_eq!(*backend.calls.borrow(), vec![Call::Pause]);
    player.play().unwrap();
    assert_eq!(player.state(), PlayerState::Play);
    assert_eq!(backend.calls.borrow().last(), Some(&Call::Play));
}

#[test]
fn volume_is_passed_through_and_announced() {
    let (mut player, backend, seen) = setup();
    assert_eq!(player.volume(), 100);
    player.set_volume(40).unwrap();
    assert_eq!(player.volume(), 40);
    assert_eq!(*backend.calls.borrow(), vec![Call::Volume(40)]);
    assert_eq!(heard(&seen), vec!["volume"]);
}

#[test]
fn end_of_stream_advances_and_errors_terminate() {
    let (mut player, _backend, _seen) = setup();
    player.add_multiple(vec![track("A"), track("B")]);
    player.play().unwrap();
    assert_eq!(player.handle_event(PlayerEvent::EndOfStream).unwrap(), LoopControl::Continue);
    assert_eq!(player.queue().current().unwrap().title, "B");
    assert_eq!(player.handle_event(PlayerEvent::Buffering).unwrap(), LoopControl::Continue);
    assert_eq!(player.handle_event(PlayerEvent::StateChanged(PlayerState::Play)).unwrap(), LoopControl::Continue);
    assert_eq!(player.handle_event(PlayerEvent::Error).unwrap(), LoopControl::Terminate);
    assert_eq!(player.state(), PlayerState::Play);
}

#[test]
fn emit_reaches_every_subscriber_once_in_order() {
    let seen = Rc::new(RefCell::new(Vec::new()));
    let mut bus = MessageBus::new();
    bus.subscribe(Listener { name: "first", seen: seen.clone() });
    bus.subscribe(Listener { name: "second", seen: seen.clone() });
    bus.subscribe(Listener { name: "third", seen: seen.clone() });
    bus.emit(&Message::QueueChanged);
    let order: Vec<(String, String)> = seen.borrow().clone();
    assert_eq!(
        order,
        vec![
            ("first".to_string(), "queue".to_string()),
            ("second".to_string(), "queue".to_string()),
            ("third".to_string(), "queue".to_string()),
        ]
    );
    assert_eq!(bus.len(), 3);
}

#[test]
fn late_subscribers_get_no_replay() {
    let seen = Rc::new(RefCell::new(Vec::new()));
    let mut bus = MessageBus::new();
    bus.emit(&Message::VolumeChanged);
    bus.subscribe(Listener { name: "late", seen: seen.clone() });
    assert!(seen.borrow().is_empty());
    bus.emit(&Message::PlaylistChanged);
    assert_eq!(seen.borrow().len(), 1);
}

#[test]
fn default_state_is_stop() {
    assert_eq!(PlayerState::default(), PlayerState::Stop);
}
