//! The player state machine. It drives an abstract playback backend, keeps
//! the queue, and announces every transition on its bus. Callers serialize
//! all operations, including the control loop's event handling, behind one
//! exclusive lock around the whole player.

use crate::bus::{Message, MessageBus, PlayerState, Subscriber};
use crate::entity::Track;
use crate::queue::Queue;
use vstd::prelude::*;

verus! {

#[derive(Debug, Clone, PartialEq, Eq)]
pub struct BackendError {
    pub message: String,
}

/// What a backend reports while it plays.
#[derive(Debug)]
pub enum PlayerEvent {
    /// The current track has played to its end.
    EndOfStream,
    /// The backend failed and cannot go on.
    Error,
    /// The backend's own state changed.
    StateChanged(PlayerState),
    /// The backend moved to another track.
    TrackChanged(Track),
    /// The backend is waiting for I/O.
    Buffering,
}

/// What the control loop does after an event.
#[derive(Debug, Clone, Copy, PartialEq, Eq, Structural)]
pub enum LoopControl {
    Continue,
    Terminate,
}

/// The audio output: a native pipeline, a test double, ... Implementations
/// may lack a capability and report an error instead.
pub trait PlayerBackend {
    /// Loads `track` and puts the pipeline into `state`.
    fn set_track(&mut self, track: &Track, state: PlayerState) -> Result<(), BackendError>;

    fn play(&mut self) -> Result<(), BackendError>;

    fn pause(&mut self) -> Result<(), BackendError>;

    fn stop(&mut self) -> Result<(), BackendError>;

    /// Sets the volume, in percent.
    fn set_volume(&mut self, volume: u32) -> Result<(), BackendError>;

    /// The next pending event, if any.
    fn poll_event(&mut self) -> Option<PlayerEvent>;
}

/// A command issued to the backend.
pub enum Command {
    SetTrack(Track, PlayerState),
    Play,
    Pause,
    Stop,
    SetVolume(u32),
}

/// One step of the player's outward activity: an announcement on the bus
/// or a command to the backend.
pub enum Effect {
    Announced(Message),
    Issued(Command),
}

pub struct Player<B, S> {
    state: PlayerState,
    queue: Queue,
    backend: B,
    volume: u32,
    bus: MessageBus<S>,
    /// Every command issued to the backend so far, in order.
    issued: Ghost<Seq<Command>>,
    /// Announcements and commands together, in the order they happened.
    effects: Ghost<Seq<Effect>>,
}

impl<B: PlayerBackend, S: Subscriber> Player<B, S> {
    /// Messages announced so far, in order.
    pub closed spec fn messages(&self) -> Seq<Message> {
        self.bus.emitted()
    }

    /// Commands issued to the backend so far, in order.
    pub closed spec fn commands(&self) -> Seq<Command> {
        self.issued@
    }

    /// Announcements and commands so far, interleaved in order.
    pub closed spec fn trace(&self) -> Seq<Effect> {
        self.effects@
    }

    pub closed spec fn subscribers(&self) -> Seq<S> {
        self.bus.subscribers()
    }

    pub closed spec fn current_state(&self) -> PlayerState {
        self.state
    }

    pub closed spec fn queued(&self) -> Queue {
        self.queue
    }

    pub closed spec fn volume_spec(&self) -> u32 {
        self.volume
    }

    pub fn new(backend: B, bus: MessageBus<S>) -> (r: Player<B, S>)
        ensures
            r.current_state() == PlayerState::Stop,
            r.queued()@ == Seq::<Track>::empty(),
            r.queued().cursor_ok(),
            r.volume_spec() == 100,
            r.messages() == bus.emitted(),
            r.subscribers() == bus.subscribers(),
            r.commands() == Seq::<Command>::empty(),
            r.trace() == Seq::<Effect>::empty(),
    {
        Player {
            state: PlayerState::Stop,
            queue: Queue::new(),
            backend,
            volume: 100,
            bus,
            issued: Ghost(Seq::empty()),
            effects: Ghost(Seq::empty()),
        }
    }

    pub fn subscribe(&mut self, callback: S)
        ensures
            final(self).subscribers() == old(self).subscribers().push(callback),
            final(self).messages() == old(self).messages(),
            final(self).commands() == old(self).commands(),
            final(self).trace() == old(self).trace(),
            final(self).volume_spec() == old(self).volume_spec(),
            final(self).current_state() == old(self).current_state(),
            final(self).queued() == old(self).queued(),
    {
        self.bus.subscribe(callback);
    }

    fn announce(&mut self, msg: Message)
        ensures
            final(self).messages() == old(self).messages().push(msg),
            final(self).trace() == old(self).trace().push(Effect::Announced(msg)),
            final(self).subscribers() == old(self).subscribers(),
            final(self).commands() == old(self).commands(),
            final(self).current_state() == old(self).current_state(),
            final(self).queued() == old(self).queued(),
            final(self).volume_spec() == old(self).volume_spec(),
    {
        self.bus.emit(&msg);
        proof {
            self.effects@ = self.effects@.push(Effect::Announced(msg));
        }
    }

    fn backend_stop(&mut self) -> (r: Result<(), BackendError>)
        ensures
            final(self).commands() == old(self).commands().push(Command::Stop),
            final(self).trace() == old(self).trace().push(Effect::Issued(Command::Stop)),
            final(self).messages() == old(self).messages(),
            final(self).subscribers() == old(self).subscribers(),
            final(self).current_state() == old(self).current_state(),
            final(self).queued() == old(self).queued(),
            final(self).volume_spec() == old(self).volume_spec(),
    {
        proof {
            self.issued@ = self.issued@.push(Command::Stop);
            self.effects@ = self.effects@.push(Effect::Issued(Command::Stop));
        }
        self.backend.stop()
    }

    /// Announces the track, then hands it to the backend in the current
    /// state, so subscribers hear of it before the backend starts.
    fn select_track(&mut self, track: Track) -> (r: Result<(), BackendError>)
        ensures
            final(self).messages() == old(self).messages().push(Message::CurrentlyPlaying(Some(track))),
            final(self).commands() == old(self).commands().push(Command::SetTrack(track, old(self).current_state())),
            final(self).trace() == old(self).trace() + seq![
                Effect::Announced(Message::CurrentlyPlaying(Some(track))),
                Effect::Issued(Command::SetTrack(track, old(self).current_state())),
            ],
            final(self).subscribers() == old(self).subscribers(),
            final(self).current_state() == old(self).current_state(),
            final(self).queued() == old(self).queued(),
            final(self).volume_spec() == old(self).volume_spec(),
    {
        self.announce(Message::CurrentlyPlaying(Some(track.clone())));
        let state = self.state;
        proof {
            self.issued@ = self.issued@.push(Command::SetTrack(track, state));
            self.effects@ = self.effects@.push(Effect::Issued(Command::SetTrack(track, state)));
        }
        self.backend.set_track(&track, state)
    }

    /// From `Stop` with a current track: selects it and plays. From `Pause`:
    /// resumes. Otherwise nothing happens.
    pub fn play(&mut self) -> (r: Result<(), BackendError>)
        requires
            old(self).queued().cursor_ok(),
        ensures
            final(self).queued() == old(self).queued(),
            final(self).subscribers() == old(self).subscribers(),
            old(self).current_state() == PlayerState::Stop ==> match old(self).queued().current_track() {
                Some(t) => {
                    &&& final(self).current_state() == PlayerState::Play
                    &&& final(self).messages() == old(self).messages().push(
                        Message::PlayerStateChanged(PlayerState::Play),
                    ).push(Message::CurrentlyPlaying(Some(t)))
                    &&& final(self).commands() == old(self).commands().push(
                        Command::SetTrack(t, PlayerState::Play),
                    )
                    &&& final(self).trace() == old(self).trace() + seq![
                        Effect::Announced(Message::PlayerStateChanged(PlayerState::Play)),
                        Effect::Announced(Message::CurrentlyPlaying(Some(t))),
                        Effect::Issued(Command::SetTrack(t, PlayerState::Play)),
                    ]
                },
                None => {
                    &&& final(self).current_state() == PlayerState::Stop
                    &&& final(self).messages() == old(self).messages()
                    &&& final(self).commands() == old(self).commands()
                    &&& final(self).trace() == old(self).trace()
                    &&& r is Ok
                },
            },
            old(self).current_state() == PlayerState::Pause ==> {
                &&& final(self).current_state() == PlayerState::Play
                &&& final(self).messages() == old(self).messages().push(
                    Message::PlayerStateChanged(PlayerState::Play),
                )
                &&& final(self).commands() == old(self).commands().push(Command::Play)
                &&& final(self).trace() == old(self).trace() + seq![
                    Effect::Announced(Message::PlayerStateChanged(PlayerState::Play)),
                    Effect::Issued(Command::Play),
                ]
            },
            old(self).current_state() == PlayerState::Play ==> {
                &&& final(self).current_state() == PlayerState::Play
                &&& final(self).messages() == old(self).messages()
                &&& final(self).commands() == old(self).commands()
                &&& final(self).trace() == old(self).trace()
                &&& r is Ok
            },
            final(self).volume_spec() == old(self).volume_spec(),
    {
        match self.state {
            PlayerState::Stop => {
                let current = match self.queue.current() {
                    Some(t) => Some(t.clone()),
                    None => None,
                };
                match current {
                    Some(track) => {
                        self.state = PlayerState::Play;
                        self.announce(Message::PlayerStateChanged(PlayerState::Play));
                        self.select_track(track)
                    },
                    None => Ok(()),
                }
            },
            PlayerState::Pause => {
                self.state = PlayerState::Play;
                self.announce(Message::PlayerStateChanged(PlayerState::Play));
                proof {
                    self.issued@ = self.issued@.push(Command::Play);
            self.effects@ = self.effects@.push(Effect::Issued(Command::Play));
                }
                self.backend.play()
            },
            PlayerState::Play => Ok(()),
        }
    }

    /// Pauses from any state, including `Stop`.
    pub fn pause(&mut self) -> (r: Result<(), BackendError>)
        ensures
            final(self).current_state() == PlayerState::Pause,
            final(self).queued() == old(self).queued(),
            final(self).subscribers() == old(self).subscribers(),
            final(self).messages() == old(self).messages().push(
                Message::PlayerStateChanged(PlayerState::Pause),
            ),
            final(self).commands() == old(self).commands().push(Command::Pause),
            final(self).trace() == old(self).trace() + seq![
                Effect::Announced(Message::PlayerStateChanged(PlayerState::Pause)),
                Effect::Issued(Command::Pause),
            ],
            final(self).volume_spec() == old(self).volume_spec(),
    {
        self.state = PlayerState::Pause;
        self.announce(Message::PlayerStateChanged(PlayerState::Pause));
        proof {
            self.issued@ = self.issued@.push(Command::Pause);
            self.effects@ = self.effects@.push(Effect::Issued(Command::Pause));
        }
        self.backend.pause()
    }

    /// Stops from any state and empties the queue, whatever the backend
    /// answers.
    pub fn stop(&mut self) -> (r: Result<(), BackendError>)
        ensures
            final(self).current_state() == PlayerState::Stop,
            final(self).queued()@ == Seq::<Track>::empty(),
            final(self).queued().cursor() == 0,
            final(self).queued().cursor_ok(),
            final(self).subscribers() == old(self).subscribers(),
            final(self).messages() == old(self).messages().push(
                Message::PlayerStateChanged(PlayerState::Stop),
            ).push(Message::CurrentlyPlaying(None)),
            final(self).commands() == old(self).commands().push(Command::Stop),
            final(self).trace() == old(self).trace() + seq![
                Effect::Announced(Message::PlayerStateChanged(PlayerState::Stop)),
                Effect::Announced(Message::CurrentlyPlaying(None)),
                Effect::Issued(Command::Stop),
            ],
            final(self).volume_spec() == old(self).volume_spec(),
    {
        self.state = PlayerState::Stop;
        self.announce(Message::PlayerStateChanged(PlayerState::Stop));
        self.announce(Message::CurrentlyPlaying(None));
        let r = self.backend_stop();
        self.queue.clear();
        r
    }

    /// Stops after the queue ran out; the queue is kept.
    fn run_out(&mut self) -> (r: Result<(), BackendError>)
        ensures
            final(self).current_state() == PlayerState::Stop,
            final(self).queued() == old(self).queued(),
            final(self).subscribers() == old(self).subscribers(),
            final(self).messages() == old(self).messages().push(
                Message::PlayerStateChanged(PlayerState::Stop),
            ).push(Message::CurrentlyPlaying(None)),
            final(self).commands() == old(self).commands().push(Command::Stop),
            final(self).trace() == old(self).trace() + seq![
                Effect::Announced(Message::PlayerStateChanged(PlayerState::Stop)),
                Effect::Announced(Message::CurrentlyPlaying(None)),
                Effect::Issued(Command::Stop),
            ],
            final(self).volume_spec() == old(self).volume_spec(),
    {
        self.state = PlayerState::Stop;
        self.announce(Message::PlayerStateChanged(PlayerState::Stop));
        self.announce(Message::CurrentlyPlaying(None));
        self.backend_stop()
    }

    /// The effect of `prev` from `before` to `after`; `ok` tells whether it
    /// reported success.
    pub open spec fn prev_effect(before: Self, after: Self, ok: bool) -> bool {
        &&& after.queued().cursor_ok()
        &&& after.queued()@ == before.queued()@
        &&& after.subscribers() == before.subscribers()
        &&& after.volume_spec() == before.volume_spec()
        &&& before.queued().cursor() == 0 ==> {
            &&& after.queued().cursor() == before.queued().cursor()
            &&& after.current_state() == PlayerState::Stop
            &&& after.messages() == before.messages().push(Message::PlayerStateChanged(PlayerState::Stop)).push(
                Message::CurrentlyPlaying(None),
            )
            &&& after.commands() == before.commands().push(Command::Stop)
            &&& after.trace() == before.trace() + seq![
                Effect::Announced(Message::PlayerStateChanged(PlayerState::Stop)),
                Effect::Announced(Message::CurrentlyPlaying(None)),
                Effect::Issued(Command::Stop),
            ]
        }
        &&& before.queued().cursor() >= 1 ==> {
            let t = before.queued()@[before.queued().cursor() - 1];
            &&& after.queued().cursor() == before.queued().cursor() - 1
            &&& after.current_state() == before.current_state()
            &&& before.current_state() == PlayerState::Play ==> {
                &&& after.messages() == before.messages().push(Message::CurrentlyPlaying(Some(t)))
                &&& after.commands() == before.commands().push(Command::SetTrack(t, PlayerState::Play))
                &&& after.trace() == before.trace() + seq![
                    Effect::Announced(Message::CurrentlyPlaying(Some(t))),
                    Effect::Issued(Command::SetTrack(t, PlayerState::Play)),
                ]
            }
            &&& before.current_state() != PlayerState::Play ==> {
                &&& after.messages() == before.messages()
                &&& after.commands() == before.commands()
                &&& after.trace() == before.trace()
                &&& ok
            }
        }
    }

    /// Steps back in the queue. At its start the player stops; otherwise, if
    /// playing, the new current track is selected.
    pub fn prev(&mut self) -> (r: Result<(), BackendError>)
        requires
            old(self).queued().cursor_ok(),
        ensures
            Self::prev_effect(*old(self), *final(self), r is Ok),
    {
        let moved = match self.queue.prev() {
            Some(t) => Some(t.clone()),
            None => None,
        };
        match moved {
            None => self.run_out(),
            Some(track) => {
                if self.state == PlayerState::Play {
                    self.select_track(track)
                } else {
                    Ok(())
                }
            },
        }
    }

    /// The effect of `next` from `before` to `after`; `ok` tells whether it
    /// reported success.
    pub open spec fn next_effect(before: Self, after: Self, ok: bool) -> bool {
        &&& after.queued().cursor_ok()
        &&& after.queued()@ == before.queued()@
        &&& after.subscribers() == before.subscribers()
        &&& after.volume_spec() == before.volume_spec()
        &&& before.queued().cursor() + 1 >= before.queued()@.len() ==> {
            &&& after.queued().cursor() == before.queued().cursor()
            &&& after.current_state() == PlayerState::Stop
            &&& after.messages() == before.messages().push(Message::PlayerStateChanged(PlayerState::Stop)).push(
                Message::CurrentlyPlaying(None),
            )
            &&& after.commands() == before.commands().push(Command::Stop)
            &&& after.trace() == before.trace() + seq![
                Effect::Announced(Message::PlayerStateChanged(PlayerState::Stop)),
                Effect::Announced(Message::CurrentlyPlaying(None)),
                Effect::Issued(Command::Stop),
            ]
        }
        &&& before.queued().cursor() + 1 < before.queued()@.len() ==> {
            let t = before.queued()@[before.queued().cursor() + 1];
            &&& after.queued().cursor() == before.queued().cursor() + 1
            &&& after.current_state() == before.current_state()
            &&& before.current_state() == PlayerState::Play ==> {
                &&& after.messages() == before.messages().push(Message::CurrentlyPlaying(Some(t)))
                &&& after.commands() == before.commands().push(Command::SetTrack(t, PlayerState::Play))
                &&& after.trace() == before.trace() + seq![
                    Effect::Announced(Message::CurrentlyPlaying(Some(t))),
                    Effect::Issued(Command::SetTrack(t, PlayerState::Play)),
                ]
            }
            &&& before.current_state() != PlayerState::Play ==> {
                &&& after.messages() == before.messages()
                &&& after.commands() == before.commands()
                &&& after.trace() == before.trace()
                &&& ok
            }
        }
    }

    /// Steps forward in the queue. Past its end the player stops; otherwise,
    /// if playing, the new current track is selected.
    pub fn next(&mut self) -> (r: Result<(), BackendError>)
        requires
            old(self).queued().cursor_ok(),
        ensures
            Self::next_effect(*old(self), *final(self), r is Ok),
    {
        let moved = match self.queue.next() {
            Some(t) => Some(t.clone()),
            None => None,
        };
        match moved {
            None => self.run_out(),
            Some(track) => {
                if self.state == PlayerState::Play {
                    self.select_track(track)
                } else {
                    Ok(())
                }
            },
        }
    }

    pub fn state(&self) -> (r: PlayerState)
        ensures
            r == self.current_state(),
    {
        self.state
    }

    pub fn queue(&self) -> (r: &Queue)
        ensures
            *r == self.queued(),
    {
        &self.queue
    }

    /// Appends a track to the queue.
    pub fn add_track(&mut self, track: Track)
        requires
            old(self).queued().cursor_ok(),
        ensures
            final(self).queued()@ == old(self).queued()@.push(track),
            final(self).queued().cursor() == old(self).queued().cursor(),
            final(self).queued().cursor_ok(),
            final(self).current_state() == old(self).current_state(),
            final(self).messages() == old(self).messages(),
            final(self).commands() == old(self).commands(),
            final(self).trace() == old(self).trace(),
            final(self).volume_spec() == old(self).volume_spec(),
            final(self).subscribers() == old(self).subscribers(),
    {
        self.queue.add_track(track);
    }

    /// Appends tracks to the queue, in order.
    pub fn add_multiple(&mut self, tracks: Vec<Track>)
        requires
            old(self).queued().cursor_ok(),
        ensures
            final(self).queued()@ == old(self).queued()@ + tracks@,
            final(self).queued().cursor() == old(self).queued().cursor(),
            final(self).queued().cursor_ok(),
            final(self).current_state() == old(self).current_state(),
            final(self).messages() == old(self).messages(),
            final(self).commands() == old(self).commands(),
            final(self).trace() == old(self).trace(),
            final(self).volume_spec() == old(self).volume_spec(),
            final(self).subscribers() == old(self).subscribers(),
    {
        self.queue.add_multiple(tracks);
    }

    pub fn volume(&self) -> (r: u32)
        ensures
            r == self.volume_spec(),
    {
        self.volume
    }

    /// Passes the volume to the backend and, once it took it, announces it.
    pub fn set_volume(&mut self, volume: u32) -> (r: Result<(), BackendError>)
        ensures
            final(self).volume_spec() == volume,
            final(self).current_state() == old(self).current_state(),
            final(self).queued() == old(self).queued(),
            final(self).subscribers() == old(self).subscribers(),
            final(self).commands() == old(self).commands().push(Command::SetVolume(volume)),
            r is Ok ==> final(self).messages() == old(self).messages().push(Message::VolumeChanged),
            r is Err ==> final(self).messages() == old(self).messages(),
            r is Ok ==> final(self).trace() == old(self).trace() + seq![
                Effect::Issued(Command::SetVolume(volume)),
                Effect::Announced(Message::VolumeChanged),
            ],
            r is Err ==> final(self).trace() == old(self).trace().push(Effect::Issued(Command::SetVolume(volume))),
    {
        self.volume = volume;
        proof {
            self.issued@ = self.issued@.push(Command::SetVolume(volume));
            self.effects@ = self.effects@.push(Effect::Issued(Command::SetVolume(volume)));
        }
        match self.backend.set_volume(volume) {
            Ok(()) => {
                self.announce(Message::VolumeChanged);
                Ok(())
            },
            Err(e) => Err(e),
        }
    }

    /// The control loop's reaction to one backend event: at the end of a
    /// stream the player steps to the next track; an error ends the loop.
    pub fn handle_event(&mut self, event: PlayerEvent) -> (r: Result<LoopControl, BackendError>)
        requires
            old(self).queued().cursor_ok(),
        ensures
            final(self).queued().cursor_ok(),
            event is Error ==> r == Ok::<LoopControl, BackendError>(LoopControl::Terminate) && *final(self)
                == *old(self),
            !(event is Error) && !(event is EndOfStream) ==> r == Ok::<LoopControl, BackendError>(
                LoopControl::Continue,
            ) && *final(self) == *old(self),
            event is EndOfStream ==> Self::next_effect(*old(self), *final(self), r is Ok),
            event is EndOfStream ==> r is Ok ==> r == Ok::<LoopControl, BackendError>(LoopControl::Continue),
    {
        match event {
            PlayerEvent::EndOfStream => {
                match self.next() {
                    Ok(()) => Ok(LoopControl::Continue),
                    Err(e) => Err(e),
                }
            },
            PlayerEvent::Error => Ok(LoopControl::Terminate),
            _ => Ok(LoopControl::Continue),
        }
    }

    /// Takes the next pending event from the backend.
    pub fn poll_backend(&mut self) -> (r: Option<PlayerEvent>)
        ensures
            final(self).current_state() == old(self).current_state(),
            final(self).queued() == old(self).queued(),
            final(self).messages() == old(self).messages(),
            final(self).commands() == old(self).commands(),
            final(self).trace() == old(self).trace(),
            final(self).volume_spec() == old(self).volume_spec(),
            final(self).subscribers() == old(self).subscribers(),
    {
        self.backend.poll_event()
    }
}

} // verus!
