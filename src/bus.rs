//! Synchronous publish/subscribe channel for state-change announcements.

use crate::entity::Track;
use vstd::prelude::*;

verus! {

#[derive(Debug, Clone, Copy, PartialEq, Eq, Structural)]
pub enum PlayerState {
    Play,
    Stop,
    Pause,
}

impl Default for PlayerState {
    fn default() -> (r: PlayerState)
        ensures
            r == PlayerState::Stop,
    {
        PlayerState::Stop
    }
}

/// Everything the core announces.
#[derive(Debug)]
pub enum Message {
    VolumeChanged,
    PlayerStateChanged(PlayerState),
    CurrentlyPlaying(Option<Track>),
    QueueChanged,
    PlaylistChanged,
}

impl Clone for Message {
    fn clone(&self) -> (r: Self)
        ensures
            r == *self,
    {
        match self {
            Message::VolumeChanged => Message::VolumeChanged,
            Message::PlayerStateChanged(s) => Message::PlayerStateChanged(*s),
            Message::CurrentlyPlaying(t) => Message::CurrentlyPlaying(
                match t {
                    Some(t) => Some(t.clone()),
                    None => None,
                },
            ),
            Message::QueueChanged => Message::QueueChanged,
            Message::PlaylistChanged => Message::PlaylistChanged,
        }
    }
}

/// A callback registered on the bus.
pub trait Subscriber {
    fn notify(&self, message: Message);
}

/// Deliveries are synchronous, in subscription order, with no buffering and
/// no replay for late subscribers.
pub struct MessageBus<S> {
    subscriptions: Vec<S>,
    /// Every message emitted so far, in order.
    emitted: Ghost<Seq<Message>>,
    /// Every call of a subscriber so far, in order: the subscriber's position
    /// and the message it was handed.
    deliveries: Ghost<Seq<(int, Message)>>,
}

/// The deliveries of one emission of `m` to `n` subscribers: each position,
/// once, in increasing order.
pub open spec fn fan_out(n: int, m: Message) -> Seq<(int, Message)> {
    Seq::new(n as nat, |i: int| (i, m))
}

impl<S: Subscriber> MessageBus<S> {
    pub closed spec fn subscribers(&self) -> Seq<S> {
        self.subscriptions@
    }

    pub closed spec fn emitted(&self) -> Seq<Message> {
        self.emitted@
    }

    pub closed spec fn deliveries(&self) -> Seq<(int, Message)> {
        self.deliveries@
    }

    pub fn new() -> (r: MessageBus<S>)
        ensures
            r.subscribers() == Seq::<S>::empty(),
            r.emitted() == Seq::<Message>::empty(),
            r.deliveries() == Seq::<(int, Message)>::empty(),
    {
        MessageBus { subscriptions: Vec::new(), emitted: Ghost(Seq::empty()), deliveries: Ghost(Seq::empty()) }
    }

    /// Hands a copy of `msg` to every subscriber, in subscription order.
    pub fn emit(&mut self, msg: &Message)
        ensures
            final(self).subscribers() == old(self).subscribers(),
            final(self).emitted() == old(self).emitted().push(*msg),
            final(self).deliveries() == old(self).deliveries() + fan_out(
                old(self).subscribers().len() as int,
                *msg,
            ),
    {
        let ghost start = self.deliveries@;
        let mut i: usize = 0;
        while i < self.subscriptions.len()
            invariant
                self.subscriptions@ == old(self).subscriptions@,
                self.emitted@ == old(self).emitted@,
                start == old(self).deliveries@,
                i <= self.subscriptions@.len(),
                self.deliveries@ == start + fan_out(i as int, *msg),
            decreases self.subscriptions@.len() - i,
        {
            self.subscriptions[i].notify(msg.clone());
            proof {
                self.deliveries@ = self.deliveries@.push((i as int, *msg));
                assert(fan_out(i + 1, *msg) =~= fan_out(i as int, *msg).push((i as int, *msg)));
                assert(start + fan_out(i + 1, *msg) =~= (start + fan_out(i as int, *msg)).push(
                    (i as int, *msg),
                ));
            }
            i = i + 1;
        }
        proof {
            self.emitted@ = self.emitted@.push(*msg);
        }
    }

    /// Registers a subscriber after all current ones.
    pub fn subscribe(&mut self, callback: S)
        ensures
            final(self).subscribers() == old(self).subscribers().push(callback),
            final(self).emitted() == old(self).emitted(),
            final(self).deliveries() == old(self).deliveries(),
    {
        self.subscriptions.push(callback);
    }

    pub fn len(&self) -> (r: usize)
        ensures
            r == self.subscribers().len(),
    {
        self.subscriptions.len()
    }
}

} // verus!
