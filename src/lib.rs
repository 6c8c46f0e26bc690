//! Core of a music and podcast aggregator: an in-memory catalog fed by
//! pluggable providers, a playback queue and player state machine, and a
//! synchronous notification bus.

pub mod bus;
pub mod cache;
pub mod entity;
pub mod explorer;
pub mod library;
pub mod local;
pub mod player;
pub mod pocketcasts;
pub mod provider;
pub mod queue;
pub mod soundcloud;
pub mod spotify;
pub mod store;
pub mod sync;
pub mod text;
pub mod uri;

pub use bus::{Message, MessageBus, PlayerState};
pub use entity::{Album, Artist, CatalogEntry, Playlist, Provider, Track};
pub use library::{InMemoryLibrary, SearchResults};
pub use player::{Player, PlayerBackend, PlayerEvent};
pub use provider::{ProviderInstance, SyncError, SyncResult};
pub use queue::Queue;
