//! The interface of a content provider, and the values it exchanges with
//! the catalog and the navigation layer.

use crate::entity::{Album, Artist, Playlist, Track};
use crate::library::{InMemoryLibrary, ResolveError};
use crate::text::first_equal;
use crate::uri::{parse_scheme, url_scheme};
use vstd::prelude::*;

verus! {

/// Counts of what one synchronization stored or found, per collection.
#[derive(Debug, Clone, Copy, PartialEq, Eq, Structural)]
pub struct SyncResult {
    pub tracks: usize,
    pub albums: usize,
    pub artists: usize,
    pub playlists: usize,
}

#[derive(Debug, Clone, Copy, PartialEq, Eq, Structural)]
pub enum SyncError {
    /// The provider's credentials or settings are unusable.
    ConfigurationError,
    /// The catalog refused the entities.
    LibraryAccessError,
}

impl SyncError {
    /// A human-readable description.
    pub fn message(&self) -> (r: String)
        ensures
            r@ == match self {
                SyncError::ConfigurationError => "Configuration Error"@,
                SyncError::LibraryAccessError => "Library Access Error"@,
            },
    {
        match self {
            SyncError::ConfigurationError => String::from_str("Configuration Error"),
            SyncError::LibraryAccessError => String::from_str("Library Access Error"),
        }
    }
}

#[derive(Debug, Clone, Copy, PartialEq, Eq, Structural)]
pub enum NavigationError {
    PathNotFound,
    FetchError,
}

/// One entry of a listing: a label and the entity it stands for.
#[derive(Debug, Clone)]
pub struct ProviderItem {
    pub label: String,
    pub track: Option<Track>,
    pub album: Option<Album>,
    pub artist: Option<Artist>,
    pub playlist: Option<Playlist>,
}

impl ProviderItem {
    pub fn empty() -> (r: ProviderItem)
        ensures
            r.label@ == Seq::<char>::empty(),
            r.track is None,
            r.album is None,
            r.artist is None,
            r.playlist is None,
    {
        ProviderItem { label: String::new(), track: None, album: None, artist: None, playlist: None }
    }

    pub fn from_track(track: Track) -> (r: ProviderItem)
        ensures
            r.label@ == track.title@,
            r.track == Some(track),
            r.album is None,
            r.artist is None,
            r.playlist is None,
    {
        ProviderItem {
            label: track.title.clone(),
            track: Some(track),
            album: None,
            artist: None,
            playlist: None,
        }
    }

    pub fn from_album(album: Album) -> (r: ProviderItem)
        ensures
            r.label@ == album.title@,
            r.album == Some(album),
            r.track is None,
            r.artist is None,
            r.playlist is None,
    {
        ProviderItem {
            label: album.title.clone(),
            track: None,
            album: Some(album),
            artist: None,
            playlist: None,
        }
    }

    pub fn from_artist(artist: Artist) -> (r: ProviderItem)
        ensures
            r.label@ == artist.name@,
            r.artist == Some(artist),
            r.track is None,
            r.album is None,
            r.playlist is None,
    {
        ProviderItem {
            label: artist.name.clone(),
            track: None,
            album: None,
            artist: Some(artist),
            playlist: None,
        }
    }

    pub fn from_playlist(playlist: Playlist) -> (r: ProviderItem)
        ensures
            r.label@ == playlist.title@,
            r.playlist matches Some(p) && p.same_as(&playlist),
            r.track is None,
            r.album is None,
            r.artist is None,
    {
        let label = playlist.title.clone();
        ProviderItem { label, track: None, album: None, artist: None, playlist: Some(playlist) }
    }
}

/// A listing: named sub-folders and items.
#[derive(Debug, Clone)]
pub struct ProviderFolder {
    pub folders: Vec<String>,
    pub items: Vec<ProviderItem>,
}

/// The provider's titles, in order.
pub fn titles<P: ProviderInstance>(providers: &Vec<P>) -> (r: Vec<String>)
    ensures
        r@.len() == providers@.len(),
{
    let mut out: Vec<String> = Vec::new();
    let mut i: usize = 0;
    while i < providers.len()
        invariant
            i <= providers@.len(),
            out@.len() == i,
        decreases providers@.len() - i,
    {
        out.push(providers[i].title());
        i = i + 1;
    }
    out
}

/// The providers' uri schemes, in order.
pub fn schemes<P: ProviderInstance>(providers: &Vec<P>) -> (r: Vec<String>)
    ensures
        r@.len() == providers@.len(),
{
    let mut out: Vec<String> = Vec::new();
    let mut i: usize = 0;
    while i < providers.len()
        invariant
            i <= providers@.len(),
            out@.len() == i,
        decreases providers@.len() - i,
    {
        out.push(providers[i].uri_scheme());
        i = i + 1;
    }
    out
}

/// Which provider owns `uri`, given the providers' uri schemes in order:
/// the first whose scheme is the uri's, or none. A uri that does not parse
/// has no scheme and no owner.
pub fn owner_of(schemes: &Vec<String>, uri: &String) -> (r: Result<Option<usize>, ResolveError>)
    ensures
        url_scheme(uri@) is None <==> r == Err::<Option<usize>, ResolveError>(ResolveError::InvalidUri),
        url_scheme(uri@) matches Some(sch) ==> match r {
            Ok(Some(i)) => i < schemes@.len() && schemes@[i as int]@ == sch && forall|j: int|
                0 <= j < i ==> (#[trigger] schemes@[j])@ != sch,
            Ok(None) => forall|j: int| 0 <= j < schemes@.len() ==> (#[trigger] schemes@[j])@ != sch,
            Err(_) => false,
        },
{
    match parse_scheme(uri) {
        Err(_) => Err(ResolveError::InvalidUri),
        Ok(scheme) => Ok(first_equal(schemes, &scheme)),
    }
}

/// Asks the provider that owns `uri` (see `owner_of`) to resolve it; no
/// owner resolves nothing.
pub fn ask_owner<P: ProviderInstance>(providers: &Vec<P>, uri: &String) -> (r: Result<Option<Track>, ResolveError>)
    ensures
        url_scheme(uri@) is None <==> r == Err::<Option<Track>, ResolveError>(ResolveError::InvalidUri),
        r matches Err(ResolveError::Provider(_)) ==> url_scheme(uri@) is Some,
        !(r matches Err(ResolveError::NotFound)),
{
    let names = schemes(providers);
    match owner_of(&names, uri) {
        Err(e) => Err(e),
        Ok(None) => Ok(None),
        Ok(Some(i)) => match providers[i].resolve_track(uri) {
            Ok(t) => Ok(t),
            Err(e) => Err(ResolveError::Provider(e)),
        },
    }
}

/// A pluggable content source. Implementations talk to remote services or
/// the local disk; nothing here assumes anything about what they return.
pub trait ProviderInstance {
    /// One-time setup, such as authentication.
    fn setup(&mut self) -> Result<(), SyncError>;

    /// The name under which the provider is listed and navigated to.
    fn title(&self) -> String;

    /// The scheme of the uris this provider owns, such as `"file"`.
    fn uri_scheme(&self) -> String;

    /// Pulls the remote catalog into `library`.
    fn sync(&mut self, library: &mut InMemoryLibrary) -> Result<SyncResult, SyncError>;

    fn root(&self) -> ProviderFolder;

    /// The listing at `path`, relative to this provider's root.
    fn navigate(&self, path: Vec<String>) -> Result<ProviderFolder, NavigationError>;

    fn search(&self, query: String) -> Result<Vec<ProviderItem>, NavigationError>;

    /// Resolves one uri owned by this provider.
    fn resolve_track(&self, uri: &String) -> Result<Option<Track>, NavigationError>;
}

} // verus!
