//! The local-disk provider. Scanning the directory is I/O and happens
//! outside the library; what was scanned is turned into catalog tracks here.

use crate::entity::{CatalogEntry, Provider, Track};
use crate::library::InMemoryLibrary;
use crate::provider::{SyncError, SyncResult};
use vstd::prelude::*;

verus! {

/// One audio file found by a scan, with the tags read from it.
#[derive(Debug, Clone, PartialEq, Eq)]
pub struct LocalTrack {
    pub path: String,
    pub title: String,
    pub artist: Option<String>,
    pub album: Option<String>,
}

/// The uri, and the stream location, of a local file.
pub open spec fn file_uri(path: Seq<char>) -> Seq<char> {
    "file://"@ + path
}

/// `file://` followed by the path.
pub fn file_uri_of(path: &String) -> (r: String)
    ensures
        r@ == file_uri(path@),
{
    let mut uri = String::from_str("file://");
    uri.append(path.as_str());
    uri
}

/// The catalog track of a scanned file.
pub fn track_from_local(file: &LocalTrack) -> (r: Track)
    ensures
        r.id is None,
        r.title@ == file.title@,
        r.uri@ == file_uri(file.path@),
        r.stream_url@ == file_uri(file.path@),
        r.provider == Provider::LocalMedia,
        r.artist_id is None,
        r.album_id is None,
        r.image_url is None,
        r.duration is None,
{
    Track {
        id: None,
        title: file.title.clone(),
        artist_id: None,
        album_id: None,
        stream_url: file_uri_of(&file.path),
        provider: Provider::LocalMedia,
        uri: file_uri_of(&file.path),
        image_url: None,
        duration: None,
    }
}

/// Serves the audio files below `path`.
#[derive(Debug, Clone)]
pub struct LocalProvider {
    pub path: String,
}

impl LocalProvider {
    pub fn title(&self) -> (r: String)
        ensures
            r@ == "Local"@,
    {
        String::from_str("Local")
    }

    pub fn uri_scheme(&self) -> (r: String)
        ensures
            r@ == "file"@,
    {
        String::from_str("file")
    }

    /// Adds the scanned files to the catalog, in scan order, and counts them.
    #[verifier::rlimit(40)]
    pub fn import(&self, library: &mut InMemoryLibrary, scanned: &Vec<LocalTrack>) -> (r: Result<
        SyncResult,
        SyncError,
    >)
        requires
            old(library).wf(),
        ensures
            final(library).wf(),
            r is Ok <==> old(library).tracks().len() + scanned@.len() < usize::MAX,
            r is Ok ==> final(library).tracks().len() == old(library).tracks().len() + scanned@.len(),
            r is Ok ==> forall|i: int|
                0 <= i < scanned@.len() ==> (#[trigger] final(library).tracks()[old(library).tracks().len() + i]).uri@
                    == file_uri(scanned@[i].path@),
            r matches Ok(res) ==> res == (SyncResult {
                tracks: scanned@.len() as usize,
                albums: 0,
                artists: 0,
                playlists: 0,
            }),
            r matches Err(e) ==> e == SyncError::LibraryAccessError,
    {
        let mut tracks: Vec<Track> = Vec::new();
        let mut i: usize = 0;
        while i < scanned.len()
            invariant
                i <= scanned@.len(),
                tracks@.len() == i,
                forall|j: int| 0 <= j < i ==> (#[trigger] tracks@[j]).uri@ == file_uri(scanned@[j].path@),
            decreases scanned@.len() - i,
        {
            tracks.push(track_from_local(&scanned[i]));
            i = i + 1;
        }
        let count = tracks.len();
        let ghost before = tracks@;
        let r = library.add_tracks(&mut tracks);
        proof {
            if r is Ok {
                assert forall|i: int| 0 <= i < scanned@.len() implies (#[trigger] final(library).tracks()[
                    old(library).tracks().len() + i]).uri@ == file_uri(scanned@[i].path@) by {
                    assert(tracks@[i] == before[i].with_id(Some((old(library).tracks().len() + 1 + i) as usize)));
                }
            }
        }
        match r {
            Ok(()) => Ok(SyncResult { tracks: count, albums: 0, artists: 0, playlists: 0 }),
            Err(_) => Err(SyncError::LibraryAccessError),
        }
    }
}

} // verus!
