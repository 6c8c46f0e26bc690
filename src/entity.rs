//! Catalog entities. Every entity is identified by its `uri`: two records
//! with the same `uri` are the same logical entity, whatever their other
//! fields hold.

use crate::text::copy_opt;
use vstd::prelude::*;

verus! {

/// The content source that produced an entity.
#[derive(Clone, Copy, Debug, PartialEq, Eq, Structural)]
pub enum Provider {
    Pocketcasts,
    Soundcloud,
    GooglePlayMusic,
    Spotify,
    LocalMedia,
}

#[derive(Debug)]
pub struct Track {
    pub id: Option<usize>,
    pub title: String,
    pub artist_id: Option<usize>,
    pub album_id: Option<usize>,
    pub stream_url: String,
    pub provider: Provider,
    pub uri: String,
    pub image_url: Option<String>,
    pub duration: Option<u64>,
}

impl Clone for Track {
    fn clone(&self) -> (r: Self)
        ensures
            r == *self,
    {
        Track {
            id: self.id,
            title: self.title.clone(),
            artist_id: self.artist_id,
            album_id: self.album_id,
            stream_url: self.stream_url.clone(),
            provider: self.provider,
            uri: self.uri.clone(),
            image_url: copy_opt(&self.image_url),
            duration: self.duration,
        }
    }
}

impl PartialEq for Track {
    fn eq(&self, other: &Track) -> (r: bool) {
        self.uri == other.uri
    }
}

impl vstd::std_specs::cmp::PartialEqSpecImpl for Track {
    open spec fn obeys_eq_spec() -> bool {
        true
    }

    open spec fn eq_spec(&self, other: &Track) -> bool {
        self.uri@ == other.uri@
    }
}


impl PartialOrd for Track {
    /// Tracks are ordered by title, for display sorting.
    fn partial_cmp(&self, other: &Track) -> (r: Option<core::cmp::Ordering>) {
        Some(compare_text(&self.title, &other.title))
    }
}

impl vstd::std_specs::cmp::PartialOrdSpecImpl for Track {
    open spec fn obeys_partial_cmp_spec() -> bool {
        true
    }

    open spec fn partial_cmp_spec(&self, other: &Track) -> Option<core::cmp::Ordering> {
        Some(text_order(self.title@, other.title@))
    }
}

/// Lexicographic order of two character sequences, which for strings is the
/// order of their UTF-8 bytes.
pub open spec fn text_order(a: Seq<char>, b: Seq<char>) -> core::cmp::Ordering
    decreases a.len(),
{
    if a.len() == 0 && b.len() == 0 {
        core::cmp::Ordering::Equal
    } else if a.len() == 0 {
        core::cmp::Ordering::Less
    } else if b.len() == 0 {
        core::cmp::Ordering::Greater
    } else if (a[0] as u32) < (b[0] as u32) {
        core::cmp::Ordering::Less
    } else if (a[0] as u32) > (b[0] as u32) {
        core::cmp::Ordering::Greater
    } else {
        text_order(a.drop_first(), b.drop_first())
    }
}

proof fn lemma_text_order_common_prefix(a: Seq<char>, b: Seq<char>, i: int)
    requires
        0 <= i <= a.len(),
        i <= b.len(),
        a.subrange(0, i) == b.subrange(0, i),
    ensures
        text_order(a, b) == text_order(a.subrange(i, a.len() as int), b.subrange(i, b.len() as int)),
    decreases i,
{
    if i > 0 {
        assert(a[0] == a.subrange(0, i)[0]);
        assert(b[0] == b.subrange(0, i)[0]);
        assert(a.drop_first().subrange(0, i - 1) =~= a.subrange(0, i).drop_first());
        assert(b.drop_first().subrange(0, i - 1) =~= b.subrange(0, i).drop_first());
        lemma_text_order_common_prefix(a.drop_first(), b.drop_first(), i - 1);
        assert(a.drop_first().subrange(i - 1, a.len() - 1) =~= a.subrange(i, a.len() as int));
        assert(b.drop_first().subrange(i - 1, b.len() - 1) =~= b.subrange(i, b.len() as int));
    } else {
        assert(a.subrange(0, a.len() as int) =~= a);
        assert(b.subrange(0, b.len() as int) =~= b);
    }
}

/// Compares two strings character by character.
pub fn compare_text(a: &String, b: &String) -> (r: core::cmp::Ordering)
    ensures
        r == text_order(a@, b@),
{
    let la = a.as_str().unicode_len();
    let lb = b.as_str().unicode_len();
    let mut i: usize = 0;
    while i < la && i < lb
        invariant
            la == a@.len(),
            lb == b@.len(),
            i <= la,
            i <= lb,
            a@.subrange(0, i as int) == b@.subrange(0, i as int),
        decreases la - i,
    {
        let ca = a.as_str().get_char(i);
        let cb = b.as_str().get_char(i);
        if (ca as u32) < (cb as u32) {
            proof {
                lemma_text_order_common_prefix(a@, b@, i as int);
            }
            return core::cmp::Ordering::Less;
        }
        if (ca as u32) > (cb as u32) {
            proof {
                lemma_text_order_common_prefix(a@, b@, i as int);
            }
            return core::cmp::Ordering::Greater;
        }
        assert(a@.subrange(0, i + 1) =~= a@.subrange(0, i as int).push(ca));
        assert(b@.subrange(0, i + 1) =~= b@.subrange(0, i as int).push(cb));
        i = i + 1;
    }
    proof {
        lemma_text_order_common_prefix(a@, b@, i as int);
    }
    if la == lb {
        core::cmp::Ordering::Equal
    } else if i == la {
        core::cmp::Ordering::Less
    } else {
        core::cmp::Ordering::Greater
    }
}

#[derive(Debug)]
pub struct Artist {
    pub id: Option<usize>,
    pub name: String,
    pub uri: String,
    pub image_url: Option<String>,
}

impl Clone for Artist {
    fn clone(&self) -> (r: Self)
        ensures
            r == *self,
    {
        Artist {
            id: self.id,
            name: self.name.clone(),
            uri: self.uri.clone(),
            image_url: copy_opt(&self.image_url),
        }
    }
}

impl PartialEq for Artist {
    fn eq(&self, other: &Artist) -> (r: bool) {
        self.uri == other.uri
    }
}

impl vstd::std_specs::cmp::PartialEqSpecImpl for Artist {
    open spec fn obeys_eq_spec() -> bool {
        true
    }

    open spec fn eq_spec(&self, other: &Artist) -> bool {
        self.uri@ == other.uri@
    }
}

#[derive(Debug)]
pub struct Album {
    pub id: Option<usize>,
    pub title: String,
    pub artist_id: Option<usize>,
    pub artist: Option<Artist>,
    pub provider: Provider,
    pub image_url: Option<String>,
    pub uri: String,
}

impl Clone for Album {
    fn clone(&self) -> (r: Self)
        ensures
            r == *self,
    {
        Album {
            id: self.id,
            title: self.title.clone(),
            artist_id: self.artist_id,
            artist: match &self.artist {
                Some(a) => Some(a.clone()),
                None => None,
            },
            provider: self.provider,
            image_url: copy_opt(&self.image_url),
            uri: self.uri.clone(),
        }
    }
}

impl PartialEq for Album {
    fn eq(&self, other: &Album) -> (r: bool) {
        self.uri == other.uri
    }
}

impl vstd::std_specs::cmp::PartialEqSpecImpl for Album {
    open spec fn obeys_eq_spec() -> bool {
        true
    }

    open spec fn eq_spec(&self, other: &Album) -> bool {
        self.uri@ == other.uri@
    }
}

#[derive(Debug)]
pub struct Playlist {
    pub id: Option<usize>,
    pub title: String,
    pub tracks: Vec<Track>,
    pub provider: Provider,
    pub uri: String,
}

/// Copies a list of tracks, element by element.
pub fn copy_tracks(tracks: &Vec<Track>) -> (r: Vec<Track>)
    ensures
        r@ == tracks@,
{
    let mut out: Vec<Track> = Vec::new();
    let mut i: usize = 0;
    while i < tracks.len()
        invariant
            i <= tracks@.len(),
            out@ == tracks@.subrange(0, i as int),
        decreases tracks@.len() - i,
    {
        out.push(tracks[i].clone());
        i = i + 1;
    }
    assert(tracks@.subrange(0, tracks@.len() as int) =~= tracks@);
    out
}

impl Playlist {
    /// Field-wise equality, with the track lists compared by content.
    pub open spec fn same_as(&self, other: &Playlist) -> bool {
        &&& self.id == other.id
        &&& self.title == other.title
        &&& self.tracks@ == other.tracks@
        &&& self.provider == other.provider
        &&& self.uri == other.uri
    }
}

impl Clone for Playlist {
    fn clone(&self) -> (r: Self)
        ensures
            r.same_as(self),
    {
        Playlist {
            id: self.id,
            title: self.title.clone(),
            tracks: copy_tracks(&self.tracks),
            provider: self.provider,
            uri: self.uri.clone(),
        }
    }
}

impl PartialEq for Playlist {
    fn eq(&self, other: &Playlist) -> (r: bool) {
        self.uri == other.uri
    }
}

impl vstd::std_specs::cmp::PartialEqSpecImpl for Playlist {
    open spec fn obeys_eq_spec() -> bool {
        true
    }

    open spec fn eq_spec(&self, other: &Playlist) -> bool {
        self.uri@ == other.uri@
    }
}

/// What the catalog needs of an entity: its identity key and its id slot.
pub trait CatalogEntry: Sized {
    spec fn key(&self) -> Seq<char>;

    spec fn entry_id(&self) -> Option<usize>;

    /// The entity with its id replaced and every other field kept.
    spec fn with_id(&self, id: Option<usize>) -> Self;

    fn uri(&self) -> (r: &String)
        ensures
            r@ == self.key(),
    ;

    fn id(&self) -> (r: Option<usize>)
        ensures
            r == self.entry_id(),
    ;

    fn set_id(&mut self, id: usize)
        ensures
            *final(self) == old(self).with_id(Some(id)),
    ;

    /// Equality of everything the entity holds.
    spec fn same(&self, other: &Self) -> bool;

    fn duplicate(&self) -> (r: Self)
        ensures
            r.same(self),
            r.key() == self.key(),
            r.entry_id() == self.entry_id(),
    ;

    proof fn lemma_with_id(&self, id: Option<usize>)
        ensures
            self.with_id(id).key() == self.key(),
            self.with_id(id).entry_id() == id,
    ;
}

impl CatalogEntry for Track {
    open spec fn key(&self) -> Seq<char> {
        self.uri@
    }

    open spec fn entry_id(&self) -> Option<usize> {
        self.id
    }

    open spec fn same(&self, other: &Track) -> bool {
        *self == *other
    }

    open spec fn with_id(&self, id: Option<usize>) -> Track {
        Track { id, ..*self }
    }

    fn uri(&self) -> (r: &String) {
        &self.uri
    }

    fn id(&self) -> (r: Option<usize>) {
        self.id
    }

    fn set_id(&mut self, id: usize) {
        self.id = Some(id);
    }

    fn duplicate(&self) -> (r: Track) {
        self.clone()
    }

    proof fn lemma_with_id(&self, id: Option<usize>) {
    }
}

impl CatalogEntry for Album {
    open spec fn key(&self) -> Seq<char> {
        self.uri@
    }

    open spec fn entry_id(&self) -> Option<usize> {
        self.id
    }

    open spec fn same(&self, other: &Album) -> bool {
        *self == *other
    }

    open spec fn with_id(&self, id: Option<usize>) -> Album {
        Album { id, ..*self }
    }

    fn uri(&self) -> (r: &String) {
        &self.uri
    }

    fn id(&self) -> (r: Option<usize>) {
        self.id
    }

    fn set_id(&mut self, id: usize) {
        self.id = Some(id);
    }

    fn duplicate(&self) -> (r: Album) {
        self.clone()
    }

    proof fn lemma_with_id(&self, id: Option<usize>) {
    }
}

impl CatalogEntry for Artist {
    open spec fn key(&self) -> Seq<char> {
        self.uri@
    }

    open spec fn entry_id(&self) -> Option<usize> {
        self.id
    }

    open spec fn same(&self, other: &Artist) -> bool {
        *self == *other
    }

    open spec fn with_id(&self, id: Option<usize>) -> Artist {
        Artist { id, ..*self }
    }

    fn uri(&self) -> (r: &String) {
        &self.uri
    }

    fn id(&self) -> (r: Option<usize>) {
        self.id
    }

    fn set_id(&mut self, id: usize) {
        self.id = Some(id);
    }

    fn duplicate(&self) -> (r: Artist) {
        self.clone()
    }

    proof fn lemma_with_id(&self, id: Option<usize>) {
    }
}

impl CatalogEntry for Playlist {
    open spec fn key(&self) -> Seq<char> {
        self.uri@
    }

    open spec fn entry_id(&self) -> Option<usize> {
        self.id
    }

    open spec fn same(&self, other: &Playlist) -> bool {
        self.same_as(other)
    }

    open spec fn with_id(&self, id: Option<usize>) -> Playlist {
        Playlist { id, ..*self }
    }

    fn uri(&self) -> (r: &String) {
        &self.uri
    }

    fn id(&self) -> (r: Option<usize>) {
        self.id
    }

    fn set_id(&mut self, id: usize) {
        self.id = Some(id);
    }

    fn duplicate(&self) -> (r: Playlist) {
        self.clone()
    }

    proof fn lemma_with_id(&self, id: Option<usize>) {
    }
}

} // verus!
