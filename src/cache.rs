//! Cache-aside bookkeeping for coverart thumbnails. A thumbnail is stored
//! under a name derived from the image uri's MD5 digest; fetching and writing
//! the image is I/O and happens outside the library, which only decides
//! whether a download is needed and records what was stored.

use crate::entity::Track;
use crate::text::push_char;
use vstd::prelude::*;
use vstd::utf8::encode_utf8;

verus! {

/// The MD5 digest of a byte sequence.
pub uninterp spec fn md5_digest_of(data: Seq<u8>) -> Seq<u8>;

/// Relies on `md5::compute`, which returns the 16-byte MD5 digest of the
/// bytes it is given.
#[verifier::external_body]
fn md5_digest(data: &[u8]) -> (r: [u8; 16])
    ensures
        r@ == md5_digest_of(data@),
{
    md5::compute(data).0
}

/// The lower-case hexadecimal digit of a value below 16.
pub open spec fn hex_digit(n: u8) -> char {
    if n < 10 {
        ((48 + n) as u8) as char
    } else {
        ((87 + n) as u8) as char
    }
}

/// Two lower-case hexadecimal digits per byte, most significant first.
pub open spec fn lower_hex(bytes: Seq<u8>) -> Seq<char>
    decreases bytes.len(),
{
    if bytes.len() == 0 {
        Seq::empty()
    } else {
        lower_hex(bytes.drop_last()) + seq![hex_digit(bytes.last() / 16), hex_digit(bytes.last() % 16)]
    }
}

fn hex_char(n: u8) -> (c: char)
    requires
        n < 16,
    ensures
        c == hex_digit(n),
{
    if n < 10 {
        (48 + n) as char
    } else {
        (87 + n) as char
    }
}

/// The name of the thumbnail file of an image uri.
pub open spec fn coverart_file(uri: Seq<char>) -> Seq<char> {
    lower_hex(md5_digest_of(encode_utf8(uri))) + ".png"@
}

/// Where a stored thumbnail is served from.
pub open spec fn coverart_path(filename: Seq<char>) -> Seq<char> {
    "/cache/coverart/"@ + filename
}

pub fn coverart_filename(uri: &String) -> (r: String)
    ensures
        r@ == coverart_file(uri@),
{
    let digest = md5_digest(uri.as_str().as_bytes());
    let mut out = String::new();
    let mut i: usize = 0;
    while i < 16
        invariant
            i <= 16,
            digest@.len() == 16,
            out@ == lower_hex(digest@.subrange(0, i as int)),
        decreases 16 - i,
    {
        let b = digest[i];
        push_char(&mut out, hex_char(b / 16));
        push_char(&mut out, hex_char(b % 16));
        proof {
            assert(digest@.subrange(0, i + 1).drop_last() =~= digest@.subrange(0, i as int));
            assert(out@ =~= lower_hex(digest@.subrange(0, i + 1)));
        }
        i = i + 1;
    }
    assert(digest@.subrange(0, 16) =~= digest@);
    out.append(".png");
    out
}

fn path_for(filename: &String) -> (r: String)
    ensures
        r@ == coverart_path(filename@),
{
    let mut path = String::from_str("/cache/coverart/");
    path.append(filename.as_str());
    path
}

#[derive(Debug)]
pub struct CachedEntry {
    pub uri: String,
    pub filename: String,
}

/// What a lookup decided.
#[derive(Debug, PartialEq, Eq)]
pub enum CoverartStep {
    /// The thumbnail is stored; this is where it is served from.
    Cached(String),
    /// Not stored yet: download it into this file, then record it.
    Download(String),
}

/// Image uris whose thumbnails are stored, each once, with their file names.
pub struct Cache {
    coverart: Vec<CachedEntry>,
}

pub open spec fn has_uri(entries: Seq<CachedEntry>, uri: Seq<char>) -> bool {
    exists|i: int| 0 <= i < entries.len() && #[trigger] entries[i].uri@ == uri
}

impl Cache {
    pub closed spec fn view(&self) -> Seq<CachedEntry> {
        self.coverart@
    }

    /// Every image uri is stored at most once.
    pub open spec fn wf(&self) -> bool {
        forall|i: int, j: int| 0 <= i < j < self@.len() ==> (#[trigger] self@[i]).uri@ != (#[trigger] self@[j]).uri@
    }

    pub fn new() -> (r: Cache)
        ensures
            r@ == Seq::<CachedEntry>::empty(),
            r.wf(),
    {
        Cache { coverart: Vec::new() }
    }

    fn position(&self, uri: &String) -> (r: Option<usize>)
        ensures
            r matches Some(i) ==> i < self@.len() && self@[i as int].uri@ == uri@,
            r is None ==> !has_uri(self@, uri@),
    {
        let mut i: usize = 0;
        while i < self.coverart.len()
            invariant
                i <= self@.len(),
                forall|j: int| 0 <= j < i ==> (#[trigger] self@[j]).uri@ != uri@,
            decreases self@.len() - i,
        {
            if self.coverart[i].uri.eq(uri) {
                return Some(i);
            }
            i = i + 1;
        }
        None
    }

    /// Serves a stored thumbnail, or names the file to download it into.
    pub fn fetch_coverart(&self, uri: &String) -> (r: CoverartStep)
        ensures
            has_uri(self@, uri@) ==> (r matches CoverartStep::Cached(p) && exists|i: int|
                0 <= i < self@.len() && (#[trigger] self@[i]).uri@ == uri@ && p@ == coverart_path(
                    self@[i].filename@,
                )),
            !has_uri(self@, uri@) ==> (r matches CoverartStep::Download(f) && f@ == coverart_file(uri@)),
    {
        match self.position(uri) {
            Some(i) => CoverartStep::Cached(path_for(&self.coverart[i].filename)),
            None => CoverartStep::Download(coverart_filename(uri)),
        }
    }

    /// Records a downloaded thumbnail and returns where it is served from. A
    /// uri that is already stored keeps its first file.
    pub fn record(&mut self, uri: String, filename: String) -> (r: String)
        requires
            old(self).wf(),
        ensures
            final(self).wf(),
            has_uri(old(self)@, uri@) ==> final(self)@ == old(self)@,
            !has_uri(old(self)@, uri@) ==> final(self)@.len() == old(self)@.len() + 1
                && final(self)@.last().uri@ == uri@ && final(self)@.last().filename@ == filename@
                && final(self)@.subrange(0, old(self)@.len() as int) == old(self)@,
            !has_uri(old(self)@, uri@) ==> r@ == coverart_path(filename@),
            has_uri(old(self)@, uri@) ==> exists|i: int|
                0 <= i < old(self)@.len() && (#[trigger] old(self)@[i]).uri@ == uri@ && r@ == coverart_path(
                    old(self)@[i].filename@,
                ),
    {
        match self.position(&uri) {
            Some(i) => path_for(&self.coverart[i].filename),
            None => {
                let path = path_for(&filename);
                self.coverart.push(CachedEntry { uri, filename });
                assert(self@.subrange(0, old(self)@.len() as int) =~= old(self)@);
                path
            },
        }
    }

    /// The image uris of `tracks` whose thumbnails are not stored yet, in
    /// track order.
    pub fn missing_coverart(&self, tracks: &Vec<Track>) -> (r: Vec<String>)
        ensures
            r@.map_values(|u: String| u@) == missing_urls(tracks@, self@),
    {
        let mut out: Vec<String> = Vec::new();
        let mut i: usize = 0;
        while i < tracks.len()
            invariant
                i <= tracks@.len(),
                out@.map_values(|u: String| u@) == missing_urls(tracks@.subrange(0, i as int), self@),
            decreases tracks@.len() - i,
        {
            proof {
                assert(tracks@.subrange(0, i + 1).drop_last() =~= tracks@.subrange(0, i as int));
                assert(tracks@.subrange(0, i + 1).last() == tracks@[i as int]);
            }
            match &tracks[i].image_url {
                Some(url) => {
                    if self.position(url).is_none() {
                        let ghost before = out@;
                        out.push(url.clone());
                        proof {
                            assert(out@.map_values(|u: String| u@) =~= before.map_values(|u: String| u@).push(url@));
                        }
                    }
                },
                None => {},
            }
            i = i + 1;
        }
        assert(tracks@.subrange(0, tracks@.len() as int) =~= tracks@);
        out
    }
}

/// The image uris of `tracks` that `entries` does not hold, in track order.
pub open spec fn missing_urls(tracks: Seq<Track>, entries: Seq<CachedEntry>) -> Seq<Seq<char>>
    decreases tracks.len(),
{
    if tracks.len() == 0 {
        Seq::empty()
    } else {
        let prev = missing_urls(tracks.drop_last(), entries);
        match tracks.last().image_url {
            Some(u) => if has_uri(entries, u@) {
                prev
            } else {
                prev.push(u@)
            },
            None => prev,
        }
    }
}

} // verus!
