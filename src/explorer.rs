//! Navigation through the providers' listings by a path of segments: the
//! first segment names a provider, the rest is handed to that provider.

use crate::provider::{titles, NavigationError, ProviderFolder, ProviderInstance};
use crate::text::{first_equal, push_char};
use vstd::prelude::*;

verus! {

/// The segments read so far and the segment being read, after scanning `s`.
pub open spec fn scan_segments(s: Seq<char>) -> (Seq<Seq<char>>, Seq<char>)
    decreases s.len(),
{
    if s.len() == 0 {
        (Seq::empty(), Seq::empty())
    } else {
        let (done, cur) = scan_segments(s.drop_last());
        if s.last() == '/' {
            (done.push(cur), Seq::empty())
        } else {
            (done, cur.push(s.last()))
        }
    }
}

/// The segments of a `/`-separated path. Every `/` ends a segment, empty
/// ones included; text after the last `/` is a segment when it is not empty.
pub open spec fn path_segments(s: Seq<char>) -> Seq<Seq<char>> {
    let (done, cur) = scan_segments(s);
    if cur.len() == 0 {
        done
    } else {
        done.push(cur)
    }
}

/// Each segment followed by `/`.
pub open spec fn joined_path(segments: Seq<Seq<char>>) -> Seq<char>
    decreases segments.len(),
{
    if segments.len() == 0 {
        Seq::empty()
    } else {
        joined_path(segments.drop_last()) + segments.last() + seq!['/']
    }
}

pub open spec fn views(v: Seq<String>) -> Seq<Seq<char>> {
    v.map_values(|s: String| s@)
}

/// Where a navigation path leads, given the providers' titles: the root
/// listing (`None`), or the first provider whose title is the path's first
/// segment. No such provider: the path is not found.
pub fn target(titles: &Vec<String>, path: &Vec<String>) -> (r: Result<Option<usize>, NavigationError>)
    ensures
        path@.len() == 0 ==> r == Ok::<Option<usize>, NavigationError>(None),
        path@.len() > 0 ==> match r {
            Ok(Some(i)) => i < titles@.len() && titles@[i as int]@ == path@[0]@ && forall|j: int|
                0 <= j < i ==> (#[trigger] titles@[j])@ != path@[0]@,
            Ok(None) => false,
            Err(e) => e == NavigationError::PathNotFound && forall|j: int|
                0 <= j < titles@.len() ==> (#[trigger] titles@[j])@ != path@[0]@,
        },
{
    if path.len() == 0 {
        return Ok(None);
    }
    match first_equal(titles, &path[0]) {
        Some(i) => Ok(Some(i)),
        None => Err(NavigationError::PathNotFound),
    }
}

pub struct Explorer<P> {
    pub path: Vec<String>,
    pub providers: Vec<P>,
}

impl<P: ProviderInstance> Explorer<P> {
    pub fn new(providers: Vec<P>) -> (r: Explorer<P>)
        ensures
            r.path@ == Seq::<String>::empty(),
            r.providers@ == providers@,
    {
        Explorer { path: Vec::new(), providers }
    }

    /// Replaces the current path by the segments of `path`.
    pub fn navigate_absolute(&mut self, path: String)
        ensures
            views(final(self).path@) == path_segments(path@),
            final(self).providers@ == old(self).providers@,
    {
        let n = path.as_str().unicode_len();
        let mut done: Vec<String> = Vec::new();
        let mut cur = String::new();
        let mut i: usize = 0;
        while i < n
            invariant
                n == path@.len(),
                i <= n,
                (views(done@), cur@) == scan_segments(path@.subrange(0, i as int)),
            decreases n - i,
        {
            let c = path.as_str().get_char(i);
            proof {
                assert(path@.subrange(0, i + 1).drop_last() =~= path@.subrange(0, i as int));
                assert(path@.subrange(0, i + 1).last() == c);
            }
            if c == '/' {
                let finished = cur;
                let ghost before = done@;
                done.push(finished);
                cur = String::new();
                proof {
                    assert(views(done@) =~= views(before).push(finished@));
                }
            } else {
                push_char(&mut cur, c);
            }
            i = i + 1;
        }
        assert(path@.subrange(0, n as int) =~= path@);
        if cur.as_str().unicode_len() > 0 {
            let last = cur;
            let ghost before = done@;
            done.push(last);
            proof {
                assert(views(done@) =~= views(before).push(last@));
            }
        }
        self.path = done;
    }

    /// Descends into the sub-folder `path`.
    pub fn navigate(&mut self, path: String)
        ensures
            final(self).path@ == old(self).path@.push(path),
            final(self).providers@ == old(self).providers@,
    {
        self.path.push(path);
    }

    /// Leaves the current folder; at the root nothing changes.
    pub fn go_up(&mut self)
        ensures
            final(self).path@ == if old(self).path@.len() == 0 {
                old(self).path@
            } else {
                old(self).path@.drop_last()
            },
            final(self).providers@ == old(self).providers@,
    {
        let _ = self.path.pop();
    }

    /// The current path, each segment followed by `/`.
    pub fn path(&self) -> (r: String)
        ensures
            r@ == joined_path(views(self.path@)),
    {
        let mut out = String::new();
        let mut i: usize = 0;
        while i < self.path.len()
            invariant
                i <= self.path@.len(),
                out@ == joined_path(views(self.path@.subrange(0, i as int))),
            decreases self.path@.len() - i,
        {
            out.append(self.path[i].as_str());
            push_char(&mut out, '/');
            proof {
                assert(views(self.path@.subrange(0, i + 1)).drop_last() =~= views(self.path@.subrange(0, i as int)));
            }
            i = i + 1;
        }
        assert(self.path@.subrange(0, self.path@.len() as int) =~= self.path@);
        out
    }

    /// The root listing: one folder per provider, named by its title.
    pub fn get_root(&self) -> (r: ProviderFolder)
        ensures
            r.folders@.len() == self.providers@.len(),
            r.items@.len() == 0,
    {
        ProviderFolder { folders: titles(&self.providers), items: Vec::new() }
    }

    /// The listing at the current path: the root listing, a provider's root,
    /// or what that provider finds below it.
    pub fn items(&self) -> (r: Result<ProviderFolder, NavigationError>)
        ensures
            self.path@.len() == 0 ==> (r matches Ok(root) && root.folders@.len() == self.providers@.len()
                && root.items@.len() == 0),
    {
        match target(&titles(&self.providers), &self.path) {
            Err(e) => Err(e),
            Ok(None) => Ok(self.get_root()),
            Ok(Some(i)) => {
                if self.path.len() == 1 {
                    Ok(self.providers[i].root())
                } else {
                    let mut rest: Vec<String> = Vec::new();
                    let mut k: usize = 1;
                    while k < self.path.len()
                        invariant
                            1 <= k <= self.path@.len(),
                        decreases self.path@.len() - k,
                    {
                        rest.push(self.path[k].clone());
                        k = k + 1;
                    }
                    self.providers[i].navigate(rest)
                }
            },
        }
    }
}

} // verus!
