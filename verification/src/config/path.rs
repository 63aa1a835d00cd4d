//! Paths of configuration files.

use vstd::prelude::*;
use vstd::utf8::valid_utf8;
use crate::text::is_utf8;

verus! {

/// A path as the components between its slashes.
///
/// No component is empty, and `.` is there only at the beginning of a relative
/// path, so that paths that differ in nothing else are the same.
#[derive(Debug)]
pub struct FilePath {
    /// The path begins at the root.
    pub absolute: bool,
    pub components: Vec<Vec<u8>>,
}

/// What a [`FilePath`] says.
pub struct PathState {
    pub absolute: bool,
    pub components: Seq<Seq<u8>>,
}

/// The component that stands for the directory itself: `.`.
pub open spec fn current_dir() -> Seq<u8> {
    seq![46u8]
}

/// The component that stands for the directory above: `..`.
pub open spec fn parent_dir() -> Seq<u8> {
    seq![46u8, 46u8]
}

/// The component that stands for the home directory at the beginning of a path:
/// `~`.
pub open spec fn home_dir() -> Seq<u8> {
    seq![126u8]
}

pub open spec fn byte_views(components: Seq<Vec<u8>>) -> Seq<Seq<u8>> {
    Seq::new(components.len(), |i: int| components[i]@)
}

impl PathState {
    /// No component could be left out.
    pub open spec fn is_normal(self) -> bool {
        forall|i: int|
            0 <= i < self.components.len() ==> {
                &&& (#[trigger] self.components[i]).len() > 0
                &&& self.components[i] == current_dir() ==> i == 0 && !self.absolute
            }
    }

    /// The path without anything.
    pub open spec fn empty() -> PathState {
        PathState { absolute: false, components: seq![] }
    }

    /// A path seen from this one: an absolute path stays as it is.
    pub open spec fn joined(self, path: PathState) -> PathState {
        if path.absolute {
            path
        } else if path.components.len() > 0 && path.components[0] == current_dir() && (
        self.absolute || self.components.len() > 0) {
            PathState { components: self.components + path.components.skip(1), ..self }
        } else {
            PathState { components: self.components + path.components, ..self }
        }
    }

    /// The path behind a `~` at the beginning.
    pub open spec fn below_home(self) -> Option<PathState> {
        if !self.absolute && self.components.len() > 0 && self.components[0] == home_dir() {
            Some(PathState { absolute: false, components: self.components.skip(1) })
        } else {
            None
        }
    }

    /// The path without its last component.
    pub open spec fn parent(self) -> Option<PathState> {
        if self.components.len() > 0 {
            Some(PathState { components: self.components.drop_last(), ..self })
        } else {
            None
        }
    }

    /// The directory that a file is in.
    pub open spec fn directory(self) -> PathState {
        match self.parent() {
            Some(parent) => parent,
            None => PathState::empty(),
        }
    }

    /// The name of the file, unless the path ends in none.
    pub open spec fn file_name(self) -> Option<Seq<u8>> {
        if self.components.len() > 0 && self.components.last() != parent_dir()
            && self.components.last() != current_dir() {
            Some(self.components.last())
        } else {
            None
        }
    }

    /// The path ends in a file name that is text.
    pub open spec fn names_file(self) -> bool {
        self.file_name() matches Some(name) && valid_utf8(name)
    }
}

impl View for FilePath {
    type V = PathState;

    open spec fn view(&self) -> PathState {
        PathState { absolute: self.absolute, components: byte_views(self.components@) }
    }
}

fn same_bytes(a: &Vec<u8>, b: &Vec<u8>) -> (r: bool)
    ensures
        r == (a@ == b@),
{
    if a.len() != b.len() {
        return false;
    }
    let mut i: usize = 0;
    while i < a.len()
        invariant
            a@.len() == b@.len(),
            i <= a@.len(),
            forall|j: int| 0 <= j < i ==> a@[j] == b@[j],
        decreases a@.len() - i,
    {
        if a[i] != b[i] {
            return false;
        }
        i += 1;
    }
    assert(a@ =~= b@);
    true
}

fn push_copies(to: &mut Vec<Vec<u8>>, from: &Vec<Vec<u8>>, start: usize, end: usize)
    requires
        start <= end <= from@.len(),
    ensures
        byte_views(final(to)@) == byte_views(old(to)@) + byte_views(from@).subrange(
            start as int,
            end as int,
        ),
{
    let mut i: usize = start;
    let ghost all = byte_views(from@);
    assert(byte_views(to@) =~= byte_views(old(to)@) + all.subrange(start as int, start as int));
    while i < end
        invariant
            start <= i <= end <= from@.len(),
            all == byte_views(from@),
            byte_views(to@) == byte_views(old(to)@) + all.subrange(start as int, i as int),
        decreases end - i,
    {
        let component = from[i].clone();
        assert(component@ =~= all[i as int]);
        let ghost before = byte_views(to@);
        to.push(component);
        assert(byte_views(to@) =~= before.push(all[i as int]));
        assert(all.subrange(start as int, i + 1) =~= all.subrange(start as int, i as int).push(
            all[i as int],
        ));
        assert(byte_views(to@) =~= byte_views(old(to)@) + all.subrange(start as int, i + 1));
        i += 1;
    }
}

impl FilePath {
    pub fn copy(&self) -> (r: FilePath)
        ensures
            r@ == self@,
    {
        let mut components: Vec<Vec<u8>> = Vec::new();
        push_copies(&mut components, &self.components, 0, self.components.len());
        assert(byte_views(components@) =~= self@.components);
        FilePath { absolute: self.absolute, components }
    }

    /// Whether two paths are the same.
    pub fn same(&self, other: &FilePath) -> (r: bool)
        ensures
            r == (self@ == other@),
    {
        if self.absolute != other.absolute || self.components.len() != other.components.len() {
            assert(self@.components.len() == self.components@.len());
            assert(other@.components.len() == other.components@.len());
            return false;
        }
        let mut i: usize = 0;
        while i < self.components.len()
            invariant
                self.components@.len() == other.components@.len(),
                i <= self.components@.len(),
                forall|j: int| 0 <= j < i ==> self@.components[j] == other@.components[j],
            decreases self.components@.len() - i,
        {
            if !same_bytes(&self.components[i], &other.components[i]) {
                assert(self@.components[i as int] != other@.components[i as int]);
                return false;
            }
            assert(self@.components[i as int] == other@.components[i as int]);
            i += 1;
        }
        assert(self@.components =~= other@.components);
        true
    }

    /// Whether the component at `i` is this one.
    fn component_is(&self, i: usize, bytes: &Vec<u8>) -> (r: bool)
        ensures
            r == (i < self@.components.len() && self@.components[i as int] == bytes@),
    {
        i < self.components.len() && same_bytes(&self.components[i], bytes)
    }

    /// A path seen from this one: an absolute path stays as it is.
    pub fn join(&self, path: &FilePath) -> (r: FilePath)
        ensures
            r@ == self@.joined(path@),
    {
        if path.absolute {
            return path.copy();
        }
        let dot: Vec<u8> = vec![46];
        assert(dot@ =~= current_dir());
        let starts_here = path.component_is(0, &dot) && (self.absolute || self.components.len()
            > 0);
        let start: usize = if starts_here { 1 } else { 0 };
        let mut r = self.copy();
        push_copies(&mut r.components, &path.components, start, path.components.len());
        proof {
            let tail = path@.components.subrange(start as int, path@.components.len() as int);
            if starts_here {
                assert(tail =~= path@.components.skip(1));
            } else {
                assert(tail =~= path@.components);
            }
        }
        r
    }

    /// The path behind a `~` at the beginning.
    pub fn strip_home(&self) -> (r: Option<FilePath>)
        ensures
            match self@.below_home() {
                Some(rest) => r is Some && r->0@ == rest,
                None => r is None,
            },
    {
        let tilde: Vec<u8> = vec![126];
        assert(tilde@ =~= home_dir());
        if self.absolute || !self.component_is(0, &tilde) {
            return None;
        }
        let mut components: Vec<Vec<u8>> = Vec::new();
        push_copies(&mut components, &self.components, 1, self.components.len());
        assert(byte_views(components@) =~= self@.components.skip(1));
        Some(FilePath { absolute: false, components })
    }

    /// The directory that a file is in.
    pub fn directory(&self) -> (r: FilePath)
        ensures
            r@ == self@.directory(),
    {
        let n: usize = self.components.len();
        let mut components: Vec<Vec<u8>> = Vec::new();
        if n == 0 {
            assert(byte_views(components@) =~= seq![]);
            return FilePath { absolute: false, components };
        }
        push_copies(&mut components, &self.components, 0, n - 1);
        assert(byte_views(components@) =~= self@.components.drop_last());
        FilePath { absolute: self.absolute, components }
    }

    /// Whether the path ends in a file name that is text.
    pub fn names_file(&self) -> (r: bool)
        ensures
            r == self@.names_file(),
    {
        let n: usize = self.components.len();
        if n == 0 {
            return false;
        }
        let dot: Vec<u8> = vec![46];
        let dots: Vec<u8> = vec![46, 46];
        assert(dot@ =~= current_dir());
        assert(dots@ =~= parent_dir());
        assert(self@.components.last() == self.components@[n - 1]@);
        !same_bytes(&self.components[n - 1], &dots) && !same_bytes(&self.components[n - 1], &dot)
            && is_utf8(self.components[n - 1].as_slice())
    }
}

/// Joining two paths leaves no component that could be left out.
pub proof fn joined_paths_are_normal(base: PathState, path: PathState)
    requires
        base.is_normal(),
        path.is_normal(),
    ensures
        base.joined(path).is_normal(),
{
    let all = base.joined(path);
    if !path.absolute {
        let skipped = if path.components.len() > 0 && path.components[0] == current_dir() && (
        base.absolute || base.components.len() > 0) {
            1int
        } else {
            0
        };
        let n = base.components.len() as int;
        assert forall|i: int| 0 <= i < all.components.len() implies {
            &&& (#[trigger] all.components[i]).len() > 0
            &&& all.components[i] == current_dir() ==> i == 0 && !all.absolute
        } by {
            if i < n {
                assert(all.components[i] == base.components[i]);
            } else {
                assert(all.components[i] == path.components[i - n + skipped]);
            }
        }
    }
}

/// An absolute path is the same wherever it is seen from, and a path without
/// anything is where it is seen from.
pub proof fn joining_keeps_the_ends(base: PathState, path: PathState)
    ensures
        path.absolute ==> base.joined(path) == path,
        base.joined(PathState::empty()) == base,
{
    assert(base.joined(PathState::empty()).components =~= base.components);
}

/// A file is in its directory: the directory with the name of the file is the file.
pub proof fn files_are_in_their_directory(path: PathState)
    requires
        path.components.len() > 0,
    ensures
        path.directory().absolute == path.absolute,
        path.directory().components.push(path.components.last()) == path.components,
{
    assert(path.components.drop_last().push(path.components.last()) =~= path.components);
}

/// A path below the home directory is `~` and what is behind it.
pub proof fn tilde_is_the_home_directory(path: PathState)
    ensures
        path.below_home() is Some <==> !path.absolute && path.components.len() > 0
            && path.components[0] == seq![126u8],
        path.below_home() is Some ==> {
            &&& !path.below_home()->0.absolute
            &&& seq![seq![126u8]] + path.below_home()->0.components == path.components
        },
{
    if path.below_home() is Some {
        assert(seq![seq![126u8]] + path.below_home()->0.components =~= path.components);
    }
}

/// A path seen from another one begins with that one and ends with the path, without a `.`
/// in between.
pub proof fn joined_paths_end_alike(base: PathState, path: PathState)
    requires
        !path.absolute,
    ensures
        base.joined(path).absolute == base.absolute,
        base.components.is_prefix_of(base.joined(path).components),
        path.components.len() > 0 && path.components[0] != current_dir() ==> base.joined(
            path,
        ).components == base.components + path.components,
        path.components.len() > 0 && base.components.len() > 0 && path.components[0]
            == current_dir() ==> base.joined(path).components == base.components
            + path.components.skip(1),
{
}

/// A path names a file if it ends in a text that isn't `.` or `..`.
pub proof fn files_have_names(path: PathState)
    ensures
        path.names_file() <==> {
            &&& path.components.len() > 0
            &&& path.components.last() != seq![46u8]
            &&& path.components.last() != seq![46u8, 46u8]
            &&& valid_utf8(path.components.last())
        },
{
}

} // verus!
