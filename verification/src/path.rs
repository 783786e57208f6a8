//! Places in the file system, written as a start and the relative parts joined to it.
//!
//! Joining follows the rules of the platform, so it is left to the program that uses
//! the path; the library fixes what is joined to what.

use vstd::prelude::*;

use crate::text::texts;

verus! {

/// The platforms that the shell tells apart.
#[derive(Clone, Copy, Debug, PartialEq, Eq, Structural)]
pub enum Platform {
    Windows,
    MacOs,
    /// Linux and the other Unix systems.
    Unix,
}

/// Where a path starts.
#[derive(Debug)]
pub enum PathRoot {
    /// A path that is text.
    Text(String),
    /// A path that is not valid Unicode, in the encoding of the platform.
    Native(Vec<u8>),
}

/// A path: a start, and the relative parts that are joined to it in turn.
#[derive(Debug)]
pub struct DesktopPath {
    pub root: PathRoot,
    pub parts: Vec<String>,
}

/// Where a path starts, as a value.
pub enum RootView {
    Text(Seq<char>),
    Native(Seq<u8>),
}

/// A path as a value.
pub struct PathView {
    pub root: RootView,
    pub parts: Seq<Seq<char>>,
}

impl View for PathRoot {
    type V = RootView;

    open spec fn view(&self) -> RootView {
        match *self {
            PathRoot::Text(s) => RootView::Text(s@),
            PathRoot::Native(b) => RootView::Native(b@),
        }
    }
}

impl View for DesktopPath {
    type V = PathView;

    open spec fn view(&self) -> PathView {
        PathView { root: self.root@, parts: texts(self.parts@) }
    }
}

/// The path that is the text `s`.
pub open spec fn text_path(s: Seq<char>) -> PathView {
    PathView { root: RootView::Text(s), parts: seq![] }
}

impl PathView {
    /// The path with `part` joined to it.
    pub open spec fn join(self, part: Seq<char>) -> PathView {
        PathView { root: self.root, parts: self.parts.push(part) }
    }
}

/// The path behind a reference that may be missing.
pub open spec fn path_option(p: Option<DesktopPath>) -> Option<PathView> {
    match p {
        Some(d) => Some(d@),
        None => None,
    }
}

fn copy_texts(list: &Vec<String>) -> (copy: Vec<String>)
    ensures
        texts(copy@) == texts(list@),
{
    let mut copy: Vec<String> = Vec::new();
    let mut i: usize = 0;
    while i < list.len()
        invariant
            i <= list@.len(),
            copy@.len() == i,
            forall|j: int| 0 <= j < i ==> copy@[j]@ == list@[j]@,
        decreases list@.len() - i,
    {
        copy.push(list[i].clone());
        i += 1;
    }
    assert(texts(copy@) == texts(list@));
    copy
}

impl Clone for PathRoot {
    fn clone(&self) -> (copy: PathRoot)
        ensures
            copy@ == self@,
    {
        match self {
            PathRoot::Text(s) => PathRoot::Text(s.clone()),
            PathRoot::Native(b) => PathRoot::Native(vstd::slice::slice_to_vec(b.as_slice())),
        }
    }
}

impl Clone for DesktopPath {
    fn clone(&self) -> (copy: DesktopPath)
        ensures
            copy@ == self@,
    {
        DesktopPath { root: self.root.clone(), parts: copy_texts(&self.parts) }
    }
}

impl DesktopPath {
    /// The path that is the text `s`.
    pub fn text(s: &str) -> (p: DesktopPath)
        ensures
            p@ == text_path(s@),
    {
        let p = DesktopPath { root: PathRoot::Text(s.to_owned()), parts: Vec::new() };
        assert(texts(p.parts@) == Seq::<Seq<char>>::empty());
        p
    }

    /// The path that is not valid Unicode, given in the encoding of the platform.
    pub fn native(bytes: Vec<u8>) -> (p: DesktopPath)
        ensures
            p@ == (PathView { root: RootView::Native(bytes@), parts: seq![] }),
    {
        let p = DesktopPath { root: PathRoot::Native(bytes), parts: Vec::new() };
        assert(texts(p.parts@) == Seq::<Seq<char>>::empty());
        p
    }

    /// The path with `part` joined to it.
    pub fn join(&self, part: &str) -> (p: DesktopPath)
        ensures
            p@ == self@.join(part@),
    {
        let mut p = self.clone();
        let ghost before = p.parts@;
        p.parts.push(part.to_owned());
        assert(texts(p.parts@) == texts(before).push(part@));
        p
    }
}

} // verus!
