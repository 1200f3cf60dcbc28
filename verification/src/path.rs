//! Paths as they occur in expressions: `super`, `a::b`, `::c::d::<T>`.
use vstd::prelude::*;
use vstd::string::*;
use crate::text::{same_text, copy_optional_text};

verus! {

/// One segment of a path: an identifier and, where present, the source
/// text of its generic arguments.
#[derive(Debug, PartialEq, Eq)]
pub struct PathSegment {
    pub ident: String,
    pub arguments: Option<String>,
}

/// A path: its segments in order and whether it starts with `::`.
#[derive(Debug, PartialEq, Eq)]
pub struct Path {
    pub leading_colon: bool,
    pub segments: Vec<PathSegment>,
}

pub ghost struct PathSegmentView {
    pub ident: Seq<char>,
    pub arguments: Option<Seq<char>>,
}

pub ghost struct PathView {
    pub leading_colon: bool,
    pub segments: Seq<PathSegmentView>,
}

impl DeepView for PathSegment {
    type V = PathSegmentView;

    open spec fn deep_view(&self) -> PathSegmentView {
        PathSegmentView { ident: self.ident@, arguments: self.arguments.deep_view() }
    }
}

impl DeepView for Path {
    type V = PathView;

    open spec fn deep_view(&self) -> PathView {
        PathView { leading_colon: self.leading_colon, segments: self.segments.deep_view() }
    }
}

impl PathView {
    /// The path that consists of the one identifier `ident` and nothing else.
    pub open spec fn from_ident(ident: Seq<char>) -> PathView {
        PathView {
            leading_colon: false,
            segments: seq![PathSegmentView { ident, arguments: None }],
        }
    }

    /// Whether the path is exactly the single identifier `ident`: no leading
    /// `::`, one segment, no generic arguments.
    pub open spec fn is_ident(self, ident: Seq<char>) -> bool {
        &&& !self.leading_colon
        &&& self.segments.len() == 1
        &&& self.segments[0].arguments is None
        &&& self.segments[0].ident == ident
    }
}

impl PathSegment {
    /// An independent copy of the segment.
    pub fn copy(&self) -> (copy: PathSegment)
        ensures
            copy.deep_view() == self.deep_view(),
    {
        PathSegment { ident: self.ident.clone(), arguments: copy_optional_text(&self.arguments) }
    }
}

impl Path {
    /// The path made of one identifier.
    pub fn from_ident(ident: &str) -> (path: Path)
        ensures
            path.deep_view() == PathView::from_ident(ident@),
    {
        let mut segments: Vec<PathSegment> = Vec::new();
        segments.push(PathSegment { ident: ident.to_owned(), arguments: None });
        let path = Path { leading_colon: false, segments };
        assert(path.deep_view().segments =~= PathView::from_ident(ident@).segments);
        path
    }

    /// Whether the path is exactly the single identifier `ident`.
    pub fn is_ident(&self, ident: &str) -> (found: bool)
        ensures
            found == self.deep_view().is_ident(ident@),
    {
        if self.leading_colon || self.segments.len() != 1 {
            return false;
        }
        let segment = &self.segments[0];
        segment.arguments.is_none() && same_text(segment.ident.as_str(), ident)
    }

    /// An independent copy of the path.
    pub fn copy(&self) -> (copy: Path)
        ensures
            copy.deep_view() == self.deep_view(),
    {
        let mut segments: Vec<PathSegment> = Vec::new();
        let mut i: usize = 0;
        while i < self.segments.len()
            invariant
                i <= self.segments.len(),
                segments.len() == i,
                forall|k: int| 0 <= k < i ==> segments[k].deep_view() == self.segments[k].deep_view(),
            decreases self.segments.len() - i,
        {
            segments.push(self.segments[i].copy());
            i = i + 1;
        }
        assert(segments.deep_view() =~= self.segments.deep_view());
        Path { leading_colon: self.leading_colon, segments }
    }
}

/// A path of one identifier is recognised by that identifier and by no other.
pub proof fn lemma_from_ident_is_ident(ident: Seq<char>, other: Seq<char>)
    ensures
        PathView::from_ident(ident).is_ident(other) <==> ident == other,
{
}

} // verus!
