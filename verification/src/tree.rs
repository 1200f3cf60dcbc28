//! The body of a function as a tree of syntax nodes.
use vstd::prelude::*;
use vstd::string::*;
use crate::path::{Path, PathView};

verus! {

/// A node of a function body.
///
/// Only what the replacing of `super` tells apart has a variant of its own;
/// every other construct is an `Other` node that holds the nodes below it
/// in source order.
#[derive(Debug, PartialEq, Eq)]
pub enum Syntax {
    /// A macro invocation: the macro's path and its arguments, in order.
    /// Where the tokens between its brackets are not expressions between
    /// commas, they are one `Verbatim` argument.
    Macro { path: Path, args: Vec<Syntax> },
    /// A path used as an expression.
    Path(Path),
    /// A call of the function that a path names, with its arguments, in
    /// order.
    Call { func: Path, args: Vec<Syntax> },
    /// Source text that holds no expression.
    Verbatim(String),
    /// Any other construct, with its children.
    Other(Vec<Syntax>),
}

pub ghost enum SyntaxView {
    Macro { path: PathView, args: Seq<SyntaxView> },
    Path(PathView),
    Call { func: PathView, args: Seq<SyntaxView> },
    Verbatim(Seq<char>),
    Other(Seq<SyntaxView>),
}

/// The views of a list of nodes, in order.
pub open spec fn views(nodes: Seq<Syntax>) -> Seq<SyntaxView>
    decreases nodes,
{
    Seq::new(
        nodes.len(),
        |i: int|
            if 0 <= i < nodes.len() {
                nodes[i].deep_view()
            } else {
                SyntaxView::Other(Seq::empty())
            },
    )
}

impl DeepView for Syntax {
    type V = SyntaxView;

    open spec fn deep_view(&self) -> SyntaxView
        decreases self,
    {
        match self {
            Syntax::Macro { path, args } => SyntaxView::Macro {
                path: path.deep_view(),
                args: views(args@),
            },
            Syntax::Path(path) => SyntaxView::Path(path.deep_view()),
            Syntax::Call { func, args } => SyntaxView::Call {
                func: func.deep_view(),
                args: views(args@),
            },
            Syntax::Verbatim(text) => SyntaxView::Verbatim(text@),
            Syntax::Other(children) => SyntaxView::Other(views(children@)),
        }
    }
}

/// An independent copy of a list of trees.
pub fn copy_all(nodes: &Vec<Syntax>) -> (copies: Vec<Syntax>)
    ensures
        views(copies@) == views(nodes@),
    decreases nodes,
{
    let mut copies: Vec<Syntax> = Vec::new();
    let mut i: usize = 0;
    while i < nodes.len()
        invariant
            i <= nodes.len(),
            copies.len() == i,
            forall|k: int| 0 <= k < i ==> copies[k].deep_view() == nodes[k].deep_view(),
        decreases nodes.len() - i,
    {
        copies.push(nodes[i].copy());
        i = i + 1;
    }
    assert(views(copies@) =~= views(nodes@));
    copies
}

impl Syntax {
    /// An independent copy of the tree.
    pub fn copy(&self) -> (copy: Syntax)
        ensures
            copy.deep_view() == self.deep_view(),
        decreases self,
    {
        match self {
            Syntax::Macro { path, args } => Syntax::Macro {
                path: path.copy(),
                args: copy_all(args),
            },
            Syntax::Path(path) => Syntax::Path(path.copy()),
            Syntax::Call { func, args } => Syntax::Call { func: func.copy(), args: copy_all(args) },
            Syntax::Verbatim(text) => Syntax::Verbatim(text.clone()),
            Syntax::Other(children) => Syntax::Other(copy_all(children)),
        }
    }
}

} // verus!
