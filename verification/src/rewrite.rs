//! Replacing the token `super` in a function body by the binding that
//! stands for the overridden function.
use vstd::prelude::*;
use vstd::string::*;
use crate::path::{Path, PathView};
use crate::tree::{views, Syntax, SyntaxView};

verus! {

/// The reserved token.
pub const SUPER: &'static str = "super";

/// The path after the replacing: `target` in place of the bare token, any
/// other path as it is.
pub open spec fn rewritten_path(path: PathView, target: PathView) -> PathView {
    if path.is_ident(SUPER@) {
        target
    } else {
        path
    }
}

/// The tree in which every occurrence of the token has become `target`:
/// `super!(args)` and `super(args)` are calls of `target` on the same
/// arguments, and a bare `super` is `target`. The arguments of every call
/// and of every macro, replaced or not, are treated in the same way, and
/// every other node keeps its place and its content.
pub open spec fn rewritten(node: SyntaxView, target: PathView) -> SyntaxView
    decreases node,
{
    match node {
        SyntaxView::Macro { path, args } => if path.is_ident(SUPER@) {
            SyntaxView::Call { func: target, args: rewritten_all(args, target) }
        } else {
            SyntaxView::Macro { path, args: rewritten_all(args, target) }
        },
        SyntaxView::Path(path) => SyntaxView::Path(rewritten_path(path, target)),
        SyntaxView::Call { func, args } => SyntaxView::Call {
            func: rewritten_path(func, target),
            args: rewritten_all(args, target),
        },
        SyntaxView::Verbatim(_) => node,
        SyntaxView::Other(children) => SyntaxView::Other(rewritten_all(children, target)),
    }
}

/// Every tree of a list after the replacing, in order.
pub open spec fn rewritten_all(nodes: Seq<SyntaxView>, target: PathView) -> Seq<SyntaxView>
    decreases nodes,
{
    Seq::new(
        nodes.len(),
        |i: int|
            if 0 <= i < nodes.len() {
                rewritten(nodes[i], target)
            } else {
                SyntaxView::Other(Seq::empty())
            },
    )
}

/// Whether the token occurs anywhere in the tree: as the path of a macro,
/// as the function of a call, or as a path on its own.
pub open spec fn mentions_super(node: SyntaxView) -> bool
    decreases node,
{
    match node {
        SyntaxView::Macro { path, args } => path.is_ident(SUPER@) || any_mentions_super(args),
        SyntaxView::Path(path) => path.is_ident(SUPER@),
        SyntaxView::Call { func, args } => func.is_ident(SUPER@) || any_mentions_super(args),
        SyntaxView::Verbatim(_) => false,
        SyntaxView::Other(children) => any_mentions_super(children),
    }
}

/// Whether the token occurs in one of the trees.
pub open spec fn any_mentions_super(nodes: Seq<SyntaxView>) -> bool
    decreases nodes,
{
    exists|i: int| #![trigger nodes[i]] 0 <= i < nodes.len() && mentions_super(nodes[i])
}

/// Replaces the token in every tree of a list: see [`rewritten_all`].
pub fn replace_super_all(nodes: &Vec<Syntax>, target: &Path) -> (out: Vec<Syntax>)
    ensures
        views(out@) == rewritten_all(views(nodes@), target.deep_view()),
    decreases nodes,
{
    let mut out: Vec<Syntax> = Vec::new();
    let mut i: usize = 0;
    while i < nodes.len()
        invariant
            i <= nodes.len(),
            out.len() == i,
            forall|k: int|
                0 <= k < i ==> out[k].deep_view() == rewritten(
                    nodes[k].deep_view(),
                    target.deep_view(),
                ),
        decreases nodes.len() - i,
    {
        out.push(replace_super(&nodes[i], target));
        i = i + 1;
    }
    assert(views(out@) =~= rewritten_all(views(nodes@), target.deep_view()));
    out
}

/// The path after the replacing: see [`rewritten_path`].
pub fn replace_super_path(path: &Path, target: &Path) -> (out: Path)
    ensures
        out.deep_view() == rewritten_path(path.deep_view(), target.deep_view()),
{
    if path.is_ident(SUPER) {
        target.copy()
    } else {
        path.copy()
    }
}

/// Replaces the token in one tree: see [`rewritten`].
pub fn replace_super(node: &Syntax, target: &Path) -> (out: Syntax)
    ensures
        out.deep_view() == rewritten(node.deep_view(), target.deep_view()),
    decreases node,
{
    match node {
        Syntax::Macro { path, args } => {
            let args = replace_super_all(args, target);
            if path.is_ident(SUPER) {
                Syntax::Call { func: target.copy(), args }
            } else {
                Syntax::Macro { path: path.copy(), args }
            }
        },
        Syntax::Path(path) => Syntax::Path(replace_super_path(path, target)),
        Syntax::Call { func, args } => Syntax::Call {
            func: replace_super_path(func, target),
            args: replace_super_all(args, target),
        },
        Syntax::Verbatim(text) => Syntax::Verbatim(text.clone()),
        Syntax::Other(children) => Syntax::Other(replace_super_all(children, target)),
    }
}

/// A tree in which the token does not occur is left as it is.
pub proof fn lemma_rewrite_keeps_tree_without_super(node: SyntaxView, target: PathView)
    requires
        !mentions_super(node),
    ensures
        rewritten(node, target) == node,
    decreases node, 1int,
{
    match node {
        SyntaxView::Macro { path, args } => lemma_rewrite_keeps_trees_without_super(args, target),
        SyntaxView::Call { func, args } => lemma_rewrite_keeps_trees_without_super(args, target),
        SyntaxView::Other(children) => lemma_rewrite_keeps_trees_without_super(children, target),
        _ => {},
    }
}

/// Trees in none of which the token occurs are left as they are.
pub proof fn lemma_rewrite_keeps_trees_without_super(nodes: Seq<SyntaxView>, target: PathView)
    requires
        !any_mentions_super(nodes),
    ensures
        rewritten_all(nodes, target) == nodes,
    decreases nodes, 0int,
{
    assert forall|i: int| 0 <= i < nodes.len() implies rewritten(nodes[i], target)
        == nodes[i] by {
        lemma_rewrite_keeps_tree_without_super(nodes[i], target);
    }
    assert(rewritten_all(nodes, target) =~= nodes);
}

/// After the replacing the token occurs nowhere in the tree, provided the
/// replacement is not the token itself.
pub proof fn lemma_rewrite_removes_super(node: SyntaxView, target: PathView)
    requires
        !target.is_ident(SUPER@),
    ensures
        !mentions_super(rewritten(node, target)),
    decreases node, 1int,
{
    match node {
        SyntaxView::Macro { path, args } => lemma_rewrite_removes_super_from_all(args, target),
        SyntaxView::Call { func, args } => lemma_rewrite_removes_super_from_all(args, target),
        SyntaxView::Other(children) => lemma_rewrite_removes_super_from_all(children, target),
        _ => {},
    }
}

/// The same, for every tree of a list.
pub proof fn lemma_rewrite_removes_super_from_all(nodes: Seq<SyntaxView>, target: PathView)
    requires
        !target.is_ident(SUPER@),
    ensures
        !any_mentions_super(rewritten_all(nodes, target)),
    decreases nodes, 0int,
{
    let out = rewritten_all(nodes, target);
    assert forall|i: int| 0 <= i < out.len() implies !mentions_super(out[i]) by {
        lemma_rewrite_removes_super(nodes[i], target);
    }
}

/// Replacing a second time changes nothing.
pub proof fn lemma_rewrite_is_idempotent(node: SyntaxView, target: PathView)
    requires
        !target.is_ident(SUPER@),
    ensures
        rewritten(rewritten(node, target), target) == rewritten(node, target),
{
    lemma_rewrite_removes_super(node, target);
    lemma_rewrite_keeps_tree_without_super(rewritten(node, target), target);
}

} // verus!
