//! The tree of patterns and colors.

use vstd::prelude::*;
use regex::Regex;
use crate::color::Color;

verus! {

/// A node of the tree: the color of the lines that reach it and go no
/// further, and the branches below it, in the order in which they are tried.
pub struct ResmokeComponentColors {
    pub default_color: Color,
    pub children_by_regex: Vec<(Regex, ResmokeComponentColors)>,
}

/// What a node is to the contracts: its color, and its branches in order,
/// each a compiled pattern with the node that it leads to.
pub struct ColorTree {
    pub color: Color,
    pub children: Seq<(Regex, ColorTree)>,
}

impl View for ResmokeComponentColors {
    type V = ColorTree;

    open spec fn view(&self) -> ColorTree
        decreases self,
    {
        ColorTree {
            color: self.default_color,
            children: view_children(self.children_by_regex@, self.children_by_regex@.len()),
        }
    }
}

/// The models of the first `n` branches of a node.
pub open spec fn view_children(
    children: Seq<(Regex, ResmokeComponentColors)>,
    n: nat,
) -> Seq<(Regex, ColorTree)>
    decreases children, n,
{
    if n == 0 || n > children.len() {
        Seq::empty()
    } else {
        view_children(children, (n - 1) as nat).push(
            (children[n - 1].0, children[n - 1].1.view()),
        )
    }
}

/// The model of the first `n` branches holds, for each of them, its pattern
/// with the model of the node below.
pub proof fn lemma_view_children(children: Seq<(Regex, ResmokeComponentColors)>, n: nat)
    requires
        n <= children.len(),
    ensures
        view_children(children, n).len() == n,
        forall|i: int|
            0 <= i < n ==> #[trigger] view_children(children, n)[i] == (
                children[i].0,
                children[i].1@,
            ),
    decreases n,
{
    if n > 0 {
        lemma_view_children(children, (n - 1) as nat);
        assert(view_children(children, n) == view_children(children, (n - 1) as nat).push(
            (children[n - 1].0, children[n - 1].1@),
        ));
    } else {
        assert(view_children(children, n).len() == 0);
    }
}

/// The greatest number of branches that can be followed downwards from the
/// root of a tree.
pub open spec fn depth(tree: ColorTree) -> nat
    decreases tree,
{
    depth_below(tree, tree.children.len() as int)
}

/// The depth of a tree of which only the first `n` branches are counted.
pub open spec fn depth_below(tree: ColorTree, n: int) -> nat
    decreases tree, n,
{
    if n <= 0 || n > tree.children.len() {
        0
    } else {
        let here = 1 + depth(tree.children[n - 1].1);
        let before = depth_below(tree, n - 1);
        if here > before {
            here
        } else {
            before
        }
    }
}

/// The model of a node holds the node's color, and for each branch its
/// pattern with the model of the node below.
pub proof fn lemma_view(node: ResmokeComponentColors)
    ensures
        node@.color == node.default_color,
        node@.children.len() == node.children_by_regex@.len(),
        forall|i: int|
            0 <= i < node.children_by_regex@.len() ==> #[trigger] node@.children[i] == (
                node.children_by_regex@[i].0,
                node.children_by_regex@[i].1@,
            ),
{
    lemma_view_children(node.children_by_regex@, node.children_by_regex@.len());
}

/// Every branch of a tree leads to a tree that is less deep.
pub proof fn lemma_depth_of_child(tree: ColorTree, i: int)
    requires
        0 <= i < tree.children.len(),
    ensures
        depth(tree.children[i].1) < depth(tree),
{
    lemma_depth_below(tree, tree.children.len() as int, i);
}

proof fn lemma_depth_below(tree: ColorTree, n: int, i: int)
    requires
        0 <= i < n <= tree.children.len(),
    ensures
        depth(tree.children[i].1) < depth_below(tree, n),
    decreases n,
{
    if i < n - 1 {
        lemma_depth_below(tree, n - 1, i);
    }
    assert(depth_below(tree, n) >= 1 + depth(tree.children[n - 1].1));
}

} // verus!
