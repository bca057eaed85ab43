//! The catalog: the tree as it is authored, with each pattern as text, and
//! the step that compiles it into the tree that lines are resolved against.

use vstd::prelude::*;
use regex::Regex;
use crate::color::Color;
use crate::matcher::{compile_pattern, compiled, pattern_valid};
use crate::tree::{lemma_view_children, view_children, ColorTree, ResmokeComponentColors};

verus! {

/// A node of the catalog: a color, and the branches below it in the order in
/// which they are tried, each a pattern text with the node that it leads to.
pub struct ColorCatalog {
    pub default_color: Color,
    pub children_by_pattern: Vec<(String, ColorCatalog)>,
}

/// What a catalog node is to the contracts.
pub struct CatalogTree {
    pub color: Color,
    pub children: Seq<(Seq<char>, CatalogTree)>,
}

/// A pattern text that does not compile.
#[derive(Debug)]
pub struct InvalidPattern {
    pub pattern: String,
}

impl View for ColorCatalog {
    type V = CatalogTree;

    open spec fn view(&self) -> CatalogTree
        decreases self,
    {
        CatalogTree {
            color: self.default_color,
            children: view_entries(self.children_by_pattern@, self.children_by_pattern@.len()),
        }
    }
}

/// The models of the first `n` of some branches.
pub open spec fn view_entries(entries: Seq<(String, ColorCatalog)>, n: nat) -> Seq<
    (Seq<char>, CatalogTree),
>
    decreases entries, n,
{
    if n == 0 || n > entries.len() {
        Seq::empty()
    } else {
        view_entries(entries, (n - 1) as nat).push((entries[n - 1].0@, entries[n - 1].1.view()))
    }
}

/// The models of some branches.
pub open spec fn entries_view(entries: Seq<(String, ColorCatalog)>) -> Seq<
    (Seq<char>, CatalogTree),
> {
    view_entries(entries, entries.len())
}

/// The model of the first `n` branches holds, for each of them, its pattern
/// text with the model of the node below.
pub proof fn lemma_view_entries(entries: Seq<(String, ColorCatalog)>, n: nat)
    requires
        n <= entries.len(),
    ensures
        view_entries(entries, n).len() == n,
        forall|i: int|
            0 <= i < n ==> #[trigger] view_entries(entries, n)[i] == (entries[i].0@, entries[i].1@),
    decreases n,
{
    if n > 0 {
        lemma_view_entries(entries, (n - 1) as nat);
        assert(view_entries(entries, n) == view_entries(entries, (n - 1) as nat).push(
            (entries[n - 1].0@, entries[n - 1].1@),
        ));
    } else {
        assert(view_entries(entries, n).len() == 0);
    }
}

/// The model of some branches holds, for each of them, its pattern text with
/// the model of the node below.
pub proof fn lemma_entries_view(entries: Seq<(String, ColorCatalog)>)
    ensures
        entries_view(entries).len() == entries.len(),
        forall|i: int|
            0 <= i < entries.len() ==> #[trigger] entries_view(entries)[i] == (
                entries[i].0@,
                entries[i].1@,
            ),
{
    lemma_view_entries(entries, entries.len());
}

/// The model of a list of branches with one more branch at its end.
pub proof fn lemma_entries_push(entries: Seq<(String, ColorCatalog)>, last: (String, ColorCatalog))
    ensures
        entries_view(entries.push(last)) == entries_view(entries).push((last.0@, last.1@)),
{
    lemma_entries_view(entries);
    lemma_entries_view(entries.push(last));
    assert(entries_view(entries.push(last)) =~= entries_view(entries).push((last.0@, last.1@)));
}

/// The catalog of a node without branches.
pub open spec fn catalog_leaf(color: Color) -> CatalogTree {
    CatalogTree { color, children: Seq::empty() }
}

/// The first pattern text of a catalog that does not compile: the branches
/// are gone through in order, and for each its own pattern comes before those
/// of the node below it.
pub open spec fn first_invalid(catalog: CatalogTree) -> Option<Seq<char>>
    decreases catalog,
{
    first_invalid_from(catalog, 0)
}

/// The first pattern text that does not compile in the branches of a catalog
/// from position `from` on.
pub open spec fn first_invalid_from(catalog: CatalogTree, from: int) -> Option<Seq<char>>
    decreases catalog, catalog.children.len() - from,
{
    if from < 0 || from >= catalog.children.len() {
        None
    } else if !pattern_valid(catalog.children[from].0) {
        Some(catalog.children[from].0)
    } else {
        match first_invalid(catalog.children[from].1) {
            Some(source) => Some(source),
            None => first_invalid_from(catalog, from + 1),
        }
    }
}

/// The tree that a catalog compiles to: the same colors and branches, with
/// each pattern text compiled.
pub open spec fn compiled_tree(catalog: CatalogTree) -> ColorTree
    decreases catalog,
{
    ColorTree {
        color: catalog.color,
        children: compiled_children(catalog, catalog.children.len() as int),
    }
}

/// What the first `n` branches of a catalog compile to.
pub open spec fn compiled_children(catalog: CatalogTree, n: int) -> Seq<(Regex, ColorTree)>
    decreases catalog, n,
{
    if n <= 0 || n > catalog.children.len() {
        Seq::empty()
    } else {
        compiled_children(catalog, n - 1).push(
            (compiled(catalog.children[n - 1].0), compiled_tree(catalog.children[n - 1].1)),
        )
    }
}

/// Compiling keeps the color of a node, the number of its branches and their
/// order: each branch of the tree is the compiled pattern of the branch at the
/// same position of the catalog, with the tree of the node below it.
pub proof fn lemma_compiled_tree(catalog: CatalogTree)
    ensures
        compiled_tree(catalog).color == catalog.color,
        compiled_tree(catalog).children.len() == catalog.children.len(),
        forall|i: int|
            0 <= i < catalog.children.len() ==> #[trigger] compiled_tree(catalog).children[i] == (
                compiled(catalog.children[i].0),
                compiled_tree(catalog.children[i].1),
            ),
{
    lemma_compiled_children(catalog, catalog.children.len() as int);
}

proof fn lemma_compiled_children(catalog: CatalogTree, n: int)
    requires
        0 <= n <= catalog.children.len(),
    ensures
        compiled_children(catalog, n).len() == n,
        forall|i: int|
            0 <= i < n ==> #[trigger] compiled_children(catalog, n)[i] == (
                compiled(catalog.children[i].0),
                compiled_tree(catalog.children[i].1),
            ),
    decreases n,
{
    if n > 0 {
        lemma_compiled_children(catalog, n - 1);
        assert(compiled_children(catalog, n) == compiled_children(catalog, n - 1).push(
            (compiled(catalog.children[n - 1].0), compiled_tree(catalog.children[n - 1].1)),
        ));
    } else {
        assert(compiled_children(catalog, n).len() == 0);
    }
}

/// A node without branches.
pub fn mk_component(color: Color) -> (node: ColorCatalog)
    ensures
        node@ == catalog_leaf(color),
{
    let node = ColorCatalog { default_color: color, children_by_pattern: Vec::new() };
    assert(node@.children =~= Seq::empty());
    node
}

/// The catalog of a node with the given color and branches.
pub open spec fn catalog_node(color: Color, children: Seq<(Seq<char>, CatalogTree)>) -> CatalogTree {
    CatalogTree { color, children }
}

/// A branch: a pattern text with the node that it leads to.
pub fn entry(source: &str, node: ColorCatalog) -> (policy: (String, ColorCatalog))
    ensures
        policy.0@ == source@,
        policy.1 == node,
{
    (String::from_str(source), node)
}

/// A node with the given color and branches.
pub fn branch(color: Color, children: Vec<(String, ColorCatalog)>) -> (node: ColorCatalog)
    ensures
        node@ == catalog_node(color, entries_view(children@)),
{
    ColorCatalog { default_color: color, children_by_pattern: children }
}

/// Turns the outcome of compiling `source` into a compiled pattern, or into
/// the error that names `source`.
pub fn checked_pattern(outcome: Result<Regex, regex::Error>, source: &str) -> (r: Result<
    Regex,
    InvalidPattern,
>)
    ensures
        match r {
            Ok(re) => outcome == Ok::<Regex, regex::Error>(re),
            Err(e) => outcome is Err && e.pattern@ == source@,
        },
{
    match outcome {
        Ok(re) => Ok(re),
        Err(_) => Err(InvalidPattern { pattern: String::from_str(source) }),
    }
}

/// Compiles a pattern text.
pub fn pattern(source: &str) -> (r: Result<Regex, InvalidPattern>)
    ensures
        match r {
            Ok(re) => pattern_valid(source@) && re == compiled(source@),
            Err(e) => !pattern_valid(source@) && e.pattern@ == source@,
        },
{
    checked_pattern(compile_pattern(source), source)
}

/// Compiles a catalog into the tree that lines are resolved against. Fails
/// with the first pattern text that does not compile.
pub fn compile(catalog: &ColorCatalog) -> (r: Result<ResmokeComponentColors, InvalidPattern>)
    ensures
        match r {
            Ok(tree) => first_invalid(catalog@) is None && tree@ == compiled_tree(catalog@),
            Err(e) => first_invalid(catalog@) == Some(e.pattern@),
        },
    decreases catalog,
{
    let mut children: Vec<(Regex, ResmokeComponentColors)> = Vec::new();
    let mut i: usize = 0;
    proof {
        lemma_view_entries(catalog.children_by_pattern@, catalog.children_by_pattern@.len());
    }
    while i < catalog.children_by_pattern.len()
        invariant
            i <= catalog.children_by_pattern.len(),
            catalog@.children.len() == catalog.children_by_pattern.len(),
            forall|k: int|
                0 <= k < catalog.children_by_pattern.len() ==> #[trigger] catalog@.children[k] == (
                    catalog.children_by_pattern@[k].0@,
                    catalog.children_by_pattern@[k].1@,
                ),
            first_invalid(catalog@) == first_invalid_from(catalog@, i as int),
            children@.len() == i,
            view_children(children@, i as nat) == compiled_children(catalog@, i as int),
        decreases catalog.children_by_pattern.len() - i,
    {
        let entry = &catalog.children_by_pattern[i];
        let re = match pattern(entry.0.as_str()) {
            Ok(re) => re,
            Err(e) => {
                return Err(e);
            },
        };
        let below = match compile(&entry.1) {
            Ok(tree) => tree,
            Err(e) => {
                return Err(e);
            },
        };
        let ghost before = children@;
        children.push((re, below));
        proof {
            lemma_view_children(before, i as nat);
            lemma_view_children(children@, (i + 1) as nat);
            assert(view_children(children@, (i + 1) as nat) =~= compiled_children(
                catalog@,
                i + 1,
            ));
        }
        i = i + 1;
    }
    let tree = ResmokeComponentColors {
        default_color: catalog.default_color,
        children_by_regex: children,
    };
    Ok(tree)
}

} // verus!
