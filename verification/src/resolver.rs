//! Walking the tree against a line.
//!
//! The walk starts at the root with the whole line. At a node the branches are
//! tried in order, and the first whose pattern matches somewhere in what is
//! left of the line is taken, whatever the later ones match. The walk enters
//! its node, and goes on there with the text that follows the end of the
//! match. A match of no length consumes nothing: the walk enters the node and
//! ends in it. Where no branch is taken the walk ends too, and the color of
//! the node that it stands on is the color of the line.

use vstd::prelude::*;
use vstd::utf8::*;
use regex::Regex;
use crate::color::Color;
use crate::matcher::{find_span, matches_in, regex_find};
use crate::text::{can_cut, is_cut, tail_from, text_from};
use crate::tree::{depth, lemma_depth_of_child, lemma_view, ColorTree, ResmokeComponentColors};

verus! {

/// The position of the first branch, from position `from` on, whose pattern
/// matches somewhere in `text`.
pub open spec fn first_match_from(
    children: Seq<(Regex, ColorTree)>,
    text: Seq<char>,
    from: int,
) -> Option<int>
    decreases children.len() - from,
{
    if from < 0 || from >= children.len() {
        None
    } else if matches_in(children[from].0, text) {
        Some(from)
    } else {
        first_match_from(children, text, from + 1)
    }
}

/// The position of the first branch whose pattern matches somewhere in `text`.
pub open spec fn first_match(children: Seq<(Regex, ColorTree)>, text: Seq<char>) -> Option<int> {
    first_match_from(children, text, 0)
}

/// What is left of `text` once a match with the two ends `span` is consumed:
/// the text that follows the end of the match. A match of no length leaves
/// `None`, and so does one that does not end at a place where `text` can be
/// cut.
pub open spec fn text_after(text: Seq<char>, span: (usize, usize)) -> Option<Seq<char>> {
    if span.0 < span.1 && is_cut(text, span.1 as int) {
        Some(text_from(text, span.1 as int))
    } else {
        None
    }
}

/// What is left of `text` once the first match of a pattern in it is
/// consumed.
pub open spec fn left_after(re: Regex, text: Seq<char>) -> Option<Seq<char>> {
    match regex_find(re, text) {
        Some(span) => text_after(text, span),
        None => None,
    }
}

/// The color that the walk from the root of `tree` gives to `text`.
pub open spec fn resolve_in(tree: ColorTree, text: Seq<char>) -> Color
    decreases tree,
{
    match first_match(tree.children, text) {
        Some(i) => if 0 <= i < tree.children.len() {
            match left_after(tree.children[i].0, text) {
                Some(rest) => resolve_in(tree.children[i].1, rest),
                None => tree.children[i].1.color,
            }
        } else {
            tree.color
        },
        None => tree.color,
    }
}

/// The number of nodes below the root that the walk from the root of `tree`
/// enters for `text`.
pub open spec fn descents(tree: ColorTree, text: Seq<char>) -> nat
    decreases tree,
{
    match first_match(tree.children, text) {
        Some(i) => if 0 <= i < tree.children.len() {
            match left_after(tree.children[i].0, text) {
                Some(rest) => 1 + descents(tree.children[i].1, rest),
                None => 1,
            }
        } else {
            0
        },
        None => 0,
    }
}

/// Whether no pattern anywhere in `tree` matches anywhere in `text`.
pub open spec fn nothing_matches(tree: ColorTree, text: Seq<char>) -> bool
    decreases tree,
{
    forall|i: int|
        0 <= i < tree.children.len() ==> {
            &&& !matches_in((#[trigger] tree.children[i]).0, text)
            &&& nothing_matches(tree.children[i].1, text)
        }
}

/// What is left of `text` once a match with the two ends `span` is consumed.
pub fn advance<'a>(text: &'a str, span: (usize, usize)) -> (rest: Option<&'a str>)
    ensures
        rest is Some <==> text_after(text@, span) is Some,
        rest is Some ==> rest->0@ == text_after(text@, span)->0,
{
    if span.0 < span.1 && can_cut(text, span.1) {
        Some(tail_from(text, span.1))
    } else {
        None
    }
}

/// Tries the branches of `node` in order against `text`, and returns the
/// position of the first whose pattern matches, with the two ends of its match.
pub fn first_matching_child(node: &ResmokeComponentColors, text: &str) -> (found: Option<
    (usize, (usize, usize)),
>)
    ensures
        match found {
            Some((i, span)) => {
                &&& first_match(node@.children, text@) == Some(i as int)
                &&& i < node.children_by_regex@.len()
                &&& regex_find(node.children_by_regex@[i as int].0, text@) == Some(span)
            },
            None => first_match(node@.children, text@) is None,
        },
{
    let mut i: usize = 0;
    proof {
        lemma_view(*node);
    }
    while i < node.children_by_regex.len()
        invariant
            i <= node.children_by_regex.len(),
            node@.children.len() == node.children_by_regex.len(),
            forall|k: int|
                0 <= k < node.children_by_regex@.len() ==> (#[trigger] node@.children[k]).0
                    == node.children_by_regex@[k].0,
            first_match(node@.children, text@) == first_match_from(
                node@.children,
                text@,
                i as int,
            ),
        decreases node.children_by_regex.len() - i,
    {
        let child = &node.children_by_regex[i];
        match find_span(&child.0, text) {
            Some(span) => {
                return Some((i, span));
            },
            None => {
                i = i + 1;
            },
        }
    }
    None
}

/// The color of a line: that of the last node that the walk from the root of
/// `tree` enters.
pub fn resolve(tree: &ResmokeComponentColors, line: &str) -> (c: Color)
    ensures
        c == resolve_in(tree@, line@),
{
    let mut node = tree;
    let mut text = line;
    loop
        invariant
            resolve_in(node@, text@) == resolve_in(tree@, line@),
        decreases node,
    {
        proof {
            lemma_view(*node);
        }
        match first_matching_child(node, text) {
            None => {
                return node.default_color;
            },
            Some((i, span)) => {
                let child = &node.children_by_regex[i].1;
                proof {
                    lemma_view(*child);
                }
                match advance(text, span) {
                    None => {
                        return child.default_color;
                    },
                    Some(rest) => {
                        node = child;
                        text = rest;
                    },
                }
            },
        }
    }
}

/// The first match is the match of least position: a branch is the first
/// match exactly if its pattern matches and that of no branch before it does,
/// and there is none exactly if no pattern matches.
pub proof fn lemma_first_match(children: Seq<(Regex, ColorTree)>, text: Seq<char>, from: int)
    requires
        0 <= from,
    ensures
        match first_match_from(children, text, from) {
            Some(i) => {
                &&& from <= i < children.len()
                &&& matches_in(children[i].0, text)
                &&& forall|k: int| from <= k < i ==> !matches_in((#[trigger] children[k]).0, text)
            },
            None => forall|k: int|
                from <= k < children.len() ==> !matches_in((#[trigger] children[k]).0, text),
        },
    decreases children.len() - from,
{
    if from < children.len() && !matches_in(children[from].0, text) {
        lemma_first_match(children, text, from + 1);
    }
}

/// Whether some node of `tree` has the color `color`.
pub open spec fn color_in(tree: ColorTree, color: Color) -> bool
    decreases tree,
{
    ||| color == tree.color
    ||| exists|i: int|
        0 <= i < tree.children.len() && color_in((#[trigger] tree.children[i]).1, color)
}

/// The color of a line is the color of some node of the tree.
pub proof fn lemma_color_from_tree(tree: ColorTree, text: Seq<char>)
    ensures
        color_in(tree, resolve_in(tree, text)),
    decreases tree,
{
    lemma_first_match(tree.children, text, 0);
    match first_match(tree.children, text) {
        Some(i) => {
            match left_after(tree.children[i].0, text) {
                Some(rest) => {
                    lemma_color_from_tree(tree.children[i].1, rest);
                },
                None => {},
            }
            assert(color_in(tree.children[i].1, resolve_in(tree, text)));
        },
        None => {},
    }
}

/// A line that no pattern of the tree matches anywhere gets the color of the
/// root.
pub proof fn lemma_fallback(tree: ColorTree, text: Seq<char>)
    requires
        nothing_matches(tree, text),
    ensures
        resolve_in(tree, text) == tree.color,
{
    lemma_first_match(tree.children, text, 0);
}

/// Where the patterns of two branches of a node both match the text, and no
/// branch before the first of the two matches it, the walk enters the node of
/// the first and never that of the later one: the color of the line is found
/// below the first branch, with what follows its match, or is the color of
/// its node where that match consumes nothing.
pub proof fn lemma_first_sibling_wins(tree: ColorTree, text: Seq<char>, first: int, later: int)
    requires
        0 <= first < later < tree.children.len(),
        matches_in(tree.children[first].0, text),
        matches_in(tree.children[later].0, text),
        forall|k: int| 0 <= k < first ==> !matches_in((#[trigger] tree.children[k]).0, text),
    ensures
        first_match(tree.children, text) == Some(first),
        resolve_in(tree, text) == match left_after(tree.children[first].0, text) {
            Some(rest) => resolve_in(tree.children[first].1, rest),
            None => tree.children[first].1.color,
        },
{
    lemma_first_match(tree.children, text, 0);
}

/// Where the walk goes on below a branch, the text that it takes along is
/// shorter than the text that it came with.
pub proof fn lemma_match_consumes(re: Regex, text: Seq<char>)
    ensures
        match left_after(re, text) {
            Some(rest) => encode_utf8(rest).len() < encode_utf8(text).len(),
            None => true,
        },
{
    match left_after(re, text) {
        Some(rest) => {
            let bytes = encode_utf8(text);
            let span = regex_find(re, text)->0;
            let end = span.1 as int;
            encode_utf8_valid_utf8(text);
            valid_utf8_split(bytes, end);
            decode_utf8_encode_utf8(bytes.subrange(end, bytes.len() as int));
        },
        None => {},
    }
}

/// Where the first branch whose pattern matches has a match of no length,
/// the walk enters its node and ends there, whatever the branches below it
/// match.
pub proof fn lemma_empty_match_ends_walk(tree: ColorTree, text: Seq<char>, first: int, at: usize)
    requires
        0 <= first < tree.children.len(),
        regex_find(tree.children[first].0, text) == Some((at, at)),
        forall|k: int| 0 <= k < first ==> !matches_in((#[trigger] tree.children[k]).0, text),
    ensures
        resolve_in(tree, text) == tree.children[first].1.color,
        descents(tree, text) == 1,
{
    lemma_first_match(tree.children, text, 0);
}

/// The walk enters no more nodes than the tree is deep, and no more than the
/// line has bytes and one: every node but the last is entered with a match
/// that consumes at least one byte.
pub proof fn lemma_progress(tree: ColorTree, text: Seq<char>)
    ensures
        descents(tree, text) <= depth(tree),
        descents(tree, text) <= encode_utf8(text).len() + 1,
    decreases tree,
{
    lemma_first_match(tree.children, text, 0);
    match first_match(tree.children, text) {
        Some(i) => {
            lemma_depth_of_child(tree, i);
            lemma_match_consumes(tree.children[i].0, text);
            match left_after(tree.children[i].0, text) {
                Some(rest) => {
                    lemma_progress(tree.children[i].1, rest);
                },
                None => {},
            }
        },
        None => {},
    }
}

} // verus!
