//! What is read off a single line besides its color: the tags in front of it,
//! and whether it reports that the run went well.

use vstd::prelude::*;
use regex::Regex;
use crate::catalog::{pattern, InvalidPattern};
use crate::matcher::{capture_spans, compiled, find_span, matches_in, pattern_valid, regex_captures};
use crate::text::{can_cut, is_cut, slice_between, text_between};

verus! {

/// The pattern of a tagged line. Its first group is the prefix: a run
/// identifier in square brackets and a space, and then, where there is one, a
/// process tag with its bar and a space. Its second group is the content.
pub open spec fn format_pattern() -> Seq<char> {
    r"(\[\S+\] (?:[cdsh]\d+\| )?)(.*)"@
}

/// The pattern of the lines that report that a run went well.
pub open spec fn success_pattern() -> Seq<char> {
    r"All \d+ test\(s\) passed|Exiting with code: 0"@
}

/// Whether the two ends of a group mark a part of `text`.
pub open spec fn marks_part(text: Seq<char>, span: (usize, usize)) -> bool {
    &&& span.0 <= span.1
    &&& is_cut(text, span.0 as int)
    &&& is_cut(text, span.1 as int)
}

/// The text of group `k` among the groups of a match in `text`; `None` where
/// there is no such group, where it took no part in the match, or where its
/// ends mark no part of `text`.
pub open spec fn group_text(text: Seq<char>, groups: Seq<Option<(usize, usize)>>, k: int) -> Option<
    Seq<char>,
> {
    if 0 <= k < groups.len() {
        match groups[k] {
            Some(span) => if marks_part(text, span) {
                Some(text_between(text, span.0 as int, span.1 as int))
            } else {
                None
            },
            None => None,
        }
    } else {
        None
    }
}

/// The prefix and the content of a line, given the groups of the match of the
/// line's pattern in it: the texts of the first and of the second group. Where
/// there was no match, or one of the two groups has no text, the prefix is
/// empty and the content is the whole line.
pub open spec fn split_by(text: Seq<char>, groups: Option<Seq<Option<(usize, usize)>>>) -> (
    Seq<char>,
    Seq<char>,
) {
    match groups {
        Some(found) => match (group_text(text, found, 1), group_text(text, found, 2)) {
            (Some(prefix), Some(content)) => (prefix, content),
            _ => (Seq::empty(), text),
        },
        None => (Seq::empty(), text),
    }
}

/// The text of group `k` among the groups of a match in `text`.
pub fn group_slice<'a>(text: &'a str, groups: &Vec<Option<(usize, usize)>>, k: usize) -> (part:
    Option<&'a str>)
    ensures
        part is Some <==> group_text(text@, groups@, k as int) is Some,
        part is Some ==> part->0@ == group_text(text@, groups@, k as int)->0,
{
    if k < groups.len() {
        match groups[k] {
            Some(span) => {
                if span.0 <= span.1 && can_cut(text, span.0) && can_cut(text, span.1) {
                    Some(slice_between(text, span.0, span.1))
                } else {
                    None
                }
            },
            None => None,
        }
    } else {
        None
    }
}

/// The prefix and the content of a line, given the groups of the match of the
/// line's pattern in it.
pub fn split_line<'a>(line: &'a str, groups: &Option<Vec<Option<(usize, usize)>>>) -> (parts: (
    &'a str,
    &'a str,
))
    ensures
        (parts.0@, parts.1@) == split_by(
            line@,
            match groups {
                Some(found) => Some(found@),
                None => None,
            },
        ),
{
    proof {
        reveal_strlit("");
        assert(""@ =~= Seq::<char>::empty());
    }
    match groups {
        Some(found) => {
            match (group_slice(line, found, 1), group_slice(line, found, 2)) {
                (Some(prefix), Some(content)) => (prefix, content),
                _ => ("", line),
            }
        },
        None => ("", line),
    }
}

/// Splits lines into prefix and content.
pub struct PrefixExtractor {
    format: Regex,
}

impl PrefixExtractor {
    #[verifier::type_invariant]
    spec fn holds_format(self) -> bool {
        self.format == compiled(format_pattern())
    }

    /// Compiles the pattern of a tagged line.
    pub fn new() -> (r: Result<PrefixExtractor, InvalidPattern>)
        ensures
            r is Ok <==> pattern_valid(format_pattern()),
            r is Err ==> r->Err_0.pattern@ == format_pattern(),
    {
        match pattern(r"(\[\S+\] (?:[cdsh]\d+\| )?)(.*)") {
            Ok(format) => Ok(PrefixExtractor { format }),
            Err(e) => Err(e),
        }
    }

    /// The prefix and the content of a line. A line that does not have the
    /// shape of a tagged line has an empty prefix, and is all content.
    pub fn extract<'a>(&self, line: &'a str) -> (parts: (&'a str, &'a str))
        ensures
            (parts.0@, parts.1@) == split_by(
                line@,
                regex_captures(compiled(format_pattern()), line@),
            ),
    {
        proof {
            use_type_invariant(self);
        }
        let groups = capture_spans(&self.format, line);
        split_line(line, &groups)
    }
}

/// Recognizes the lines that report that a run went well.
pub struct SuccessDetector {
    marker: Regex,
}

impl SuccessDetector {
    #[verifier::type_invariant]
    spec fn holds_marker(self) -> bool {
        self.marker == compiled(success_pattern())
    }

    /// Compiles the pattern of the lines that report that a run went well.
    pub fn new() -> (r: Result<SuccessDetector, InvalidPattern>)
        ensures
            r is Ok <==> pattern_valid(success_pattern()),
            r is Err ==> r->Err_0.pattern@ == success_pattern(),
    {
        match pattern(r"All \d+ test\(s\) passed|Exiting with code: 0") {
            Ok(marker) => Ok(SuccessDetector { marker }),
            Err(e) => Err(e),
        }
    }

    /// Whether the line reports that the run went well: whether the pattern
    /// of such lines matches somewhere in it.
    pub fn is_success(&self, line: &str) -> (b: bool)
        ensures
            b == matches_in(compiled(success_pattern()), line@),
    {
        proof {
            use_type_invariant(self);
        }
        find_span(&self.marker, line).is_some()
    }
}

} // verus!
